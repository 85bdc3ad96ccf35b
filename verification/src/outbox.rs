//! A transport that keeps what it is handed, for callers that want to see
//! the exact text that an operation puts on the wire.

use vstd::prelude::*;
use crate::command::Command;
use crate::server::{Server, TransportError};

verus! {

/// A transport that records each command it takes as a line of text. It may
/// be given room for a number of commands only, and refuses those beyond.
#[derive(Debug)]
pub struct Outbox {
    /// The lines taken so far, oldest first, without their line endings.
    pub lines: Vec<String>,
    /// How many more commands it takes; `None` where there is no limit.
    pub room: Option<usize>,
    /// The refusals so far, oldest first.
    pub refusals: Vec<TransportError>,
}

/// The text of a sequence of lines: each line followed by a carriage return
/// and a line feed, in order.
pub open spec fn framed(lines: Seq<Seq<char>>) -> Seq<char>
    decreases lines.len(),
{
    if lines.len() == 0 {
        Seq::empty()
    } else {
        framed(lines.drop_last()) + lines.last() + seq!['\r', '\n']
    }
}

/// The room that is left once one more command was taken.
pub open spec fn room_after(room: Option<usize>) -> Option<usize> {
    match room {
        Some(n) => Some((n - 1) as usize),
        None => None,
    }
}

impl Outbox {
    /// The lines that the outbox holds.
    pub open spec fn held(self) -> Seq<Seq<char>> {
        Seq::new(self.lines@.len(), |i: int| self.lines@[i]@)
    }

    /// An empty outbox without a limit.
    pub fn new() -> (r: Outbox)
        ensures
            r.sent() == Seq::<Seq<char>>::empty(),
            r.refused() == Seq::<TransportError>::empty(),
            r.room is None,
    {
        let r = Outbox { lines: Vec::new(), room: None, refusals: Vec::new() };
        assert(r.held() =~= Seq::<Seq<char>>::empty());
        r
    }

    /// An empty outbox that takes `room` commands and refuses the rest.
    pub fn with_room(room: usize) -> (r: Outbox)
        ensures
            r.sent() == Seq::<Seq<char>>::empty(),
            r.refused() == Seq::<TransportError>::empty(),
            r.room == Some(room),
    {
        let r = Outbox { lines: Vec::new(), room: Some(room), refusals: Vec::new() };
        assert(r.held() =~= Seq::<Seq<char>>::empty());
        r
    }

    /// Everything taken so far as it would stand on the wire: each line
    /// with its line ending, in order.
    pub fn transcript(&self) -> (r: String)
        ensures
            r@ == framed(self.sent()),
    {
        let ghost all = self.held();
        let mut out = String::new();
        let mut i: usize = 0;
        while i < self.lines.len()
            invariant
                i <= self.lines.len(),
                all == self.held(),
                out@ == framed(all.take(i as int)),
            decreases self.lines.len() - i,
        {
            let ghost before = out@;
            out.append(self.lines[i].as_str());
            out.push('\r');
            out.push('\n');
            proof {
                let now = all.take(i + 1);
                assert(now.drop_last() =~= all.take(i as int));
                assert(now.last() == self.lines@[i as int]@);
                assert(out@ =~= before + now.last() + seq!['\r', '\n']);
            }
            i += 1;
        }
        assert(all.take(i as int) =~= all);
        out
    }
}

impl Server for Outbox {
    open spec fn sent(&self) -> Seq<Seq<char>> {
        self.held()
    }

    open spec fn refused(&self) -> Seq<TransportError> {
        self.refusals@
    }

    /// Takes the command unless no room is left; then it refuses with
    /// `Full` and stays as it was.
    fn send(&mut self, cmd: &Command) -> (r: Result<(), TransportError>)
        ensures
            r is Err <==> old(self).room == Some(0usize),
            r matches Err(e) ==> e == TransportError::Full && final(self).room == old(self).room,
            r is Ok ==> final(self).room == room_after(old(self).room),
    {
        match self.room {
            Some(n) => {
                if n == 0 {
                    self.refusals.push(TransportError::Full);
                    assert(self.held() =~= old(self).held());
                    return Err(TransportError::Full);
                }
                self.room = Some(n - 1);
            },
            None => {},
        }
        self.lines.push(cmd.to_wire());
        assert(self.held() =~= old(self).held().push(cmd.wire()));
        Ok(())
    }
}

} // verus!
