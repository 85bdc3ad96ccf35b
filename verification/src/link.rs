//! A transport made from anything that can take a line of text.

use vstd::prelude::*;
use crate::command::Command;
use crate::server::{Server, TransportError};

verus! {

/// Where lines go: the one operation that a connection has to offer.
/// The line comes without its line ending; framing and delivery in the
/// order of the calls are the sink's part.
pub trait LineSink {
    /// Takes one line or refuses it.
    fn write_line(&mut self, line: &str) -> Result<(), TransportError>;
}

/// A transport that writes each command to a sink as one line and keeps
/// account of what the sink took and what it refused.
pub struct Link<K: LineSink> {
    /// The sink that the lines go to.
    pub sink: K,
    /// The lines that the sink took, oldest first.
    pub taken: Ghost<Seq<Seq<char>>>,
    /// The refusals of the sink, oldest first.
    pub refusals: Ghost<Seq<TransportError>>,
}

impl<K: LineSink> Link<K> {
    /// A transport over `sink` through which nothing has gone yet.
    pub fn new(sink: K) -> (r: Link<K>)
        ensures
            r.sent() == Seq::<Seq<char>>::empty(),
            r.refused() == Seq::<TransportError>::empty(),
    {
        Link { sink, taken: Ghost(Seq::empty()), refusals: Ghost(Seq::empty()) }
    }

    /// Gives the sink back, as the link holds it: with every line that went
    /// through the link written to it.
    pub fn into_sink(self) -> (sink: K)
        ensures
            sink == self.sink,
    {
        self.sink
    }
}

impl<K: LineSink> Server for Link<K> {
    open spec fn sent(&self) -> Seq<Seq<char>> {
        self.taken@
    }

    open spec fn refused(&self) -> Seq<TransportError> {
        self.refusals@
    }

    /// Writes the wire form of `cmd` to the sink and records what the sink
    /// answered.
    fn send(&mut self, cmd: &Command) -> (r: Result<(), TransportError>) {
        let line = cmd.to_wire();
        match self.sink.write_line(line.as_str()) {
            Ok(()) => {
                proof {
                    self.taken@ = self.taken@.push(cmd.wire());
                }
                Ok(())
            },
            Err(e) => {
                proof {
                    self.refusals@ = self.refusals@.push(e);
                }
                Err(e)
            },
        }
    }
}

} // verus!
