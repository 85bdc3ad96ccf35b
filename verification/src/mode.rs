//! Mode changes and the grammar by which a list of them is written.
//!
//! A list of mode entries is written after the target by one rule, whatever
//! the kind of target. Entries are taken in the order given. An entry without
//! a parameter joins the run that the entry before it left open: it adds its
//! letter alone if its sign is that of the entry before, and its sign and its
//! letter if the sign changes. Where no run is open it starts one, after a
//! space. An entry with a parameter never joins a run: it stands as a segment
//! of its own, made of a space, its sign and letter, a space and its
//! parameter, and the entry after it starts afresh.

use vstd::prelude::*;
use crate::command::Command;
use crate::text::opt_view;

verus! {

/// What a mode entry contributes to the wire, whatever its grammar.
pub struct ModeEntry {
    /// `true` for an entry that sets the mode, `false` for one that clears it.
    pub plus: bool,
    /// The letter of the mode.
    pub letter: char,
    /// The parameter, if the entry has one.
    pub param: Option<Seq<char>>,
}

/// Modes of a channel.
#[derive(Clone, Copy, Debug, PartialEq, Eq)]
pub enum ChannelMode {
    Ban,
    Exception,
    Limit,
    InviteOnly,
    InviteException,
    Key,
    Moderated,
    RegisteredOnly,
    Secret,
    ProtectedTopic,
    NoExternalMessages,
    Founder,
    Admin,
    Oper,
    Halfop,
    Voice,
    /// A letter that this library gives no name to; it is passed through.
    Unknown(char),
}

/// Modes of a user.
#[derive(Clone, Copy, Debug, PartialEq, Eq)]
pub enum UserMode {
    Away,
    Invisible,
    Wallops,
    Restricted,
    Oper,
    LocalOper,
    ServerNotices,
    MaskedHost,
    /// A letter that this library gives no name to; it is passed through.
    Unknown(char),
}

/// One change of a mode: set (`Plus`) or cleared (`Minus`), with the
/// parameter that some modes take.
#[derive(Clone, Debug, PartialEq, Eq)]
pub enum Mode<T> {
    Plus(T, Option<String>),
    Minus(T, Option<String>),
}

/// A mode that is written as one letter.
pub trait ModeLetter: Copy {
    /// The letter by which the mode is written.
    spec fn letter(&self) -> char;

    /// The letter by which the mode is written.
    fn flag(&self) -> (c: char)
        ensures
            c == self.letter(),
    ;
}

/// A kind of mode: it says which command carries a list of its modes.
pub trait ModeType: ModeLetter {
    /// The command that applies `modes` to `target`.
    fn mode(target: &str, modes: &[Mode<Self>]) -> (cmd: Command)
        ensures
            cmd.wire() == mode_line(target@, entries_of(modes@)),
            cmd is ChannelMODE || cmd is UserMODE,
    ;
}

impl ChannelMode {
    /// The letter of a channel mode.
    pub open spec fn spec_letter(self) -> char {
        match self {
            ChannelMode::Ban => 'b',
            ChannelMode::Exception => 'e',
            ChannelMode::Limit => 'l',
            ChannelMode::InviteOnly => 'i',
            ChannelMode::InviteException => 'I',
            ChannelMode::Key => 'k',
            ChannelMode::Moderated => 'm',
            ChannelMode::RegisteredOnly => 'r',
            ChannelMode::Secret => 's',
            ChannelMode::ProtectedTopic => 't',
            ChannelMode::NoExternalMessages => 'n',
            ChannelMode::Founder => 'q',
            ChannelMode::Admin => 'a',
            ChannelMode::Oper => 'o',
            ChannelMode::Halfop => 'h',
            ChannelMode::Voice => 'v',
            ChannelMode::Unknown(c) => c,
        }
    }
}

impl UserMode {
    /// The letter of a user mode.
    pub open spec fn spec_letter(self) -> char {
        match self {
            UserMode::Away => 'a',
            UserMode::Invisible => 'i',
            UserMode::Wallops => 'w',
            UserMode::Restricted => 'r',
            UserMode::Oper => 'o',
            UserMode::LocalOper => 'O',
            UserMode::ServerNotices => 's',
            UserMode::MaskedHost => 'x',
            UserMode::Unknown(c) => c,
        }
    }
}

impl ModeLetter for ChannelMode {
    open spec fn letter(&self) -> char {
        self.spec_letter()
    }

    fn flag(&self) -> (c: char) {
        match *self {
            ChannelMode::Ban => 'b',
            ChannelMode::Exception => 'e',
            ChannelMode::Limit => 'l',
            ChannelMode::InviteOnly => 'i',
            ChannelMode::InviteException => 'I',
            ChannelMode::Key => 'k',
            ChannelMode::Moderated => 'm',
            ChannelMode::RegisteredOnly => 'r',
            ChannelMode::Secret => 's',
            ChannelMode::ProtectedTopic => 't',
            ChannelMode::NoExternalMessages => 'n',
            ChannelMode::Founder => 'q',
            ChannelMode::Admin => 'a',
            ChannelMode::Oper => 'o',
            ChannelMode::Halfop => 'h',
            ChannelMode::Voice => 'v',
            ChannelMode::Unknown(c) => c,
        }
    }
}

impl ModeType for ChannelMode {
    fn mode(target: &str, modes: &[Mode<ChannelMode>]) -> (cmd: Command)
        ensures
            cmd matches Command::ChannelMODE(t, m) && t@ == target@ && entries_of(m@) == entries_of(
                modes@,
            ),
    {
        Command::ChannelMODE(target.to_owned(), copy_modes(modes))
    }
}

impl ModeLetter for UserMode {
    open spec fn letter(&self) -> char {
        self.spec_letter()
    }

    fn flag(&self) -> (c: char) {
        match *self {
            UserMode::Away => 'a',
            UserMode::Invisible => 'i',
            UserMode::Wallops => 'w',
            UserMode::Restricted => 'r',
            UserMode::Oper => 'o',
            UserMode::LocalOper => 'O',
            UserMode::ServerNotices => 's',
            UserMode::MaskedHost => 'x',
            UserMode::Unknown(c) => c,
        }
    }
}

impl ModeType for UserMode {
    fn mode(target: &str, modes: &[Mode<UserMode>]) -> (cmd: Command)
        ensures
            cmd matches Command::UserMODE(t, m) && t@ == target@ && entries_of(m@) == entries_of(
                modes@,
            ),
    {
        Command::UserMODE(target.to_owned(), copy_modes(modes))
    }
}

impl<T: ModeLetter> Mode<T> {
    /// What this change contributes to the wire.
    pub open spec fn entry(self) -> ModeEntry {
        match self {
            Mode::Plus(f, p) => ModeEntry { plus: true, letter: f.letter(), param: opt_view(p) },
            Mode::Minus(f, p) => ModeEntry { plus: false, letter: f.letter(), param: opt_view(p) },
        }
    }

    /// A copy of this change.
    pub fn duplicate(&self) -> (r: Self)
        ensures
            r.entry() == self.entry(),
    {
        match self {
            Mode::Plus(f, Some(p)) => Mode::Plus(*f, Some(p.clone())),
            Mode::Plus(f, None) => Mode::Plus(*f, None),
            Mode::Minus(f, Some(p)) => Mode::Minus(*f, Some(p.clone())),
            Mode::Minus(f, None) => Mode::Minus(*f, None),
        }
    }
}

/// The entries of a list of changes, in order.
pub open spec fn entries_of<T: ModeLetter>(modes: Seq<Mode<T>>) -> Seq<ModeEntry> {
    Seq::new(modes.len(), |i: int| modes[i].entry())
}

/// The sign of an entry.
pub open spec fn sign_char(plus: bool) -> char {
    if plus {
        '+'
    } else {
        '-'
    }
}

/// The text of one entry, given the sign of the run that the entry before it
/// left open (`None` where no run is open).
pub open spec fn entry_text(e: ModeEntry, run: Option<bool>) -> Seq<char> {
    match e.param {
        Some(p) => seq![' ', sign_char(e.plus), e.letter, ' '] + p,
        None => if run == Some(e.plus) {
            seq![e.letter]
        } else if run is Some {
            seq![sign_char(e.plus), e.letter]
        } else {
            seq![' ', sign_char(e.plus), e.letter]
        },
    }
}

/// The run that an entry leaves open for the next one.
pub open spec fn run_after(e: ModeEntry) -> Option<bool> {
    if e.param is Some {
        None
    } else {
        Some(e.plus)
    }
}

/// The text of a list of entries that follows an open run of sign `run`.
pub open spec fn mode_text(entries: Seq<ModeEntry>, run: Option<bool>) -> Seq<char>
    decreases entries.len(),
{
    if entries.len() == 0 {
        Seq::empty()
    } else {
        entry_text(entries[0], run) + mode_text(entries.skip(1), run_after(entries[0]))
    }
}

/// The whole line of a mode command.
pub open spec fn mode_line(target: Seq<char>, entries: Seq<ModeEntry>) -> Seq<char> {
    "MODE"@ + crate::text::word(target) + mode_text(entries, None)
}

/// A copy of a list of changes.
pub fn copy_modes<T: ModeLetter>(modes: &[Mode<T>]) -> (r: Vec<Mode<T>>)
    ensures
        entries_of(r@) == entries_of(modes@),
{
    let mut r: Vec<Mode<T>> = Vec::new();
    let mut i: usize = 0;
    while i < modes.len()
        invariant
            i <= modes.len(),
            r.len() == i,
            forall|j: int| 0 <= j < i ==> (#[trigger] r@[j]).entry() == modes@[j].entry(),
        decreases modes.len() - i,
    {
        r.push(modes[i].duplicate());
        i += 1;
    }
    assert(entries_of(r@) =~= entries_of(modes@));
    r
}

/// Appends the text of `modes` to `out`.
pub fn push_modes<T: ModeLetter>(out: &mut String, modes: &[Mode<T>])
    ensures
        final(out)@ == old(out)@ + mode_text(entries_of(modes@), None),
{
    let ghost all = entries_of(modes@);
    let mut run: Option<bool> = None;
    let mut i: usize = 0;
    assert(all.skip(0) =~= all);
    while i < modes.len()
        invariant
            i <= modes.len(),
            all == entries_of(modes@),
            out@ + mode_text(all.skip(i as int), run) == old(out)@ + mode_text(all, None),
        decreases modes.len() - i,
    {
        let ghost before = out@;
        let ghost e = all[i as int];
        let ghost rest = all.skip(i as int);
        let ghost prev = run;
        assert(rest[0] == e);
        assert(rest.skip(1) =~= all.skip(i + 1));
        let (plus, letter, param) = match &modes[i] {
            Mode::Plus(f, p) => (true, f.flag(), p),
            Mode::Minus(f, p) => (false, f.flag(), p),
        };
        let sign: char = if plus { '+' } else { '-' };
        match param {
            Some(p) => {
                out.push(' ');
                out.push(sign);
                out.push(letter);
                out.push(' ');
                out.append(p.as_str());
                run = None;
            },
            None => {
                match run {
                    Some(s) => {
                        if s != plus {
                            out.push(sign);
                        }
                    },
                    None => {
                        out.push(' ');
                        out.push(sign);
                    },
                }
                out.push(letter);
                run = Some(plus);
            },
        }
        assert(out@ =~= before + entry_text(e, prev));
        assert(run == run_after(e));
        assert(out@ + mode_text(rest.skip(1), run) =~= before + mode_text(rest, prev));
        i += 1;
    }
    assert(all.skip(i as int) =~= Seq::<ModeEntry>::empty());
    assert(out@ + Seq::<char>::empty() =~= out@);
}

} // verus!
