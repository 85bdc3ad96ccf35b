//! One function per intent: from the caller's arguments to the command, or
//! the commands, that express it. Nothing here talks to a transport.

use vstd::prelude::*;
use crate::command::{CapSubCommand, Capability, Command, NegotiationVersion};
use crate::config::Config;
use crate::mode::{entries_of, mode_line, Mode, ModeType};
use crate::text::{
    decimal, decimal_text, opt_trailing, opt_view, opt_word, split_lines, split_on_breaks, trailing,
    word,
};

verus! {

/// An optional parameter given as text: the empty text stands for "absent".
pub open spec fn nonempty(s: Seq<char>) -> Option<Seq<char>> {
    if s.len() == 0 {
        None
    } else {
        Some(s)
    }
}

/// The tokens joined by single spaces, in order: nothing before the first,
/// nothing after the last.
pub open spec fn join_tokens(tokens: Seq<Seq<char>>) -> Seq<char>
    decreases tokens.len(),
{
    if tokens.len() == 0 {
        Seq::empty()
    } else if tokens.len() == 1 {
        tokens[0]
    } else {
        join_tokens(tokens.drop_last()) + seq![' '] + tokens.last()
    }
}

/// The tokens of a list of extensions, in order.
pub open spec fn tokens_of(extensions: Seq<Capability>) -> Seq<Seq<char>> {
    Seq::new(extensions.len(), |i: int| extensions[i].token())
}

/// The wire forms of a sequence of commands, in order.
pub open spec fn lines_of(cmds: Seq<Command>) -> Seq<Seq<char>> {
    Seq::new(cmds.len(), |i: int| cmds[i].wire())
}

/// The message with which a session ends where the caller gives none.
pub open spec fn default_quit_message() -> Seq<char> {
    "Powered by Rust."@
}

/// A payload inside its envelope: one delimiter before it and one after it.
pub open spec fn ctcp_text(payload: Seq<char>) -> Seq<char> {
    seq!['\u{1}'] + payload + seq!['\u{1}']
}

/// The lines of a message sent to `target` under `verb`: one line for each
/// segment between line breaks, in order.
pub open spec fn message_lines(verb: Seq<char>, target: Seq<char>, message: Seq<char>) -> Seq<
    Seq<char>,
> {
    Seq::new(split_lines(message).len(), |k: int| verb + word(target) + trailing(split_lines(message)[k]))
}

/// `Some` of a copy of `s`, or `None` where `s` is empty.
pub fn optional(s: &str) -> (r: Option<String>)
    ensures
        opt_view(r) == nonempty(s@),
{
    if s.is_empty() {
        None
    } else {
        Some(s.to_owned())
    }
}

/// Asks the server which extensions it offers. Revision 3.2 names itself in
/// the request; revision 3.1 does not.
pub fn cap_ls(version: NegotiationVersion) -> (r: Command)
    ensures
        r matches Command::CAP(t, s, a, p) && t is None && s == CapSubCommand::LS && p is None
            && opt_view(a) == (match version {
            NegotiationVersion::V301 => None,
            NegotiationVersion::V302 => Some("302"@),
        }),
        r.wire() == "CAP"@ + word("LS"@) + (match version {
            NegotiationVersion::V301 => Seq::empty(),
            NegotiationVersion::V302 => word("302"@),
        }),
{
    let arg = match version {
        NegotiationVersion::V301 => None,
        NegotiationVersion::V302 => Some("302".to_owned()),
    };
    let r = Command::CAP(None, CapSubCommand::LS, arg, None);
    assert(r.wire() =~= "CAP"@ + word("LS"@) + (match version {
        NegotiationVersion::V301 => Seq::empty(),
        NegotiationVersion::V302 => word("302"@),
    }));
    r
}

/// The tokens of `extensions`, joined by single spaces.
pub fn cap_payload(extensions: &[Capability]) -> (r: String)
    ensures
        r@ == join_tokens(tokens_of(extensions@)),
{
    let ghost tokens = tokens_of(extensions@);
    let mut out = String::new();
    let mut i: usize = 0;
    while i < extensions.len()
        invariant
            i <= extensions.len(),
            tokens == tokens_of(extensions@),
            out@ == join_tokens(tokens.take(i as int)),
        decreases extensions.len() - i,
    {
        let ghost before = out@;
        if i > 0 {
            out.push(' ');
        }
        out.append(extensions[i].as_str());
        proof {
            let now = tokens.take(i + 1);
            assert(now.drop_last() =~= tokens.take(i as int));
            assert(now.last() == extensions@[i as int].token());
            if i > 0 {
                assert(out@ =~= before + seq![' '] + now.last());
            } else {
                assert(out@ =~= now[0]);
            }
        }
        i += 1;
    }
    assert(tokens.take(i as int) =~= tokens);
    out
}

/// Asks for the listed extensions, in the order given. For an empty list
/// there is nothing to ask and no command is built.
pub fn cap_req(extensions: &[Capability]) -> (r: Option<Command>)
    ensures
        r is None <==> extensions@.len() == 0,
        r matches Some(c) ==> {
            &&& c matches Command::CAP(t, s, a, p) && t is None && s == CapSubCommand::REQ && a is None
                && opt_view(p) == Some(join_tokens(tokens_of(extensions@)))
            &&& c.wire() == "CAP"@ + word("REQ"@) + trailing(join_tokens(tokens_of(extensions@)))
        },
{
    if extensions.len() == 0 {
        None
    } else {
        let c = Command::CAP(None, CapSubCommand::REQ, None, Some(cap_payload(extensions)));
        assert(c.wire() =~= "CAP"@ + word("REQ"@) + trailing(join_tokens(tokens_of(extensions@))));
        Some(c)
    }
}

/// Ends the negotiation of extensions.
pub fn cap_end() -> (r: Command)
    ensures
        r matches Command::CAP(t, s, a, p) && t is None && s == CapSubCommand::END && a is None
            && p is None,
        r.wire() == "CAP"@ + word("END"@),
{
    let r = Command::CAP(None, CapSubCommand::END, None, None);
    assert(r.wire() =~= "CAP"@ + word("END"@));
    r
}

/// Carries `data` in the authentication exchange.
pub fn authenticate(data: &str) -> (r: Command)
    ensures
        r matches Command::AUTHENTICATE(d) && d@ == data@,
        r.wire() == "AUTHENTICATE"@ + word(data@),
{
    Command::AUTHENTICATE(data.to_owned())
}

/// Answers a ping with `msg`.
pub fn pong(msg: &str) -> (r: Command)
    ensures
        r matches Command::PONG(s, t) && s@ == msg@ && t is None,
        r.wire() == "PONG"@ + trailing(msg@),
{
    Command::PONG(msg.to_owned(), None)
}

/// Joins the channels of `chanlist`, which is passed through as given.
pub fn join(chanlist: &str) -> (r: Command)
    ensures
        r matches Command::JOIN(c, k, n) && c@ == chanlist@ && k is None && n is None,
        r.wire() == "JOIN"@ + word(chanlist@),
{
    let r = Command::JOIN(chanlist.to_owned(), None, None);
    assert(r.wire() =~= "JOIN"@ + word(chanlist@));
    r
}

/// Joins the channels of `chanlist` with the keys of `keylist`; both are
/// passed through as given.
pub fn join_with_keys(chanlist: &str, keylist: &str) -> (r: Command)
    ensures
        r matches Command::JOIN(c, k, n) && c@ == chanlist@ && opt_view(k) == Some(keylist@)
            && n is None,
        r.wire() == "JOIN"@ + word(chanlist@) + word(keylist@),
{
    let r = Command::JOIN(chanlist.to_owned(), Some(keylist.to_owned()), None);
    assert(r.wire() =~= "JOIN"@ + word(chanlist@) + word(keylist@));
    r
}

/// Leaves the channels of `chanlist`, which is passed through as given.
pub fn part(chanlist: &str) -> (r: Command)
    ensures
        r matches Command::PART(c, m) && c@ == chanlist@ && m is None,
        r.wire() == "PART"@ + word(chanlist@),
{
    let r = Command::PART(chanlist.to_owned(), None);
    assert(r.wire() =~= "PART"@ + word(chanlist@));
    r
}

/// Asks for operator rights.
pub fn oper(username: &str, password: &str) -> (r: Command)
    ensures
        r matches Command::OPER(u, p) && u@ == username@ && p@ == password@,
        r.wire() == "OPER"@ + word(username@) + trailing(password@),
{
    Command::OPER(username.to_owned(), password.to_owned())
}

/// The commands that carry `message` to `target` as ordinary messages: one
/// for each segment between line breaks, in order.
pub fn privmsg(target: &str, message: &str) -> (r: Vec<Command>)
    ensures
        r.len() == split_lines(message@).len(),
        forall|k: int|
            0 <= k < r.len() ==> (#[trigger] r@[k] matches Command::PRIVMSG(t, m) && t@ == target@
                && m@ == split_lines(message@)[k]),
        lines_of(r@) == message_lines("PRIVMSG"@, target@, message@),
{
    let segments = split_on_breaks(message);
    let mut r: Vec<Command> = Vec::new();
    let mut i: usize = 0;
    while i < segments.len()
        invariant
            i <= segments.len(),
            r.len() == i,
            segments.len() == split_lines(message@).len(),
            forall|k: int|
                0 <= k < segments.len() ==> (#[trigger] segments@[k])@ == split_lines(message@)[k],
            forall|k: int|
                0 <= k < i ==> (#[trigger] r@[k] matches Command::PRIVMSG(t, m) && t@ == target@
                    && m@ == split_lines(message@)[k]),
        decreases segments.len() - i,
    {
        r.push(Command::PRIVMSG(target.to_owned(), segments[i].clone()));
        i += 1;
    }
    assert(lines_of(r@) =~= message_lines("PRIVMSG"@, target@, message@));
    r
}

/// The commands that carry `message` to `target` as notices: one for each
/// segment between line breaks, in order.
pub fn notice(target: &str, message: &str) -> (r: Vec<Command>)
    ensures
        r.len() == split_lines(message@).len(),
        forall|k: int|
            0 <= k < r.len() ==> (#[trigger] r@[k] matches Command::NOTICE(t, m) && t@ == target@
                && m@ == split_lines(message@)[k]),
        lines_of(r@) == message_lines("NOTICE"@, target@, message@),
{
    let segments = split_on_breaks(message);
    let mut r: Vec<Command> = Vec::new();
    let mut i: usize = 0;
    while i < segments.len()
        invariant
            i <= segments.len(),
            r.len() == i,
            segments.len() == split_lines(message@).len(),
            forall|k: int|
                0 <= k < segments.len() ==> (#[trigger] segments@[k])@ == split_lines(message@)[k],
            forall|k: int|
                0 <= k < i ==> (#[trigger] r@[k] matches Command::NOTICE(t, m) && t@ == target@
                    && m@ == split_lines(message@)[k]),
        decreases segments.len() - i,
    {
        r.push(Command::NOTICE(target.to_owned(), segments[i].clone()));
        i += 1;
    }
    assert(lines_of(r@) =~= message_lines("NOTICE"@, target@, message@));
    r
}

/// Sets the topic of `channel` to `text`, or asks for the topic where `text`
/// is empty.
pub fn topic(channel: &str, text: &str) -> (r: Command)
    ensures
        r matches Command::TOPIC(c, t) && c@ == channel@ && opt_view(t) == nonempty(text@),
        r.wire() == "TOPIC"@ + word(channel@) + opt_trailing(nonempty(text@)),
{
    Command::TOPIC(channel.to_owned(), optional(text))
}

/// Removes `target` from the network, with a comment.
pub fn kill(target: &str, message: &str) -> (r: Command)
    ensures
        r matches Command::KILL(n, c) && n@ == target@ && c@ == message@,
        r.wire() == "KILL"@ + word(target@) + trailing(message@),
{
    Command::KILL(target.to_owned(), message.to_owned())
}

/// Removes the listed nicknames from the listed channels; the comment is
/// left out where `message` is empty.
pub fn kick(chanlist: &str, nicklist: &str, message: &str) -> (r: Command)
    ensures
        r matches Command::KICK(c, n, m) && c@ == chanlist@ && n@ == nicklist@ && opt_view(m)
            == nonempty(message@),
        r.wire() == "KICK"@ + word(chanlist@) + word(nicklist@) + opt_trailing(nonempty(message@)),
{
    Command::KICK(chanlist.to_owned(), nicklist.to_owned(), optional(message))
}

/// Applies `modes` to `target`, in the command of their kind.
pub fn mode<T: ModeType>(target: &str, modes: &[Mode<T>]) -> (r: Command)
    ensures
        r is ChannelMODE || r is UserMODE,
        r.wire() == mode_line(target@, entries_of(modes@)),
{
    T::mode(target, modes)
}

/// Changes the modes of `target` by force; the parameters are left out where
/// `modeparams` is empty.
pub fn samode(target: &str, change: &str, modeparams: &str) -> (r: Command)
    ensures
        r matches Command::SAMODE(t, m, p) && t@ == target@ && m@ == change@ && opt_view(p)
            == nonempty(modeparams@),
        r.wire() == "SAMODE"@ + word(target@) + word(change@) + opt_word(nonempty(modeparams@)),
{
    Command::SAMODE(target.to_owned(), change.to_owned(), optional(modeparams))
}

/// Renames a user by force.
pub fn sanick(old_nick: &str, new_nick: &str) -> (r: Command)
    ensures
        r matches Command::SANICK(o, n) && o@ == old_nick@ && n@ == new_nick@,
        r.wire() == "SANICK"@ + word(old_nick@) + word(new_nick@),
{
    Command::SANICK(old_nick.to_owned(), new_nick.to_owned())
}

/// Invites `nick` to `chan`.
pub fn invite(nick: &str, chan: &str) -> (r: Command)
    ensures
        r matches Command::INVITE(n, c) && n@ == nick@ && c@ == chan@,
        r.wire() == "INVITE"@ + word(nick@) + word(chan@),
{
    Command::INVITE(nick.to_owned(), chan.to_owned())
}

/// Ends the session. An empty `msg` is replaced by the default farewell, so
/// the command always carries a message.
pub fn quit(msg: &str) -> (r: Command)
    ensures
        r matches Command::QUIT(m) && opt_view(m) == Some(
            if msg@.len() == 0 {
                default_quit_message()
            } else {
                msg@
            },
        ),
        r.wire() == "QUIT"@ + trailing(
            if msg@.len() == 0 {
                default_quit_message()
            } else {
                msg@
            },
        ),
{
    let text = if msg.is_empty() {
        "Powered by Rust.".to_owned()
    } else {
        msg.to_owned()
    };
    Command::QUIT(Some(text))
}

/// `payload` inside its envelope.
pub fn ctcp_envelope(payload: &str) -> (r: String)
    ensures
        r@ == ctcp_text(payload@),
{
    let mut out = String::new();
    out.push('\u{1}');
    out.append(payload);
    out.push('\u{1}');
    assert(out@ =~= ctcp_text(payload@));
    out
}

/// The payload of an action: the keyword, a space, and the caller's text.
pub fn action_payload(msg: &str) -> (r: String)
    ensures
        r@ == "ACTION"@ + word(msg@),
{
    let mut out = "ACTION".to_owned();
    crate::text::push_word(&mut out, msg);
    out
}

/// The payload of a ping: the keyword, a space, and the time in seconds
/// since the Unix epoch, in decimal.
pub fn ping_payload(epoch_seconds: i64) -> (r: String)
    ensures
        r@ == "PING"@ + word(decimal(epoch_seconds as int)),
{
    let mut out = "PING".to_owned();
    let digits = decimal_text(epoch_seconds);
    crate::text::push_word(&mut out, digits.as_str());
    out
}

/// The commands that carry `payload`, inside its envelope, to `target` as
/// an ordinary message.
pub fn ctcp(target: &str, payload: &str) -> (r: Vec<Command>)
    ensures
        lines_of(r@) == message_lines("PRIVMSG"@, target@, ctcp_text(payload@)),
{
    let text = ctcp_envelope(payload);
    privmsg(target, text.as_str())
}

/// The commands with which identifying opens: the end of the negotiation,
/// and the password where one is configured.
pub open spec fn identify_opening(config: Config) -> Seq<Seq<char>> {
    if config.spec_password().len() == 0 {
        seq!["CAP"@ + word("END"@)]
    } else {
        seq!["CAP"@ + word("END"@), "PASS"@ + trailing(config.spec_password())]
    }
}

/// The commands that register the session under `nickname`.
pub open spec fn identify_registration(config: Config, nickname: Seq<char>) -> Seq<Seq<char>> {
    seq![
        "NICK"@ + trailing(nickname),
        "USER"@ + word(config.spec_username()) + word("0"@) + word(seq!['*']) + trailing(
            config.spec_real_name(),
        ),
    ]
}

/// The commands of identifying, in order: the opening, and then the
/// registration where a nickname is configured. Without a nickname only the
/// opening is left.
pub open spec fn identify_lines(config: Config) -> Seq<Seq<char>> {
    match config.nickname {
        Some(n) => identify_opening(config) + identify_registration(config, n@),
        None => identify_opening(config),
    }
}

/// Sends the password `password`.
pub fn pass(password: &str) -> (r: Command)
    ensures
        r matches Command::PASS(p) && p@ == password@,
        r.wire() == "PASS"@ + trailing(password@),
{
    Command::PASS(password.to_owned())
}

/// Takes the nickname `nickname`.
pub fn nick(nickname: &str) -> (r: Command)
    ensures
        r matches Command::NICK(n) && n@ == nickname@,
        r.wire() == "NICK"@ + trailing(nickname@),
{
    Command::NICK(nickname.to_owned())
}

/// Registers the user. The field between the two names is a placeholder
/// that is always `0`.
pub fn user(username: &str, real_name: &str) -> (r: Command)
    ensures
        r matches Command::USER(u, m, n) && u@ == username@ && m@ == "0"@ && n@ == real_name@,
        r.wire() == "USER"@ + word(username@) + word("0"@) + word(seq!['*']) + trailing(real_name@),
{
    Command::USER(username.to_owned(), "0".to_owned(), real_name.to_owned())
}

/// The commands of identifying with `config`, in order. Where no nickname
/// is configured they stop before the nickname command.
pub fn identify(config: &Config) -> (r: Vec<Command>)
    ensures
        lines_of(r@) == identify_lines(*config),
{
    let mut r: Vec<Command> = Vec::new();
    r.push(cap_end());
    if !config.password().is_empty() {
        r.push(pass(config.password()));
    }
    assert(lines_of(r@) =~= identify_opening(*config));
    match config.nickname() {
        Ok(n) => {
            let ghost opening = r@;
            r.push(nick(n));
            r.push(user(config.username(), config.real_name()));
            assert(lines_of(r@) =~= lines_of(opening) + identify_registration(*config, n@));
        },
        Err(_) => {},
    }
    r
}

} // verus!
