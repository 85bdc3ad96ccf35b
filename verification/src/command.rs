//! The commands that this library builds, and their one wire form.

use vstd::prelude::*;
use crate::mode::{entries_of, mode_text, push_modes, ChannelMode, Mode, UserMode};
use crate::text::{
    opt_trailing, opt_view, opt_word, push_opt_trailing, push_opt_word, push_trailing, push_word,
    trailing, word,
};

verus! {

/// The revision of capability negotiation that a client asks for.
#[derive(Clone, Copy, Debug, PartialEq, Eq)]
pub enum NegotiationVersion {
    V301,
    V302,
}

/// An optional extension of the protocol that a client may ask for.
#[derive(Clone, Copy, Debug, PartialEq, Eq)]
pub enum Capability {
    MultiPrefix,
    Sasl,
    AccountNotify,
    AwayNotify,
    ExtendedJoin,
    Metadata,
    MetadataNotify,
    Monitor,
    AccountTag,
    Batch,
    CapNotify,
    ChgHost,
    EchoMessage,
    InviteNotify,
    ServerTime,
    UserhostInNames,
    /// An extension that this library gives no name to, by its token.
    Custom(&'static str),
}

impl Capability {
    /// The token by which the extension is named on the wire.
    pub open spec fn token(self) -> Seq<char> {
        match self {
            Capability::MultiPrefix => "multi-prefix"@,
            Capability::Sasl => "sasl"@,
            Capability::AccountNotify => "account-notify"@,
            Capability::AwayNotify => "away-notify"@,
            Capability::ExtendedJoin => "extended-join"@,
            Capability::Metadata => "metadata"@,
            Capability::MetadataNotify => "metadata-notify"@,
            Capability::Monitor => "monitor"@,
            Capability::AccountTag => "account-tag"@,
            Capability::Batch => "batch"@,
            Capability::CapNotify => "cap-notify"@,
            Capability::ChgHost => "chghost"@,
            Capability::EchoMessage => "echo-message"@,
            Capability::InviteNotify => "invite-notify"@,
            Capability::ServerTime => "server-time"@,
            Capability::UserhostInNames => "userhost-in-names"@,
            Capability::Custom(s) => s@,
        }
    }

    /// The token by which the extension is named on the wire.
    pub fn as_str(&self) -> (r: &'static str)
        ensures
            r@ == self.token(),
    {
        match *self {
            Capability::MultiPrefix => "multi-prefix",
            Capability::Sasl => "sasl",
            Capability::AccountNotify => "account-notify",
            Capability::AwayNotify => "away-notify",
            Capability::ExtendedJoin => "extended-join",
            Capability::Metadata => "metadata",
            Capability::MetadataNotify => "metadata-notify",
            Capability::Monitor => "monitor",
            Capability::AccountTag => "account-tag",
            Capability::Batch => "batch",
            Capability::CapNotify => "cap-notify",
            Capability::ChgHost => "chghost",
            Capability::EchoMessage => "echo-message",
            Capability::InviteNotify => "invite-notify",
            Capability::ServerTime => "server-time",
            Capability::UserhostInNames => "userhost-in-names",
            Capability::Custom(s) => s,
        }
    }
}

/// The step of capability negotiation that a `CAP` command takes.
#[derive(Clone, Copy, Debug, PartialEq, Eq)]
pub enum CapSubCommand {
    LS,
    REQ,
    END,
}

impl CapSubCommand {
    /// The word by which the step is named on the wire.
    pub open spec fn token(self) -> Seq<char> {
        match self {
            CapSubCommand::LS => "LS"@,
            CapSubCommand::REQ => "REQ"@,
            CapSubCommand::END => "END"@,
        }
    }

    /// The word by which the step is named on the wire.
    pub fn as_str(&self) -> (r: &'static str)
        ensures
            r@ == self.token(),
    {
        match *self {
            CapSubCommand::LS => "LS",
            CapSubCommand::REQ => "REQ",
            CapSubCommand::END => "END",
        }
    }
}

/// A command of the protocol. Each variant has a fixed, ordered layout of
/// parameters; an optional one is either present or wholly absent.
#[derive(Clone, Debug, PartialEq, Eq)]
pub enum Command {
    /// `CAP [target] <step> [argument] [:parameter]`
    CAP(Option<String>, CapSubCommand, Option<String>, Option<String>),
    /// `PASS :<password>`
    PASS(String),
    /// `NICK :<nickname>`
    NICK(String),
    /// `USER <username> <mode> * :<real name>`
    USER(String, String, String),
    /// `AUTHENTICATE <payload>`
    AUTHENTICATE(String),
    /// `PONG :<server>` or `PONG <server> :<second server>`
    PONG(String, Option<String>),
    /// `JOIN <channels> [keys] [:real name]`
    JOIN(String, Option<String>, Option<String>),
    /// `PART <channels> [:comment]`
    PART(String, Option<String>),
    /// `OPER <username> :<password>`
    OPER(String, String),
    /// `PRIVMSG <target> :<text>`
    PRIVMSG(String, String),
    /// `NOTICE <target> :<text>`
    NOTICE(String, String),
    /// `TOPIC <channel> [:topic]`
    TOPIC(String, Option<String>),
    /// `KILL <target> :<comment>`
    KILL(String, String),
    /// `KICK <channels> <nicknames> [:comment]`
    KICK(String, String, Option<String>),
    /// `MODE <channel> <changes>`
    ChannelMODE(String, Vec<Mode<ChannelMode>>),
    /// `MODE <nickname> <changes>`
    UserMODE(String, Vec<Mode<UserMode>>),
    /// `SAMODE <target> <modes> [parameters]`
    SAMODE(String, String, Option<String>),
    /// `SANICK <old nickname> <new nickname>`
    SANICK(String, String),
    /// `INVITE <nickname> <channel>`
    INVITE(String, String),
    /// `QUIT [:message]`
    QUIT(Option<String>),
}

impl Command {
    /// The command as it stands on the wire, without the line ending that the
    /// transport adds.
    pub open spec fn wire(self) -> Seq<char> {
        match self {
            Command::CAP(t, s, a, p) => "CAP"@ + opt_word(opt_view(t)) + word(s.token()) + opt_word(
                opt_view(a),
            ) + opt_trailing(opt_view(p)),
            Command::PASS(p) => "PASS"@ + trailing(p@),
            Command::NICK(n) => "NICK"@ + trailing(n@),
            Command::USER(u, m, r) => "USER"@ + word(u@) + word(m@) + word(seq!['*']) + trailing(r@),
            Command::AUTHENTICATE(d) => "AUTHENTICATE"@ + word(d@),
            Command::PONG(s, None) => "PONG"@ + trailing(s@),
            Command::PONG(s, Some(t)) => "PONG"@ + word(s@) + trailing(t@),
            Command::JOIN(c, k, r) => "JOIN"@ + word(c@) + opt_word(opt_view(k)) + opt_trailing(
                opt_view(r),
            ),
            Command::PART(c, m) => "PART"@ + word(c@) + opt_trailing(opt_view(m)),
            Command::OPER(u, p) => "OPER"@ + word(u@) + trailing(p@),
            Command::PRIVMSG(t, m) => "PRIVMSG"@ + word(t@) + trailing(m@),
            Command::NOTICE(t, m) => "NOTICE"@ + word(t@) + trailing(m@),
            Command::TOPIC(c, t) => "TOPIC"@ + word(c@) + opt_trailing(opt_view(t)),
            Command::KILL(n, c) => "KILL"@ + word(n@) + trailing(c@),
            Command::KICK(c, n, r) => "KICK"@ + word(c@) + word(n@) + opt_trailing(opt_view(r)),
            Command::ChannelMODE(t, m) => "MODE"@ + word(t@) + mode_text(entries_of(m@), None),
            Command::UserMODE(t, m) => "MODE"@ + word(t@) + mode_text(entries_of(m@), None),
            Command::SAMODE(t, m, p) => "SAMODE"@ + word(t@) + word(m@) + opt_word(opt_view(p)),
            Command::SANICK(o, n) => "SANICK"@ + word(o@) + word(n@),
            Command::INVITE(n, c) => "INVITE"@ + word(n@) + word(c@),
            Command::QUIT(m) => "QUIT"@ + opt_trailing(opt_view(m)),
        }
    }

    /// Writes the command as it stands on the wire, without the line ending.
    pub fn to_wire(&self) -> (r: String)
        ensures
            r@ == self.wire(),
    {
        match self {
            Command::CAP(t, s, a, p) => {
                let mut out = "CAP".to_owned();
                push_opt_word(&mut out, t);
                push_word(&mut out, s.as_str());
                push_opt_word(&mut out, a);
                push_opt_trailing(&mut out, p);
                out
            },
            Command::PASS(p) => {
                let mut out = "PASS".to_owned();
                push_trailing(&mut out, p.as_str());
                out
            },
            Command::NICK(n) => {
                let mut out = "NICK".to_owned();
                push_trailing(&mut out, n.as_str());
                out
            },
            Command::USER(u, m, r) => {
                let mut out = "USER".to_owned();
                push_word(&mut out, u.as_str());
                push_word(&mut out, m.as_str());
                proof {
                    reveal_strlit("*");
                    assert("*"@ =~= seq!['*']);
                }
                push_word(&mut out, "*");
                push_trailing(&mut out, r.as_str());
                out
            },
            Command::AUTHENTICATE(d) => {
                let mut out = "AUTHENTICATE".to_owned();
                push_word(&mut out, d.as_str());
                out
            },
            Command::PONG(s, None) => {
                let mut out = "PONG".to_owned();
                push_trailing(&mut out, s.as_str());
                out
            },
            Command::PONG(s, Some(t)) => {
                let mut out = "PONG".to_owned();
                push_word(&mut out, s.as_str());
                push_trailing(&mut out, t.as_str());
                out
            },
            Command::JOIN(c, k, r) => {
                let mut out = "JOIN".to_owned();
                push_word(&mut out, c.as_str());
                push_opt_word(&mut out, k);
                push_opt_trailing(&mut out, r);
                out
            },
            Command::PART(c, m) => {
                let mut out = "PART".to_owned();
                push_word(&mut out, c.as_str());
                push_opt_trailing(&mut out, m);
                out
            },
            Command::OPER(u, p) => {
                let mut out = "OPER".to_owned();
                push_word(&mut out, u.as_str());
                push_trailing(&mut out, p.as_str());
                out
            },
            Command::PRIVMSG(t, m) => {
                let mut out = "PRIVMSG".to_owned();
                push_word(&mut out, t.as_str());
                push_trailing(&mut out, m.as_str());
                out
            },
            Command::NOTICE(t, m) => {
                let mut out = "NOTICE".to_owned();
                push_word(&mut out, t.as_str());
                push_trailing(&mut out, m.as_str());
                out
            },
            Command::TOPIC(c, t) => {
                let mut out = "TOPIC".to_owned();
                push_word(&mut out, c.as_str());
                push_opt_trailing(&mut out, t);
                out
            },
            Command::KILL(n, c) => {
                let mut out = "KILL".to_owned();
                push_word(&mut out, n.as_str());
                push_trailing(&mut out, c.as_str());
                out
            },
            Command::KICK(c, n, r) => {
                let mut out = "KICK".to_owned();
                push_word(&mut out, c.as_str());
                push_word(&mut out, n.as_str());
                push_opt_trailing(&mut out, r);
                out
            },
            Command::ChannelMODE(t, m) => {
                let mut out = "MODE".to_owned();
                push_word(&mut out, t.as_str());
                push_modes(&mut out, m.as_slice());
                out
            },
            Command::UserMODE(t, m) => {
                let mut out = "MODE".to_owned();
                push_word(&mut out, t.as_str());
                push_modes(&mut out, m.as_slice());
                out
            },
            Command::SAMODE(t, m, p) => {
                let mut out = "SAMODE".to_owned();
                push_word(&mut out, t.as_str());
                push_word(&mut out, m.as_str());
                push_opt_word(&mut out, p);
                out
            },
            Command::SANICK(o, n) => {
                let mut out = "SANICK".to_owned();
                push_word(&mut out, o.as_str());
                push_word(&mut out, n.as_str());
                out
            },
            Command::INVITE(n, c) => {
                let mut out = "INVITE".to_owned();
                push_word(&mut out, n.as_str());
                push_word(&mut out, c.as_str());
                out
            },
            Command::QUIT(m) => {
                let mut out = "QUIT".to_owned();
                push_opt_trailing(&mut out, m);
                out
            },
        }
    }
}

} // verus!
