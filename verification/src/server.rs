//! The transport through which commands leave, and the operations that a
//! caller performs on it.
//!
//! Every operation builds its commands first and then hands them over one by
//! one, in order. It stops at the first command that the transport refuses:
//! the commands before it have left, those after it are never handed over,
//! and the error says how many had left.

use vstd::prelude::*;
use crate::builder;
use crate::builder::{ctcp_text, identify_lines, join_tokens, lines_of, message_lines, nonempty, tokens_of};
use crate::clock::Clock;
use crate::command::{Capability, Command, NegotiationVersion};
use crate::config::Config;
use crate::mode::{entries_of, mode_line, Mode, ModeType};
use crate::text::{decimal, opt_trailing, opt_word, trailing, word};

verus! {

/// Why a transport did not take a command.
#[derive(Clone, Copy, Debug, PartialEq, Eq)]
pub enum TransportError {
    /// The connection is closed.
    Closed,
    /// The transport has no room for another command.
    Full,
}

/// Why an operation did not run to its end.
#[derive(Clone, Copy, Debug, PartialEq, Eq)]
pub enum Error {
    /// The session has no nickname to identify with.
    ConfigMissing,
    /// The transport refused a command. The first `delivered` commands of
    /// the operation had been taken before it; none after it was handed
    /// over.
    Transport { delivered: usize, cause: TransportError },
}

/// A connection that takes commands one at a time, in order.
pub trait Server {
    /// The wire forms of the commands taken so far, oldest first.
    spec fn sent(&self) -> Seq<Seq<char>>;

    /// The refusals so far, oldest first.
    spec fn refused(&self) -> Seq<TransportError>;

    /// Hands one command over. A command that is taken stands after all
    /// those taken before it. One that is refused is not among the commands
    /// taken, and its refusal stands after all refusals before it.
    fn send(&mut self, cmd: &Command) -> (r: Result<(), TransportError>)
        ensures
            r is Ok ==> final(self).sent() == old(self).sent().push(cmd.wire()),
            r is Ok ==> final(self).refused() == old(self).refused(),
            r is Err ==> final(self).sent() == old(self).sent(),
            r matches Err(e) ==> final(self).refused() == old(self).refused().push(e),
    ;
}

/// How an operation that was to send `lines` may end, from the transport
/// before it to the transport after it. On success all of them were taken,
/// in order, and nothing was refused. Otherwise exactly the first
/// `delivered` were taken, `delivered` is less than their number, and the
/// one refusal that the transport added is the error's cause, unchanged.
pub open spec fn outcome<S: Server>(
    before: S,
    lines: Seq<Seq<char>>,
    r: Result<(), Error>,
    after: S,
) -> bool {
    match r {
        Ok(()) => after.sent() == before.sent() + lines && after.refused() == before.refused(),
        Err(Error::Transport { delivered, cause }) => {
            &&& delivered < lines.len()
            &&& after.sent() == before.sent() + lines.take(delivered as int)
            &&& after.refused() == before.refused().push(cause)
        },
        Err(Error::ConfigMissing) => false,
    }
}

/// How identifying with `config` may end. It succeeds only with a nickname,
/// and then all its commands were taken. Without a nickname it ends in
/// `ConfigMissing` once the commands before the nickname were taken. A
/// refusal of the transport comes first in either case, and ends it as it
/// ends any operation.
pub open spec fn identify_outcome<S: Server>(
    before: S,
    config: Config,
    r: Result<(), Error>,
    after: S,
) -> bool {
    match r {
        Ok(()) => config.nickname is Some && outcome(before, identify_lines(config), r, after),
        Err(Error::ConfigMissing) => {
            &&& config.nickname is None
            &&& after.sent() == before.sent() + identify_lines(config)
            &&& after.refused() == before.refused()
        },
        Err(Error::Transport { delivered, cause }) => outcome(
            before,
            identify_lines(config),
            r,
            after,
        ),
    }
}

/// Hands `cmds` to `server` in order and stops at the first refusal.
pub fn send_all<S: Server>(server: &mut S, cmds: &Vec<Command>) -> (r: Result<(), Error>)
    ensures
        outcome(*old(server), lines_of(cmds@), r, *final(server)),
{
    let ghost lines = lines_of(cmds@);
    let mut i: usize = 0;
    assert(server.sent() =~= old(server).sent() + lines.take(0));
    while i < cmds.len()
        invariant
            i <= cmds.len(),
            lines == lines_of(cmds@),
            server.sent() == old(server).sent() + lines.take(i as int),
            server.refused() == old(server).refused(),
        decreases cmds.len() - i,
    {
        match server.send(&cmds[i]) {
            Ok(()) => {
                assert(server.sent() =~= old(server).sent() + lines.take(i + 1));
            },
            Err(e) => {
                return Err(Error::Transport { delivered: i, cause: e });
            },
        }
        i += 1;
    }
    assert(lines.take(i as int) =~= lines);
    Ok(())
}

/// Hands the one command `cmd` to `server`.
pub fn send_one<S: Server>(server: &mut S, cmd: Command) -> (r: Result<(), Error>)
    ensures
        outcome(*old(server), seq![cmd.wire()], r, *final(server)),
{
    match server.send(&cmd) {
        Ok(()) => {
            assert(server.sent() =~= old(server).sent() + seq![cmd.wire()]);
            Ok(())
        },
        Err(e) => {
            assert(server.sent() =~= old(server).sent() + seq![cmd.wire()].take(0));
            Err(Error::Transport { delivered: 0, cause: e })
        },
    }
}

/// The operations of a client, on any transport.
pub trait ServerExt: Server + Sized {
    /// Asks the server which extensions it offers, under the given revision of
    /// the negotiation.
    fn send_cap_ls(&mut self, version: NegotiationVersion) -> (r: Result<(), Error>)
        ensures
            outcome(
                *old(self),
                seq![
                    "CAP"@ + word("LS"@) + (match version {
                        NegotiationVersion::V301 => Seq::empty(),
                        NegotiationVersion::V302 => word("302"@),
                    }),
                ],
                r,
                *final(self),
            ),
    {
        send_one(self, builder::cap_ls(version))
    }

    /// Asks for the listed extensions in one command, in the order given. For
    /// an empty list nothing is sent.
    fn send_cap_req(&mut self, extensions: &[Capability]) -> (r: Result<(), Error>)
        ensures
            outcome(
                *old(self),
                if extensions@.len() == 0 {
                    Seq::empty()
                } else {
                    seq!["CAP"@ + word("REQ"@) + trailing(join_tokens(tokens_of(extensions@)))]
                },
                r,
                *final(self),
            ),
    {
        match builder::cap_req(extensions) {
            Some(cmd) => send_one(self, cmd),
            None => {
                assert(self.sent() =~= old(self).sent() + Seq::<Seq<char>>::empty());
                Ok(())
            },
        }
    }

    /// Ends the negotiation of extensions and registers the session: the end
    /// of the negotiation, the password where `config` has one, the nickname,
    /// and the user registration, in this order. Without a nickname the
    /// operation fails with `ConfigMissing` once the commands before the
    /// nickname have left. Extensions are to be asked for before this call.
    fn identify(&mut self, config: &Config) -> (r: Result<(), Error>)
        ensures
            identify_outcome(*old(self), *config, r, *final(self)),
    {
        let cmds = builder::identify(config);
        match send_all(self, &cmds) {
            Ok(()) => {
                if config.nickname.is_none() {
                    Err(Error::ConfigMissing)
                } else {
                    Ok(())
                }
            },
            Err(e) => Err(e),
        }
    }

    /// Sends `data` in the authentication exchange.
    fn send_sasl(&mut self, data: &str) -> (r: Result<(), Error>)
        ensures
            outcome(
                *old(self),
                seq![
                    "AUTHENTICATE"@ + word(data@),
                ],
                r,
                *final(self),
            ),
    {
        send_one(self, builder::authenticate(data))
    }

    /// Asks to authenticate by the PLAIN mechanism.
    fn send_sasl_plain(&mut self) -> (r: Result<(), Error>)
        ensures
            outcome(
                *old(self),
                seq!["AUTHENTICATE"@ + word("PLAIN"@)],
                r,
                *final(self),
            ),
    {
        self.send_sasl("PLAIN")
    }

    /// Asks to authenticate by the EXTERNAL mechanism.
    fn send_sasl_external(&mut self) -> (r: Result<(), Error>)
        ensures
            outcome(
                *old(self),
                seq!["AUTHENTICATE"@ + word("EXTERNAL"@)],
                r,
                *final(self),
            ),
    {
        self.send_sasl("EXTERNAL")
    }

    /// Gives the authentication up.
    fn send_sasl_abort(&mut self) -> (r: Result<(), Error>)
        ensures
            outcome(
                *old(self),
                seq!["AUTHENTICATE"@ + word("*"@)],
                r,
                *final(self),
            ),
    {
        self.send_sasl("*")
    }

    /// Answers a ping with `msg`.
    fn send_pong(&mut self, msg: &str) -> (r: Result<(), Error>)
        ensures
            outcome(
                *old(self),
                seq![
                    "PONG"@ + trailing(msg@),
                ],
                r,
                *final(self),
            ),
    {
        send_one(self, builder::pong(msg))
    }

    /// Joins the channels of `chanlist`.
    fn send_join(&mut self, chanlist: &str) -> (r: Result<(), Error>)
        ensures
            outcome(
                *old(self),
                seq![
                    "JOIN"@ + word(chanlist@),
                ],
                r,
                *final(self),
            ),
    {
        send_one(self, builder::join(chanlist))
    }

    /// Joins the channels of `chanlist` with the keys of `keylist`.
    fn send_join_with_keys(&mut self, chanlist: &str, keylist: &str) -> (r: Result<(), Error>)
        ensures
            outcome(
                *old(self),
                seq![
                    "JOIN"@ + word(chanlist@) + word(keylist@),
                ],
                r,
                *final(self),
            ),
    {
        send_one(self, builder::join_with_keys(chanlist, keylist))
    }

    /// Leaves the channels of `chanlist`.
    fn send_part(&mut self, chanlist: &str) -> (r: Result<(), Error>)
        ensures
            outcome(
                *old(self),
                seq![
                    "PART"@ + word(chanlist@),
                ],
                r,
                *final(self),
            ),
    {
        send_one(self, builder::part(chanlist))
    }

    /// Asks for operator rights.
    fn send_oper(&mut self, username: &str, password: &str) -> (r: Result<(), Error>)
        ensures
            outcome(
                *old(self),
                seq![
                    "OPER"@ + word(username@) + trailing(password@),
                ],
                r,
                *final(self),
            ),
    {
        send_one(self, builder::oper(username, password))
    }

    /// Sends `message` to `target` as an ordinary message: one command for each
    /// segment between line breaks, in order.
    fn send_privmsg(&mut self, target: &str, message: &str) -> (r: Result<(), Error>)
        ensures
            outcome(
                *old(self),
                message_lines("PRIVMSG"@, target@, message@),
                r,
                *final(self),
            ),
    {
        let cmds = builder::privmsg(target, message);
        send_all(self, &cmds)
    }

    /// Sends `message` to `target` as a notice: one command for each
    /// segment between line breaks, in order.
    fn send_notice(&mut self, target: &str, message: &str) -> (r: Result<(), Error>)
        ensures
            outcome(
                *old(self),
                message_lines("NOTICE"@, target@, message@),
                r,
                *final(self),
            ),
    {
        let cmds = builder::notice(target, message);
        send_all(self, &cmds)
    }

    /// Sets the topic of `channel`, or asks for it where `topic` is empty: an
    /// empty topic is left out of the command, not sent as an empty one.
    fn send_topic(&mut self, channel: &str, topic: &str) -> (r: Result<(), Error>)
        ensures
            outcome(
                *old(self),
                seq![
                    "TOPIC"@ + word(channel@) + opt_trailing(nonempty(topic@)),
                ],
                r,
                *final(self),
            ),
    {
        send_one(self, builder::topic(channel, topic))
    }

    /// Removes `target` from the network, with a comment.
    fn send_kill(&mut self, target: &str, message: &str) -> (r: Result<(), Error>)
        ensures
            outcome(
                *old(self),
                seq![
                    "KILL"@ + word(target@) + trailing(message@),
                ],
                r,
                *final(self),
            ),
    {
        send_one(self, builder::kill(target, message))
    }

    /// Removes the listed nicknames from the listed channels. An empty
    /// `message` is left out of the command.
    fn send_kick(&mut self, chanlist: &str, nicklist: &str, message: &str) -> (r: Result<(), Error>)
        ensures
            outcome(
                *old(self),
                seq![
                    "KICK"@ + word(chanlist@) + word(nicklist@) + opt_trailing(nonempty(message@)),
                ],
                r,
                *final(self),
            ),
    {
        send_one(self, builder::kick(chanlist, nicklist, message))
    }

    /// Applies `modes` to `target`.
    fn send_mode<T: ModeType>(&mut self, target: &str, modes: &[Mode<T>]) -> (r: Result<(), Error>)
        ensures
            outcome(
                *old(self),
                seq![mode_line(target@, entries_of(modes@))],
                r,
                *final(self),
            ),
    {
        send_one(self, builder::mode(target, modes))
    }

    /// Changes the modes of `target` by force. Empty `modeparams` are left out
    /// of the command.
    fn send_samode(&mut self, target: &str, mode: &str, modeparams: &str) -> (r: Result<(), Error>)
        ensures
            outcome(
                *old(self),
                seq![
                    "SAMODE"@ + word(target@) + word(mode@) + opt_word(nonempty(modeparams@)),
                ],
                r,
                *final(self),
            ),
    {
        send_one(self, builder::samode(target, mode, modeparams))
    }

    /// Renames a user by force.
    fn send_sanick(&mut self, old_nick: &str, new_nick: &str) -> (r: Result<(), Error>)
        ensures
            outcome(
                *old(self),
                seq![
                    "SANICK"@ + word(old_nick@) + word(new_nick@),
                ],
                r,
                *final(self),
            ),
    {
        send_one(self, builder::sanick(old_nick, new_nick))
    }

    /// Invites `nick` to `chan`.
    fn send_invite(&mut self, nick: &str, chan: &str) -> (r: Result<(), Error>)
        ensures
            outcome(
                *old(self),
                seq![
                    "INVITE"@ + word(nick@) + word(chan@),
                ],
                r,
                *final(self),
            ),
    {
        send_one(self, builder::invite(nick, chan))
    }

    /// Ends the session. An empty `msg` is replaced by the default farewell.
    fn send_quit(&mut self, msg: &str) -> (r: Result<(), Error>)
        ensures
            outcome(
                *old(self),
                seq![
                    "QUIT"@ + trailing(
                    if msg@.len() == 0 {
                        builder::default_quit_message()
                    } else {
                        msg@
                    },
                ),
                ],
                r,
                *final(self),
            ),
    {
        send_one(self, builder::quit(msg))
    }

    /// Sends `msg` to `target` inside one envelope, as an ordinary message.
    fn send_ctcp(&mut self, target: &str, msg: &str) -> (r: Result<(), Error>)
        ensures
            outcome(
                *old(self),
                message_lines("PRIVMSG"@, target@, ctcp_text(msg@)),
                r,
                *final(self),
            ),
    {
        let cmds = builder::ctcp(target, msg);
        send_all(self, &cmds)
    }

    /// Sends an action with the text `msg` to `target`.
    fn send_action(&mut self, target: &str, msg: &str) -> (r: Result<(), Error>)
        ensures
            outcome(
                *old(self),
                message_lines("PRIVMSG"@, target@, ctcp_text("ACTION"@ + word(msg@))),
                r,
                *final(self),
            ),
    {
        let payload = builder::action_payload(msg);
        self.send_ctcp(target, payload.as_str())
    }

    /// Sends a finger request to `target`.
    fn send_finger(&mut self, target: &str) -> (r: Result<(), Error>)
        ensures
            outcome(
                *old(self),
                message_lines("PRIVMSG"@, target@, ctcp_text("FINGER"@)),
                r,
                *final(self),
            ),
    {
        self.send_ctcp(target, "FINGER")
    }

    /// Sends a version request to `target`.
    fn send_version(&mut self, target: &str) -> (r: Result<(), Error>)
        ensures
            outcome(
                *old(self),
                message_lines("PRIVMSG"@, target@, ctcp_text("VERSION"@)),
                r,
                *final(self),
            ),
    {
        self.send_ctcp(target, "VERSION")
    }

    /// Sends a source request to `target`.
    fn send_source(&mut self, target: &str) -> (r: Result<(), Error>)
        ensures
            outcome(
                *old(self),
                message_lines("PRIVMSG"@, target@, ctcp_text("SOURCE"@)),
                r,
                *final(self),
            ),
    {
        self.send_ctcp(target, "SOURCE")
    }

    /// Sends a user info request to `target`.
    fn send_user_info(&mut self, target: &str) -> (r: Result<(), Error>)
        ensures
            outcome(
                *old(self),
                message_lines("PRIVMSG"@, target@, ctcp_text("USERINFO"@)),
                r,
                *final(self),
            ),
    {
        self.send_ctcp(target, "USERINFO")
    }

    /// Sends a ping that carries the time `epoch_seconds` to `target`.
    fn send_ctcp_ping_at(&mut self, target: &str, epoch_seconds: i64) -> (r: Result<(), Error>)
        ensures
            outcome(
                *old(self),
                message_lines(
                    "PRIVMSG"@,
                    target@,
                    ctcp_text("PING"@ + word(decimal(epoch_seconds as int))),
                ),
                r,
                *final(self),
            ),
    {
        let payload = builder::ping_payload(epoch_seconds);
        self.send_ctcp(target, payload.as_str())
    }

    /// Sends a ping that carries the time that `clock` shows to `target`.
    fn send_ctcp_ping<C: Clock>(&mut self, target: &str, clock: &C) -> (r: Result<(), Error>)
        ensures
            exists|t: i64|
                outcome(
                    *old(self),
                    #[trigger] message_lines(
                        "PRIVMSG"@,
                        target@,
                        ctcp_text("PING"@ + word(decimal(t as int))),
                    ),
                    r,
                    *final(self),
                ),
    {
        let now = clock.epoch_seconds();
        self.send_ctcp_ping_at(target, now)
    }

    /// Sends a time request to `target`.
    fn send_time(&mut self, target: &str) -> (r: Result<(), Error>)
        ensures
            outcome(
                *old(self),
                message_lines("PRIVMSG"@, target@, ctcp_text("TIME"@)),
                r,
                *final(self),
            ),
    {
        self.send_ctcp(target, "TIME")
    }
}

impl<S: Server> ServerExt for S {

}

} // verus!
