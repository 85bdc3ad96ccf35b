use irc_commands::builder;
use irc_commands::clock::{Clock, FixedClock};
use irc_commands::command::{CapSubCommand, Capability, Command, NegotiationVersion};
use irc_commands::config::{Config, ConfigError};
use irc_commands::mode::{ChannelMode, Mode, ModeLetter, UserMode};
use irc_commands::link::{LineSink, Link};
use irc_commands::outbox::Outbox;
use irc_commands::server::{send_all, send_one, Error, Server, ServerExt, TransportError};
use irc_commands::text::{decimal_text, split_on_breaks};

fn wires(cmds: &[Command]) -> Vec<String> {
    cmds.iter().map(|c| c.to_wire()).collect()
}

#[test]
fn cap_ls_names_only_the_later_revision() {
    let mut server = Outbox::new();
    server.send_cap_ls(NegotiationVersion::V301).unwrap();
    server.send_cap_ls(NegotiationVersion::V302).unwrap();
    assert_eq!(server.transcript(), "CAP LS\r\nCAP LS 302\r\n");
}

#[test]
fn cap_req_joins_tokens_with_single_spaces() {
    let mut server = Outbox::new();
    server.send_cap_req(&[Capability::MultiPrefix, Capability::UserhostInNames]).unwrap();
    assert_eq!(server.transcript(), "CAP REQ :multi-prefix userhost-in-names\r\n");
}

#[test]
fn cap_req_keeps_the_order_given() {
    let cmd = builder::cap_req(&[
        Capability::Sasl,
        Capability::Custom("example.org/thing"),
        Capability::AccountNotify,
        Capability::ServerTime,
    ])
    .unwrap();
    assert_eq!(cmd.to_wire(), "CAP REQ :sasl example.org/thing account-notify server-time");
}

#[test]
fn cap_req_of_one_has_no_space() {
    assert_eq!(builder::cap_payload(&[Capability::Batch]), "batch");
    assert_eq!(builder::cap_req(&[Capability::Batch]).unwrap().to_wire(), "CAP REQ :batch");
}

#[test]
fn cap_req_of_none_builds_nothing() {
    assert!(builder::cap_req(&[]).is_none());
    let mut server = Outbox::new();
    assert_eq!(server.send_cap_req(&[]), Ok(()));
    assert_eq!(server.transcript(), "");
    assert!(server.lines.is_empty());
}

#[test]
fn every_capability_has_its_token() {
    let all = [
        (Capability::MultiPrefix, "multi-prefix"),
        (Capability::Sasl, "sasl"),
        (Capability::AccountNotify, "account-notify"),
        (Capability::AwayNotify, "away-notify"),
        (Capability::ExtendedJoin, "extended-join"),
        (Capability::Metadata, "metadata"),
        (Capability::MetadataNotify, "metadata-notify"),
        (Capability::Monitor, "monitor"),
        (Capability::AccountTag, "account-tag"),
        (Capability::Batch, "batch"),
        (Capability::CapNotify, "cap-notify"),
        (Capability::ChgHost, "chghost"),
        (Capability::EchoMessage, "echo-message"),
        (Capability::InviteNotify, "invite-notify"),
        (Capability::ServerTime, "server-time"),
        (Capability::UserhostInNames, "userhost-in-names"),
        (Capability::Custom("x"), "x"),
    ];
    for (cap, token) in all.iter() {
        assert_eq!(cap.as_str(), *token);
    }
}

#[test]
fn identify_with_empty_password_sends_no_password() {
    let mut server = Outbox::new();
    let config = Config {
        nickname: Some("test".to_owned()),
        username: None,
        realname: None,
        password: Some(String::new()),
    };
    server.identify(&config).unwrap();
    assert_eq!(server.transcript(), "CAP END\r\nNICK :test\r\nUSER test 0 * :test\r\n");
}

#[test]
fn identify_uses_configured_names() {
    let mut server = Outbox::new();
    let config = Config {
        nickname: Some("nick".to_owned()),
        username: Some("login".to_owned()),
        realname: Some("Real Name".to_owned()),
        password: Some("secret".to_owned()),
    };
    server.identify(&config).unwrap();
    assert_eq!(
        server.lines,
        vec!["CAP END", "PASS :secret", "NICK :nick", "USER login 0 * :Real Name"]
    );
}

#[test]
fn identify_without_nickname_fails_after_the_opening() {
    let mut server = Outbox::new();
    let config = Config {
        nickname: None,
        username: None,
        realname: None,
        password: Some("secret".to_owned()),
    };
    assert_eq!(server.identify(&config), Err(Error::ConfigMissing));
    assert_eq!(server.transcript(), "CAP END\r\nPASS :secret\r\n");

    let mut bare = Outbox::new();
    assert_eq!(bare.identify(&Config::new()), Err(Error::ConfigMissing));
    assert_eq!(bare.transcript(), "CAP END\r\n");
}

#[test]
fn identify_stops_at_the_first_refusal() {
    let mut server = Outbox::with_room(2);
    let config = Config {
        nickname: Some("test".to_owned()),
        username: None,
        realname: None,
        password: Some("password".to_owned()),
    };
    assert_eq!(
        server.identify(&config),
        Err(Error::Transport { delivered: 2, cause: TransportError::Full })
    );
    assert_eq!(server.transcript(), "CAP END\r\nPASS :password\r\n");
}

#[test]
fn transport_error_comes_before_missing_nickname() {
    let mut server = Outbox::with_room(0);
    assert_eq!(
        server.identify(&Config::new()),
        Err(Error::Transport { delivered: 0, cause: TransportError::Full })
    );
    assert_eq!(server.transcript(), "");
}

#[test]
fn config_accessors_fall_back() {
    let empty = Config::new();
    assert_eq!(empty.nickname(), Err(ConfigError::NicknameNotSpecified));
    assert_eq!(empty.password(), "");
    assert_eq!(empty.username(), "user");
    assert_eq!(empty.real_name(), "irc");
    let named = Config {
        nickname: Some("n".to_owned()),
        username: None,
        realname: Some("r".to_owned()),
        password: Some("p".to_owned()),
    };
    assert_eq!(named.nickname(), Ok("n"));
    assert_eq!(named.password(), "p");
    assert_eq!(named.username(), "n");
    assert_eq!(named.real_name(), "r");
}

#[test]
fn sasl_shortcuts() {
    let mut server = Outbox::new();
    server.send_sasl("dGVzdA==").unwrap();
    server.send_sasl_plain().unwrap();
    server.send_sasl_external().unwrap();
    server.send_sasl_abort().unwrap();
    assert_eq!(
        server.transcript(),
        "AUTHENTICATE dGVzdA==\r\nAUTHENTICATE PLAIN\r\nAUTHENTICATE EXTERNAL\r\nAUTHENTICATE *\r\n"
    );
}

#[test]
fn join_with_keys_lists_both() {
    let mut server = Outbox::new();
    server.send_join_with_keys("#a,#b", "k1,k2").unwrap();
    assert_eq!(server.transcript(), "JOIN #a,#b k1,k2\r\n");
}

#[test]
fn quit_defaults_its_message() {
    let mut server = Outbox::new();
    server.send_quit("").unwrap();
    server.send_quit("Bye.").unwrap();
    assert_eq!(server.transcript(), "QUIT :Powered by Rust.\r\nQUIT :Bye.\r\n");
}

#[test]
fn split_cuts_only_at_the_two_character_break() {
    assert_eq!(split_on_breaks(""), vec![""]);
    assert_eq!(split_on_breaks("one"), vec!["one"]);
    assert_eq!(split_on_breaks("a\r\nb\r\nc"), vec!["a", "b", "c"]);
    assert_eq!(split_on_breaks("\r\n"), vec!["", ""]);
    assert_eq!(split_on_breaks("a\r\n"), vec!["a", ""]);
    assert_eq!(split_on_breaks("\r\nb"), vec!["", "b"]);
    assert_eq!(split_on_breaks("a\nb\rc"), vec!["a\nb\rc"]);
    assert_eq!(split_on_breaks("a\n\rb"), vec!["a\n\rb"]);
    assert_eq!(split_on_breaks("a\r\r\nb"), vec!["a\r", "b"]);
    assert_eq!(split_on_breaks("a\r\n\nb\r"), vec!["a", "\nb\r"]);
    assert_eq!(split_on_breaks("a\r\n\r\nb"), vec!["a", "", "b"]);
    assert_eq!(split_on_breaks("h\u{e9}\r\n\u{4e16}\u{754c}"), vec!["h\u{e9}", "\u{4e16}\u{754c}"]);
}

#[test]
fn split_agrees_with_the_standard_split() {
    let samples = ["", "x", "\r", "\n", "\r\n", "\r\n\r\n", "a\r\nb", "\r\r\n\n", "a\rb\nc\r\nd\r"];
    for s in samples.iter() {
        let expected: Vec<String> = s.split("\r\n").map(|p| p.to_owned()).collect();
        assert_eq!(split_on_breaks(s), expected);
    }
}

#[test]
fn privmsg_sends_one_command_per_line() {
    let mut server = Outbox::new();
    server.send_privmsg("#test", "one\r\ntwo\r\nthree").unwrap();
    assert_eq!(
        server.transcript(),
        "PRIVMSG #test :one\r\nPRIVMSG #test :two\r\nPRIVMSG #test :three\r\n"
    );
    assert_eq!(server.lines.len(), 3);
}

#[test]
fn notice_sends_one_command_per_line() {
    let mut server = Outbox::new();
    server.send_notice("nick", "one\r\n\r\nthree").unwrap();
    assert_eq!(server.lines, vec!["NOTICE nick :one", "NOTICE nick :", "NOTICE nick :three"]);
}

#[test]
fn multiline_send_stops_at_the_first_refusal() {
    let mut server = Outbox::with_room(1);
    assert_eq!(
        server.send_privmsg("#test", "one\r\ntwo\r\nthree"),
        Err(Error::Transport { delivered: 1, cause: TransportError::Full })
    );
    assert_eq!(server.transcript(), "PRIVMSG #test :one\r\n");
    assert_eq!(server.refusals, vec![TransportError::Full]);
    assert_eq!(server.room, Some(0));
    assert_eq!(
        server.send_pong("x"),
        Err(Error::Transport { delivered: 0, cause: TransportError::Full })
    );
    assert_eq!(server.transcript(), "PRIVMSG #test :one\r\n");
}

#[test]
fn send_all_and_send_one_keep_order() {
    let mut server = Outbox::with_room(3);
    let cmds = vec![builder::pong("a"), builder::join("#b")];
    assert_eq!(send_all(&mut server, &cmds), Ok(()));
    assert_eq!(send_one(&mut server, builder::part("#b")), Ok(()));
    assert_eq!(server.room, Some(0));
    assert_eq!(server.send(&builder::pong("late")), Err(TransportError::Full));
    assert_eq!(server.transcript(), "PONG :a\r\nJOIN #b\r\nPART #b\r\n");
}

#[test]
fn mode_entries_without_parameters_share_a_run() {
    let modes = [
        Mode::Plus(ChannelMode::InviteOnly, None),
        Mode::Plus(ChannelMode::Moderated, None),
        Mode::Minus(ChannelMode::Secret, None),
        Mode::Minus(ChannelMode::ProtectedTopic, None),
        Mode::Plus(ChannelMode::NoExternalMessages, None),
    ];
    assert_eq!(builder::mode("#test", &modes).to_wire(), "MODE #test +im-st+n");
}

#[test]
fn mode_entries_with_parameters_stand_alone() {
    let modes = [
        Mode::Plus(ChannelMode::Oper, Some("alice".to_owned())),
        Mode::Minus(ChannelMode::Voice, Some("bob".to_owned())),
    ];
    assert_eq!(builder::mode("#test", &modes).to_wire(), "MODE #test +o alice -v bob");
}

#[test]
fn mode_entries_mixed() {
    let modes = [
        Mode::Plus(ChannelMode::InviteOnly, None),
        Mode::Plus(ChannelMode::Key, Some("secret".to_owned())),
        Mode::Plus(ChannelMode::Moderated, None),
        Mode::Plus(ChannelMode::Unknown('z'), None),
        Mode::Minus(ChannelMode::Ban, Some("*!*@*".to_owned())),
    ];
    assert_eq!(
        builder::mode("#test", &modes).to_wire(),
        "MODE #test +i +k secret +mz -b *!*@*"
    );
}

#[test]
fn mode_of_a_user() {
    let mut server = Outbox::new();
    server
        .send_mode("nick", &[Mode::Plus(UserMode::Invisible, None), Mode::Minus(UserMode::Wallops, None)])
        .unwrap();
    let none: [Mode<UserMode>; 0] = [];
    server.send_mode("nick", &none).unwrap();
    assert_eq!(server.transcript(), "MODE nick +i-w\r\nMODE nick\r\n");
    assert!(matches!(builder::mode("nick", &none), Command::UserMODE(_, _)));
    let no_channel: [Mode<ChannelMode>; 0] = [];
    assert!(matches!(builder::mode("#c", &no_channel), Command::ChannelMODE(_, _)));
}

#[test]
fn mode_letters() {
    let channel = [
        (ChannelMode::Ban, 'b'),
        (ChannelMode::Exception, 'e'),
        (ChannelMode::Limit, 'l'),
        (ChannelMode::InviteOnly, 'i'),
        (ChannelMode::InviteException, 'I'),
        (ChannelMode::Key, 'k'),
        (ChannelMode::Moderated, 'm'),
        (ChannelMode::RegisteredOnly, 'r'),
        (ChannelMode::Secret, 's'),
        (ChannelMode::ProtectedTopic, 't'),
        (ChannelMode::NoExternalMessages, 'n'),
        (ChannelMode::Founder, 'q'),
        (ChannelMode::Admin, 'a'),
        (ChannelMode::Oper, 'o'),
        (ChannelMode::Halfop, 'h'),
        (ChannelMode::Voice, 'v'),
        (ChannelMode::Unknown('?'), '?'),
    ];
    for (m, c) in channel.iter() {
        assert_eq!(m.flag(), *c);
    }
    let user = [
        (UserMode::Away, 'a'),
        (UserMode::Invisible, 'i'),
        (UserMode::Wallops, 'w'),
        (UserMode::Restricted, 'r'),
        (UserMode::Oper, 'o'),
        (UserMode::LocalOper, 'O'),
        (UserMode::ServerNotices, 's'),
        (UserMode::MaskedHost, 'x'),
        (UserMode::Unknown('!'), '!'),
    ];
    for (m, c) in user.iter() {
        assert_eq!(m.flag(), *c);
    }
}

#[test]
fn ctcp_wraps_once_whatever_the_payload() {
    assert_eq!(builder::ctcp_envelope(""), "\u{1}\u{1}");
    assert_eq!(builder::ctcp_envelope("\u{1}inner\u{1}"), "\u{1}\u{1}inner\u{1}\u{1}");
    let mut server = Outbox::new();
    server.send_ctcp("test", "A\u{1}B").unwrap();
    assert_eq!(server.transcript(), "PRIVMSG test :\u{1}A\u{1}B\u{1}\r\n");
}

#[test]
fn ctcp_with_a_line_break_is_cut_like_any_message() {
    assert_eq!(
        wires(&builder::ctcp("test", "A\r\nB")),
        vec!["PRIVMSG test :\u{1}A", "PRIVMSG test :B\u{1}"]
    );
}

#[test]
fn ctcp_ping_carries_the_given_time() {
    let mut server = Outbox::new();
    server.send_ctcp_ping_at("test", 1431648000).unwrap();
    server.send_ctcp_ping("test", &FixedClock { epoch_seconds: 42 }).unwrap();
    assert_eq!(
        server.transcript(),
        "PRIVMSG test :\u{1}PING 1431648000\u{1}\r\nPRIVMSG test :\u{1}PING 42\u{1}\r\n"
    );
    assert_eq!(FixedClock { epoch_seconds: -7 }.epoch_seconds(), -7);
}

#[test]
fn decimal_text_of_edge_values() {
    assert_eq!(decimal_text(0), "0");
    assert_eq!(decimal_text(7), "7");
    assert_eq!(decimal_text(10), "10");
    assert_eq!(decimal_text(-1), "-1");
    assert_eq!(decimal_text(1234567890), "1234567890");
    assert_eq!(decimal_text(-9050), "-9050");
    assert_eq!(decimal_text(i64::MAX), "9223372036854775807");
    assert_eq!(decimal_text(i64::MIN), "-9223372036854775808");
    assert_eq!(builder::ping_payload(-5), "PING -5");
    assert_eq!(builder::action_payload("waves"), "ACTION waves");
}

#[test]
fn wire_of_every_layout() {
    let s = |t: &str| t.to_owned();
    let o = |t: &str| Some(t.to_owned());
    assert_eq!(Command::CAP(o("*"), CapSubCommand::LS, o("302"), o("a b")).to_wire(), "CAP * LS 302 :a b");
    assert_eq!(Command::CAP(None, CapSubCommand::END, None, None).to_wire(), "CAP END");
    assert_eq!(Command::PASS(s("p w")).to_wire(), "PASS :p w");
    assert_eq!(Command::NICK(s("n")).to_wire(), "NICK :n");
    assert_eq!(Command::USER(s("u"), s("0"), s("r n")).to_wire(), "USER u 0 * :r n");
    assert_eq!(Command::AUTHENTICATE(s("+")).to_wire(), "AUTHENTICATE +");
    assert_eq!(Command::PONG(s("a"), None).to_wire(), "PONG :a");
    assert_eq!(Command::PONG(s("a"), o("b")).to_wire(), "PONG a :b");
    assert_eq!(Command::JOIN(s("#a"), o("k"), o("real")).to_wire(), "JOIN #a k :real");
    assert_eq!(Command::PART(s("#a"), o("bye now")).to_wire(), "PART #a :bye now");
    assert_eq!(Command::OPER(s("u"), s("p")).to_wire(), "OPER u :p");
    assert_eq!(Command::PRIVMSG(s("t"), s("")).to_wire(), "PRIVMSG t :");
    assert_eq!(Command::NOTICE(s("t"), s("m")).to_wire(), "NOTICE t :m");
    assert_eq!(Command::TOPIC(s("#a"), None).to_wire(), "TOPIC #a");
    assert_eq!(Command::KILL(s("n"), s("c")).to_wire(), "KILL n :c");
    assert_eq!(Command::KICK(s("#a"), s("n"), o("c")).to_wire(), "KICK #a n :c");
    assert_eq!(Command::SAMODE(s("#a"), s("+o"), o("n")).to_wire(), "SAMODE #a +o n");
    assert_eq!(Command::SANICK(s("a"), s("b")).to_wire(), "SANICK a b");
    assert_eq!(Command::INVITE(s("n"), s("#a")).to_wire(), "INVITE n #a");
    assert_eq!(Command::QUIT(None).to_wire(), "QUIT");
    assert_eq!(CapSubCommand::REQ.as_str(), "REQ");
}

#[test]
fn builders_fill_the_fields() {
    assert!(matches!(builder::topic("#a", ""), Command::TOPIC(c, None) if c == "#a"));
    assert!(matches!(builder::topic("#a", "t"), Command::TOPIC(_, Some(t)) if t == "t"));
    assert!(matches!(builder::kick("#a", "n", ""), Command::KICK(_, _, None)));
    assert!(matches!(builder::samode("#a", "+i", ""), Command::SAMODE(_, m, None) if m == "+i"));
    assert!(matches!(builder::quit(""), Command::QUIT(Some(m)) if m == "Powered by Rust."));
    assert!(matches!(builder::user("u", "r"), Command::USER(_, m, _) if m == "0"));
    assert_eq!(builder::cap_end(), Command::CAP(None, CapSubCommand::END, None, None));
    assert_eq!(builder::pong("x"), Command::PONG("x".to_owned(), None));
    assert_eq!(builder::optional(""), None);
    assert_eq!(builder::optional("x"), Some("x".to_owned()));
    assert_eq!(builder::pass("p").to_wire(), "PASS :p");
    assert_eq!(builder::nick("n").to_wire(), "NICK :n");
    assert_eq!(wires(&builder::identify(&Config::new())), vec!["CAP END"]);
}

struct Lines {
    taken: Vec<String>,
    open: bool,
}

impl LineSink for Lines {
    fn write_line(&mut self, line: &str) -> Result<(), TransportError> {
        if self.open {
            self.taken.push(line.to_owned());
            Ok(())
        } else {
            Err(TransportError::Closed)
        }
    }
}

#[test]
fn link_writes_each_command_as_a_line() {
    let mut server = Link::new(Lines { taken: Vec::new(), open: true });
    server.send_join("#a").unwrap();
    server.send_privmsg("#a", "x\r\ny").unwrap();
    server.sink.open = false;
    assert_eq!(
        server.send_part("#a"),
        Err(Error::Transport { delivered: 0, cause: TransportError::Closed })
    );
    assert_eq!(server.into_sink().taken, vec!["JOIN #a", "PRIVMSG #a :x", "PRIVMSG #a :y"]);
}
