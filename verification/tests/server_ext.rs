use irc_commands::clock::LocalClock;
use irc_commands::config::Config;
use irc_commands::mode::{ChannelMode, Mode};
use irc_commands::outbox::Outbox;
use irc_commands::server::ServerExt;

fn test_config() -> Config {
    Config { nickname: Some(format!("test")), username: None, realname: None, password: None }
}

fn get_server_value(server: Outbox) -> String {
    server.transcript()
}

#[test]
fn identify() {
    let mut server = Outbox::new();
    server.identify(&test_config()).unwrap();
    assert_eq!(
        &get_server_value(server)[..],
        "CAP END\r\nNICK :test\r\n\
         USER test 0 * :test\r\n"
    );
}

#[test]
fn identify_with_password() {
    let mut server = Outbox::new();
    let config = Config {
        nickname: Some(format!("test")),
        password: Some(format!("password")),
        ..test_config()
    };
    server.identify(&config).unwrap();
    assert_eq!(
        &get_server_value(server)[..],
        "CAP END\r\nPASS :password\r\nNICK :test\r\n\
         USER test 0 * :test\r\n"
    );
}

#[test]
fn send_pong() {
    let mut server = Outbox::new();
    server.send_pong("irc.test.net").unwrap();
    assert_eq!(&get_server_value(server)[..], "PONG :irc.test.net\r\n");
}

#[test]
fn send_join() {
    let mut server = Outbox::new();
    server.send_join("#test,#test2,#test3").unwrap();
    assert_eq!(&get_server_value(server)[..], "JOIN #test,#test2,#test3\r\n");
}

#[test]
fn send_part() {
    let mut server = Outbox::new();
    server.send_part("#test").unwrap();
    assert_eq!(&get_server_value(server)[..], "PART #test\r\n");
}

#[test]
fn send_oper() {
    let mut server = Outbox::new();
    server.send_oper("test", "test").unwrap();
    assert_eq!(&get_server_value(server)[..], "OPER test :test\r\n");
}

#[test]
fn send_privmsg() {
    let mut server = Outbox::new();
    server.send_privmsg("#test", "Hi, everybody!").unwrap();
    assert_eq!(&get_server_value(server)[..], "PRIVMSG #test :Hi, everybody!\r\n");
}

#[test]
fn send_notice() {
    let mut server = Outbox::new();
    server.send_notice("#test", "Hi, everybody!").unwrap();
    assert_eq!(&get_server_value(server)[..], "NOTICE #test :Hi, everybody!\r\n");
}

#[test]
fn send_topic_no_topic() {
    let mut server = Outbox::new();
    server.send_topic("#test", "").unwrap();
    assert_eq!(&get_server_value(server)[..], "TOPIC #test\r\n");
}

#[test]
fn send_topic() {
    let mut server = Outbox::new();
    server.send_topic("#test", "Testing stuff.").unwrap();
    assert_eq!(&get_server_value(server)[..], "TOPIC #test :Testing stuff.\r\n");
}

#[test]
fn send_kill() {
    let mut server = Outbox::new();
    server.send_kill("test", "Testing kills.").unwrap();
    assert_eq!(&get_server_value(server)[..], "KILL test :Testing kills.\r\n");
}

#[test]
fn send_kick_no_message() {
    let mut server = Outbox::new();
    server.send_kick("#test", "test", "").unwrap();
    assert_eq!(&get_server_value(server)[..], "KICK #test test\r\n");
}

#[test]
fn send_kick() {
    let mut server = Outbox::new();
    server.send_kick("#test", "test", "Testing kicks.").unwrap();
    assert_eq!(&get_server_value(server)[..], "KICK #test test :Testing kicks.\r\n");
}

#[test]
fn send_mode_no_modeparams() {
    let mut server = Outbox::new();
    server.send_mode("#test", &[Mode::Plus(ChannelMode::InviteOnly, None)]).unwrap();
    assert_eq!(&get_server_value(server)[..], "MODE #test +i\r\n");
}

#[test]
fn send_mode() {
    let mut server = Outbox::new();
    server.send_mode("#test", &[Mode::Plus(ChannelMode::Oper, Some("test".to_owned()))]).unwrap();
    assert_eq!(&get_server_value(server)[..], "MODE #test +o test\r\n");
}

#[test]
fn send_samode_no_modeparams() {
    let mut server = Outbox::new();
    server.send_samode("#test", "+i", "").unwrap();
    assert_eq!(&get_server_value(server)[..], "SAMODE #test +i\r\n");
}

#[test]
fn send_samode() {
    let mut server = Outbox::new();
    server.send_samode("#test", "+o", "test").unwrap();
    assert_eq!(&get_server_value(server)[..], "SAMODE #test +o test\r\n");
}

#[test]
fn send_sanick() {
    let mut server = Outbox::new();
    server.send_sanick("test", "test2").unwrap();
    assert_eq!(&get_server_value(server)[..], "SANICK test test2\r\n");
}

#[test]
fn send_invite() {
    let mut server = Outbox::new();
    server.send_invite("test", "#test").unwrap();
    assert_eq!(&get_server_value(server)[..], "INVITE test #test\r\n");
}

#[test]
fn send_ctcp() {
    let mut server = Outbox::new();
    server.send_ctcp("test", "MESSAGE").unwrap();
    assert_eq!(&get_server_value(server)[..], "PRIVMSG test :\u{001}MESSAGE\u{001}\r\n");
}

#[test]
fn send_action() {
    let mut server = Outbox::new();
    server.send_action("test", "tests.").unwrap();
    assert_eq!(&get_server_value(server)[..], "PRIVMSG test :\u{001}ACTION tests.\u{001}\r\n");
}

#[test]
fn send_finger() {
    let mut server = Outbox::new();
    server.send_finger("test").unwrap();
    assert_eq!(&get_server_value(server)[..], "PRIVMSG test :\u{001}FINGER\u{001}\r\n");
}

#[test]
fn send_version() {
    let mut server = Outbox::new();
    server.send_version("test").unwrap();
    assert_eq!(&get_server_value(server)[..], "PRIVMSG test :\u{001}VERSION\u{001}\r\n");
}

#[test]
fn send_source() {
    let mut server = Outbox::new();
    server.send_source("test").unwrap();
    assert_eq!(&get_server_value(server)[..], "PRIVMSG test :\u{001}SOURCE\u{001}\r\n");
}

#[test]
fn send_user_info() {
    let mut server = Outbox::new();
    server.send_user_info("test").unwrap();
    assert_eq!(&get_server_value(server)[..], "PRIVMSG test :\u{001}USERINFO\u{001}\r\n");
}

#[test]
fn send_ctcp_ping() {
    let mut server = Outbox::new();
    server.send_ctcp_ping("test", &LocalClock).unwrap();
    let val = get_server_value(server);
    println!("{}", val);
    assert!(val.starts_with("PRIVMSG test :\u{001}PING "));
    assert!(val.ends_with("\u{001}\r\n"));
}

#[test]
fn send_time() {
    let mut server = Outbox::new();
    server.send_time("test").unwrap();
    assert_eq!(&get_server_value(server)[..], "PRIVMSG test :\u{001}TIME\u{001}\r\n");
}
