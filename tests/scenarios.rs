use zircond::action::IrcAction;
use zircond::config::{ServerConfig, ServerConfigServer};
use zircond::reader::actions_for_line;
use zircond::server::Server;

fn feed(server: &mut Server, id: usize, line: &str) -> Vec<(usize, String)> {
    let mut out = Vec::new();
    for action in actions_for_line(line).unwrap() {
        for o in server.handle(id, action) {
            out.push((o.client_id, o.line));
        }
    }
    out
}

fn connect(server: &mut Server, id: usize) {
    assert!(server.handle(id, IrcAction::UserConnect).is_empty());
}

fn no_autojoin() -> Server {
    Server::new(ServerConfig { server: ServerConfigServer::default(), client: None })
}

fn register(server: &mut Server, id: usize, nick: &str) -> Vec<(usize, String)> {
    connect(server, id);
    let mut out = feed(server, id, &format!("NICK {}\r\n", nick));
    out.extend(feed(server, id, &format!("USER {} 0 * :{} A\r\n", nick, nick)));
    out
}

fn lines(out: &[(usize, String)], to: usize) -> Vec<String> {
    out.iter().filter(|(id, _)| *id == to).map(|(_, l)| l.clone()).collect()
}

#[test]
fn registration_sends_welcome_then_autojoin() {
    let mut server = Server::new(ServerConfig::default());
    connect(&mut server, 0);
    assert!(feed(&mut server, 0, "NICK alice\r\n").is_empty());
    let out = feed(&mut server, 0, "USER alice 0 * :Alice A\r\n");
    let expected = vec![
        ":127.0.0.1 001 alice :Welcome, alice!",
        ":127.0.0.1 002 alice :Your host is 127.0.0.1, running zircond.",
        ":127.0.0.1 375 alice :127.0.0.1 Message of the day",
        ":127.0.0.1 372 alice :- zircond v0.1.0",
        ":127.0.0.1 372 alice :- zircond is open source.",
        ":127.0.0.1 376 alice :End of MOTD.",
        ":alice JOIN #chat",
        ":127.0.0.1 353 alice = #chat :alice",
        ":127.0.0.1 366 alice #chat :End of /NAMES list.",
    ];
    assert_eq!(lines(&out, 0), expected);
    assert_eq!(out.len(), expected.len());
}

#[test]
fn registration_in_user_then_nick_order() {
    let mut server = Server::new(ServerConfig::default());
    connect(&mut server, 0);
    assert!(feed(&mut server, 0, "USER alice 0 * :Alice A\r\n").is_empty());
    let out = feed(&mut server, 0, "NICK alice\r\n");
    assert_eq!(out[0].1, ":127.0.0.1 001 alice :Welcome, alice!");
    assert_eq!(out.len(), 9);
}

#[test]
fn join_empty_channel() {
    let mut server = no_autojoin();
    register(&mut server, 0, "alice");
    let out = feed(&mut server, 0, "JOIN #chat\r\n");
    assert_eq!(
        lines(&out, 0),
        vec![
            ":alice JOIN #chat",
            ":127.0.0.1 353 alice = #chat :alice",
            ":127.0.0.1 366 alice #chat :End of /NAMES list.",
        ]
    );
    assert_eq!(out.len(), 3);
}

#[test]
fn second_join_broadcasts() {
    let mut server = no_autojoin();
    register(&mut server, 0, "alice");
    feed(&mut server, 0, "JOIN #chat\r\n");
    register(&mut server, 1, "bob");
    let out = feed(&mut server, 1, "JOIN #chat\r\n");
    assert_eq!(lines(&out, 0), vec![":bob JOIN #chat"]);
    assert_eq!(
        lines(&out, 1),
        vec![
            ":bob JOIN #chat",
            ":127.0.0.1 353 bob = #chat :alice",
            ":127.0.0.1 353 bob = #chat :bob",
            ":127.0.0.1 366 bob #chat :End of /NAMES list.",
        ]
    );
}

#[test]
fn privmsg_to_channel_skips_sender() {
    let mut server = no_autojoin();
    register(&mut server, 0, "alice");
    register(&mut server, 1, "bob");
    feed(&mut server, 0, "JOIN #chat\r\n");
    feed(&mut server, 1, "JOIN #chat\r\n");
    let out = feed(&mut server, 0, "PRIVMSG #chat :hello\r\n");
    assert_eq!(out, vec![(1, ":alice PRIVMSG #chat :hello".to_string())]);
}

#[test]
fn privmsg_to_nickname() {
    let mut server = no_autojoin();
    register(&mut server, 0, "alice");
    register(&mut server, 1, "bob");
    let out = feed(&mut server, 0, "PRIVMSG bob :hi there\r\n");
    assert_eq!(out, vec![(1, ":alice PRIVMSG bob :hi there".to_string())]);
    assert!(feed(&mut server, 0, "PRIVMSG carol :hi\r\n").is_empty());
    assert!(feed(&mut server, 0, "PRIVMSG #nowhere :hi\r\n").is_empty());
}

#[test]
fn nickname_collision() {
    let mut server = Server::new(ServerConfig::default());
    register(&mut server, 0, "alice");
    connect(&mut server, 1);
    let out = feed(&mut server, 1, "NICK alice\r\n");
    assert_eq!(
        out,
        vec![(1, ":127.0.0.1 433 <unidentified> alice :Nickname is already in use.".to_string())]
    );
    assert_eq!(server.users.find(1).unwrap().nickname(), "<unidentified>");
    assert_eq!(server.users.find(0).unwrap().nickname(), "alice");
}

#[test]
fn nick_again_by_holder_is_no_collision() {
    let mut server = no_autojoin();
    register(&mut server, 0, "alice");
    assert!(feed(&mut server, 0, "NICK alice\r\n").is_empty());
}

#[test]
fn part_unknown_channel() {
    let mut server = no_autojoin();
    register(&mut server, 0, "alice");
    let out = feed(&mut server, 0, "PART #nope\r\n");
    assert_eq!(out, vec![(0, ":127.0.0.1 403 alice #nope :No such channel.".to_string())]);
}

#[test]
fn ping_gets_pong() {
    let mut server = no_autojoin();
    register(&mut server, 0, "alice");
    let out = feed(&mut server, 0, "PING xyz\r\n");
    assert_eq!(out, vec![(0, ":127.0.0.1 PONG 127.0.0.1 :xyz".to_string())]);
}

#[test]
fn actions_of_unknown_client_are_ignored() {
    let mut server = no_autojoin();
    assert!(feed(&mut server, 7, "PING xyz\r\n").is_empty());
    assert!(feed(&mut server, 7, "JOIN #chat\r\n").is_empty());
    assert!(server.channels.find("#chat").is_none());
}

#[test]
fn part_with_reason_relays_to_members() {
    let mut server = no_autojoin();
    register(&mut server, 0, "alice");
    register(&mut server, 1, "bob");
    feed(&mut server, 0, "JOIN #chat\r\n");
    feed(&mut server, 1, "JOIN #chat\r\n");
    let out = feed(&mut server, 1, "PART #chat :bye now\r\n");
    assert_eq!(
        out,
        vec![
            (1, ":bob PART #chat :bye now".to_string()),
            (0, ":bob PART #chat :bye now".to_string()),
        ]
    );
}

#[test]
fn part_without_reason_uses_nickname() {
    let mut server = no_autojoin();
    register(&mut server, 0, "alice");
    feed(&mut server, 0, "JOIN #chat\r\n");
    let out = feed(&mut server, 0, "PART #chat\r\n");
    assert_eq!(out, vec![(0, ":alice PART #chat :alice".to_string())]);
}

#[test]
fn join_several_channels_at_once() {
    let mut server = no_autojoin();
    register(&mut server, 0, "alice");
    let out = feed(&mut server, 0, "JOIN #a,#b\r\n");
    assert_eq!(out.len(), 6);
    assert_eq!(out[0].1, ":alice JOIN #a");
    assert_eq!(out[3].1, ":alice JOIN #b");
    assert!(server.channels.find("#a").unwrap().contains(0));
    assert!(server.channels.find("#b").unwrap().contains(0));
}

#[test]
fn autojoin_skips_channels_already_joined() {
    let mut server = Server::new(ServerConfig::default());
    connect(&mut server, 0);
    feed(&mut server, 0, "USER alice 0 * :Alice A\r\n");
    feed(&mut server, 0, "JOIN #chat\r\n");
    let out = feed(&mut server, 0, "NICK alice\r\n");
    assert_eq!(out.len(), 6);
    assert_eq!(server.channels.find("#chat").unwrap().users().len(), 1);
}
