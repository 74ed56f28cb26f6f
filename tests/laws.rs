use zircond::action::IrcAction;
use zircond::config::{ServerConfig, ServerConfigServer};
use zircond::reader::actions_for_line;
use zircond::server::Server;

fn send_line(server: &mut Server, id: usize, line: &str) -> Vec<(usize, String)> {
    let mut out = Vec::new();
    for action in actions_for_line(line).unwrap() {
        for o in server.handle(id, action) {
            out.push((o.client_id, o.line));
        }
    }
    out
}

fn sign_on(server: &mut Server, id: usize, nick: &str) -> Vec<(usize, String)> {
    server.handle(id, IrcAction::UserConnect);
    let mut out = send_line(server, id, &format!("NICK {}\r\n", nick));
    out.extend(send_line(server, id, &format!("USER {} 0 * :{}\r\n", nick, nick)));
    out
}

fn plain_server() -> Server {
    Server::new(ServerConfig { server: ServerConfigServer::default(), client: None })
}

#[test]
fn join_twice_keeps_one_membership() {
    let mut server = plain_server();
    sign_on(&mut server, 0, "alice");
    send_line(&mut server, 0, "JOIN #x\r\n");
    send_line(&mut server, 0, "JOIN #x\r\n");
    let members: Vec<usize> =
        server.channels.find("#x").unwrap().users().iter().map(|u| u.client_id()).collect();
    assert_eq!(members, vec![0]);
}

#[test]
fn part_twice_then_not_on_channel() {
    let mut server = plain_server();
    sign_on(&mut server, 0, "alice");
    send_line(&mut server, 0, "JOIN #x\r\n");
    let first = send_line(&mut server, 0, "PART #x\r\n");
    assert_eq!(first, vec![(0, ":alice PART #x :alice".to_string())]);
    let second = send_line(&mut server, 0, "PART #x\r\n");
    assert_eq!(second, vec![(0, ":127.0.0.1 442 alice #x :You're not on that channel.".to_string())]);
}

#[test]
fn registered_nicknames_stay_distinct() {
    let mut server = plain_server();
    sign_on(&mut server, 0, "alice");
    sign_on(&mut server, 1, "alice");
    sign_on(&mut server, 2, "bob");
    send_line(&mut server, 2, "NICK alice\r\n");
    let mut nicks: Vec<String> = Vec::new();
    for id in 0..3 {
        let user = server.users.find(id).unwrap();
        if user.is_registered() {
            nicks.push(user.nickname());
        }
    }
    assert_eq!(nicks, vec!["alice".to_string(), "bob".to_string()]);
}

#[test]
fn disconnect_leaves_every_channel() {
    let mut server = plain_server();
    sign_on(&mut server, 0, "alice");
    sign_on(&mut server, 1, "bob");
    send_line(&mut server, 0, "JOIN #a,#b\r\n");
    send_line(&mut server, 1, "JOIN #a,#b\r\n");
    assert!(server.handle(1, IrcAction::Disconnect).is_empty());
    assert!(server.users.find(1).is_none());
    for name in ["#a", "#b"] {
        let members: Vec<usize> =
            server.channels.find(name).unwrap().users().iter().map(|u| u.client_id()).collect();
        assert_eq!(members, vec![0]);
    }
    let out = send_line(&mut server, 0, "PRIVMSG #a :anyone?\r\n");
    assert!(out.is_empty());
}

#[test]
fn welcome_is_sent_once() {
    let mut server = Server::new(ServerConfig::default());
    let mut welcomes = 0;
    let mut count = |out: &[(usize, String)]| {
        welcomes += out.iter().filter(|(_, l)| l.contains(" 001 ")).count();
    };
    server.handle(0, IrcAction::UserConnect);
    count(&send_line(&mut server, 0, "NICK alice\r\n"));
    count(&send_line(&mut server, 0, "USER alice 0 * :Alice\r\n"));
    count(&send_line(&mut server, 0, "NICK alicia\r\n"));
    count(&send_line(&mut server, 0, "USER alice 0 * :Alice\r\n"));
    count(&send_line(&mut server, 0, "NICK alice\r\n"));
    assert_eq!(welcomes, 1);
}

#[test]
fn writes_of_an_action_follow_in_order() {
    let mut server = plain_server();
    sign_on(&mut server, 0, "alice");
    sign_on(&mut server, 1, "bob");
    send_line(&mut server, 0, "JOIN #chat\r\n");
    let mut log: Vec<(usize, String)> = Vec::new();
    log.extend(send_line(&mut server, 1, "JOIN #chat\r\n"));
    let first_len = log.len();
    log.extend(send_line(&mut server, 1, "PRIVMSG #chat :one\r\n"));
    log.extend(send_line(&mut server, 1, "PRIVMSG #chat :two\r\n"));
    assert_eq!(log[first_len].1, ":bob PRIVMSG #chat :one");
    assert_eq!(log[first_len + 1].1, ":bob PRIVMSG #chat :two");
    assert_eq!(log.len(), first_len + 2);
}
