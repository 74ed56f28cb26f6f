use zircond::action::IrcAction;
use zircond::command::{IrcMessageCommand, ParseError};
use zircond::prefix::IrcMessagePrefix;
use zircond::reader::{actions_for, actions_for_line};
use zircond::request::IrcMessageRequest;
use zircond::response::Respond;
use zircond::tag::IrcMessageTag;
use zircond::tags::IrcMessageTags;

fn command(line: &str) -> IrcMessageCommand {
    IrcMessageRequest::parse(line).ok().unwrap().command
}

#[test]
fn parse_nick() {
    match command("NICK alice\r\n") {
        IrcMessageCommand::Nick(n) => assert_eq!(n, "alice"),
        _ => panic!("expected NICK"),
    }
}

#[test]
fn parse_user_with_realname() {
    match command("USER alice 0 * :Alice A\r\n") {
        IrcMessageCommand::User(u, r) => {
            assert_eq!(u, "alice");
            assert_eq!(r, Some("Alice A".to_string()));
        },
        _ => panic!("expected USER"),
    }
}

#[test]
fn parse_user_without_realname() {
    match command("USER bob") {
        IrcMessageCommand::User(u, r) => {
            assert_eq!(u, "bob");
            assert_eq!(r, None);
        },
        _ => panic!("expected USER"),
    }
}

#[test]
fn parse_join_with_keys() {
    match command("JOIN #a,#b k1\r\n") {
        IrcMessageCommand::Join(c, k) => {
            assert_eq!(c, vec!["#a".to_string(), "#b".to_string()]);
            assert_eq!(k, Some(vec!["k1".to_string()]));
        },
        _ => panic!("expected JOIN"),
    }
}

#[test]
fn parse_part_with_reason() {
    match command("PART #a,#b :gone for now\n") {
        IrcMessageCommand::Part(c, m) => {
            assert_eq!(c, vec!["#a".to_string(), "#b".to_string()]);
            assert_eq!(m, Some("gone for now".to_string()));
        },
        _ => panic!("expected PART"),
    }
}

#[test]
fn parse_privmsg_keeps_spaces_of_trailing() {
    match command("PRIVMSG #chat :hello  there : you\r\n") {
        IrcMessageCommand::Privmsg(t, m) => {
            assert_eq!(t, "#chat");
            assert_eq!(m, "hello  there : you");
        },
        _ => panic!("expected PRIVMSG"),
    }
}

#[test]
fn parse_ping_and_who() {
    match command("PING xyz") {
        IrcMessageCommand::Ping(c) => assert_eq!(c, "xyz"),
        _ => panic!("expected PING"),
    }
    match command("WHO #chat") {
        IrcMessageCommand::Who(c) => assert_eq!(c, "#chat"),
        _ => panic!("expected WHO"),
    }
}

#[test]
fn parse_unknown_command() {
    assert!(matches!(command("FOO bar\r\n"), IrcMessageCommand::Unknown));
    assert!(actions_for_line("FOO bar\r\n").unwrap().is_empty());
}

#[test]
fn parse_missing_parameter() {
    assert_eq!(IrcMessageRequest::parse("NICK\r\n").err(), Some(ParseError::MissingParameter));
    assert_eq!(IrcMessageRequest::parse("PRIVMSG #chat\r\n").err(), Some(ParseError::MissingParameter));
}

#[test]
fn parse_no_command() {
    assert_eq!(IrcMessageRequest::parse("\r\n").err(), Some(ParseError::NoCommand));
    assert_eq!(IrcMessageRequest::parse(":prefix").err(), Some(ParseError::NoCommand));
    assert_eq!(IrcMessageRequest::parse("@a=b").err(), Some(ParseError::NoCommand));
}

#[test]
fn parse_tags_and_prefix() {
    let request = IrcMessageRequest::parse("@a=b;c :pre NICK x\r\n").ok().unwrap();
    match request.tags() {
        Some(tags) => assert_eq!(tags.to_string(), "@a=b;c"),
        None => panic!("expected tags"),
    }
    match request.prefix() {
        Some(p) => assert_eq!(p.0, "pre"),
        None => panic!("expected a prefix"),
    }
    assert!(matches!(request.command(), IrcMessageCommand::Nick(n) if n == "x"));
}

#[test]
fn parse_then_build_round_trip() {
    let line = ":src PRIVMSG p1 :trailing with spaces\r\n";
    let request = IrcMessageRequest::parse(line).ok().unwrap();
    let source = match request.prefix() {
        Some(p) => p.0.clone(),
        None => panic!("expected a prefix"),
    };
    match request.command {
        IrcMessageCommand::Privmsg(target, text) => {
            let rebuilt = Respond::to(&source, &target).privmsg(text).to_string();
            assert_eq!(rebuilt, ":src PRIVMSG p1 :trailing with spaces");
        },
        _ => panic!("expected PRIVMSG"),
    }
}

#[test]
fn join_expands_to_one_action_per_channel() {
    let actions = actions_for(IrcMessageCommand::Join(
        vec!["#a".to_string(), "#b".to_string()],
        Some(vec!["k1".to_string()]),
    ));
    assert_eq!(actions.len(), 2);
    assert!(matches!(&actions[0], IrcAction::UserJoinChannel(c, Some(k)) if c == "#a" && k == "k1"));
    assert!(matches!(&actions[1], IrcAction::UserJoinChannel(c, None) if c == "#b"));
}

#[test]
fn part_expands_to_one_action_per_channel() {
    let actions = actions_for_line("PART #a,#b :bye\r\n").unwrap();
    assert_eq!(actions.len(), 2);
    assert!(matches!(&actions[1], IrcAction::UserPartChannel(c, Some(m)) if c == "#b" && m == "bye"));
}

#[test]
fn tag_and_prefix_text() {
    assert_eq!(IrcMessageTag("k".to_string(), Some("v".to_string())).to_string(), "k=v");
    assert_eq!(IrcMessageTag("k".to_string(), None).to_string(), "k");
    assert_eq!(IrcMessageTags::One(IrcMessageTag("k".to_string(), None)).to_string(), "@k");
    assert_eq!(IrcMessageTags::Many(Vec::new()).to_string(), "@");
    assert_eq!(IrcMessagePrefix("irc.example".to_string()).to_string(), ":irc.example");
}
