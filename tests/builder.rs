use zircond::channel::Channel;
use zircond::channel_list::ChannelList;
use zircond::config::ServerConfig;
use zircond::response::Respond;
use zircond::user::User;
use zircond::user_list::UserList;

#[test]
fn numeric_replies() {
    assert_eq!(Respond::to("h", "n").welcome("Hi".to_string()).to_string(), ":h 001 n :Hi");
    assert_eq!(Respond::to("h", "n").your_host("x y".to_string()).to_string(), ":h 002 n :x y");
    assert_eq!(Respond::to("h", "n").motd_start().to_string(), ":h 375 n :h Message of the day");
    assert_eq!(Respond::to("h", "n").motd("text").to_string(), ":h 372 n :- text");
    assert_eq!(Respond::to("h", "n").motd_end().to_string(), ":h 376 n :End of MOTD.");
    assert_eq!(
        Respond::to("h", "n").names_reply("=", "#c", "@", "m").to_string(),
        ":h 353 n = #c :@m"
    );
    assert_eq!(Respond::to("h", "n").names_end("#c").to_string(), ":h 366 n #c :End of /NAMES list.");
    assert_eq!(
        Respond::to("h", "n").topic("#c".to_string(), "the topic".to_string()).to_string(),
        ":h 332 n #c :the topic"
    );
    assert_eq!(
        Respond::to("h", "n").err_nickname_in_use("x".to_string()).to_string(),
        ":h 433 n x :Nickname is already in use."
    );
    assert_eq!(
        Respond::to("h", "n").err_not_on_channel("#c".to_string()).to_string(),
        ":h 442 n #c :You're not on that channel."
    );
    assert_eq!(
        Respond::to("h", "n").err_no_such_channel("#c".to_string()).to_string(),
        ":h 403 n #c :No such channel."
    );
}

#[test]
fn named_replies() {
    assert_eq!(Respond::to("a", "a").join("#c".to_string()).to_string(), ":a JOIN #c");
    assert_eq!(
        Respond::to("a", "a").part("#c".to_string(), "bye".to_string()).to_string(),
        ":a PART #c :bye"
    );
    assert_eq!(Respond::to("a", "#c").privmsg("hi you".to_string()).to_string(), ":a PRIVMSG #c :hi you");
    assert_eq!(Respond::to("h", "n").pong("xyz".to_string()).to_string(), ":h PONG h :xyz");
}

#[test]
fn channel_membership() {
    let mut channel = Channel::new("#c".to_string());
    channel.join_user(3);
    channel.join_user(5);
    channel.join_user(3);
    let ids: Vec<usize> = channel.users().iter().map(|u| u.client_id()).collect();
    assert_eq!(ids, vec![3, 5]);
    assert!(channel.contains(5));
    channel.part_user(3);
    channel.part_user(9);
    let ids: Vec<usize> = channel.users().iter().map(|u| u.client_id()).collect();
    assert_eq!(ids, vec![5]);
    assert!(!channel.contains(3));
}

#[test]
fn channel_registry_lookup() {
    let mut list = ChannelList::new();
    list.add(Channel::new("#a".to_string()));
    list.add(Channel::new("#b".to_string()));
    assert_eq!(list.position("#b"), Some(1));
    assert_eq!(list.find("#a").unwrap().name, "#a");
    assert!(list.find("#z").is_none());
    assert!(list.find("#A").is_none());
}

#[test]
fn user_registry_lookup() {
    let mut list = UserList::new();
    let mut alice = User::new(4);
    alice.set_nickname("alice".to_string());
    alice.set_names("al".to_string(), None);
    list.add(alice);
    list.add(User::new(9));
    assert_eq!(list.find(4).unwrap().realname(), "al");
    assert_eq!(list.find(4).unwrap().username(), "al");
    assert_eq!(list.find_by_name("alice").unwrap().id, 4);
    assert!(list.find_by_name("<unidentified>").is_none());
    assert_eq!(list.find(9).unwrap().nickname(), "<unidentified>");
    assert!(list.disconnect(4));
    assert!(!list.disconnect(4));
    assert!(list.find(4).is_none());
    assert_eq!(list.len(), 1);
}

#[test]
fn user_registration_state() {
    let mut user = User::new(1);
    assert!(!user.is_registered());
    user.set_names("bob".to_string(), Some("Bob B".to_string()));
    assert!(!user.is_registered());
    assert_eq!(user.realname(), "Bob B");
    user.set_nickname("bob".to_string());
    assert!(user.is_registered());
}

#[test]
fn default_configuration() {
    let config = ServerConfig::default();
    assert_eq!(config.get_host(), "127.0.0.1");
    assert_eq!(config.get_addr(), ("127.0.0.1", 6667));
    assert_eq!(config.get_autojoin_channels(), Some(vec!["#chat".to_string()]));
}
