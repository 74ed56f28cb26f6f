use vstd::prelude::*;

use crate::action::ActionView;
use crate::channel::ChannelView;
use crate::channel_list::{channel_index, channel_names, without_member};
use crate::replies::{
    join_line, names_end_line, names_line, nick_in_use_line, no_such_channel_line,
    not_on_channel_line, part_line, pong_line, privmsg_line, topic_line, welcome_lines,
};
use crate::user::{rendered, unidentified, UserView};
use crate::user_list::{nick_index, user_ids, user_index};

verus! {

/// The registries that the dispatcher owns.
pub struct ServerView {
    pub users: Seq<UserView>,
    pub channels: Seq<ChannelView>,
}

/// One outbound write: the receiving client and the line.
pub type Out = (usize, Seq<char>);

/// The state before any client connected.
pub open spec fn empty_state() -> ServerView {
    ServerView { users: Seq::empty(), channels: Seq::empty() }
}

/// How `client_id` is called in replies: its nickname, or the placeholder.
pub open spec fn nick_of(users: Seq<UserView>, client_id: usize) -> Seq<char> {
    match user_index(users, client_id) {
        Some(i) => rendered(users[i].nickname),
        None => unidentified(),
    }
}

/// Whether `client_id` is in the user registry and registered.
pub open spec fn is_registered(s: ServerView, client_id: usize) -> bool {
    user_index(s.users, client_id) matches Some(i) && s.users[i].registered()
}

/// Distinct users never share a nickname.
pub open spec fn nicknames_unique(users: Seq<UserView>) -> bool {
    forall|i: int, j: int|
        0 <= i < users.len() && 0 <= j < users.len() && i != j && (#[trigger] users[i]).nickname
            is Some ==> users[i].nickname != (#[trigger] users[j]).nickname
}

/// Every channel's members are distinct.
pub open spec fn members_distinct(chs: Seq<ChannelView>) -> bool {
    forall|i: int| 0 <= i < chs.len() ==> (#[trigger] chs[i]).members.no_duplicates()
}

/// Every member of every channel is in the user registry.
pub open spec fn members_known(s: ServerView) -> bool {
    forall|i: int, k: int|
        0 <= i < s.channels.len() && 0 <= k < s.channels[i].members.len() ==> user_ids(
            s.users,
        ).contains(#[trigger] s.channels[i].members[k])
}

/// The invariant of the registries.
pub open spec fn wf(s: ServerView) -> bool {
    &&& user_ids(s.users).no_duplicates()
    &&& nicknames_unique(s.users)
    &&& channel_names(s.channels).no_duplicates()
    &&& members_distinct(s.channels)
    &&& members_known(s)
}

/// `line` to every member but `skip`, in member order.
pub open spec fn relay(members: Seq<usize>, skip: usize, line: Seq<char>) -> Seq<Out>
    decreases members.len(),
{
    if members.len() == 0 {
        Seq::empty()
    } else {
        let rest = relay(members.drop_last(), skip, line);
        if members.last() == skip {
            rest
        } else {
            rest.push((members.last(), line))
        }
    }
}

/// One RPL_NAMREPLY to `to` per member, in member order.
pub open spec fn names_lines(
    host: Seq<char>,
    users: Seq<UserView>,
    to: usize,
    nick: Seq<char>,
    channel: Seq<char>,
    members: Seq<usize>,
) -> Seq<Out>
    decreases members.len(),
{
    if members.len() == 0 {
        Seq::empty()
    } else {
        names_lines(host, users, to, nick, channel, members.drop_last()).push(
            (to, names_line(host, nick, channel, nick_of(users, members.last()))),
        )
    }
}

/// Every line of `lines` to `to`.
pub open spec fn all_to(to: usize, lines: Seq<Seq<char>>) -> Seq<Out> {
    lines.map_values(|l: Seq<char>| (to, l))
}

/// Where the channel named `name` stands once it exists.
pub open spec fn join_index(chs: Seq<ChannelView>, name: Seq<char>) -> int {
    match channel_index(chs, name) {
        Some(i) => i,
        None => chs.len() as int,
    }
}

/// The channels once `name` exists, created empty if it did not.
pub open spec fn with_channel(chs: Seq<ChannelView>, name: Seq<char>) -> Seq<ChannelView> {
    match channel_index(chs, name) {
        Some(_) => chs,
        None => chs.push(ChannelView { name, topic: None, members: Seq::empty() }),
    }
}

/// `members` with `client_id` appended unless it is there already.
pub open spec fn with_member(members: Seq<usize>, client_id: usize) -> Seq<usize> {
    if members.contains(client_id) {
        members
    } else {
        members.push(client_id)
    }
}

/// JOIN of `name` by `client_id`.
pub open spec fn join_effect(host: Seq<char>, s: ServerView, client_id: usize, name: Seq<char>) -> (
    ServerView,
    Seq<Out>,
) {
    let nick = nick_of(s.users, client_id);
    let chs = with_channel(s.channels, name);
    let i = join_index(s.channels, name);
    let ch = chs[i];
    let members = with_member(ch.members, client_id);
    let echo = join_line(nick, name);
    let topic = match ch.topic {
        Some(t) => seq![(client_id, topic_line(host, nick, name, t))],
        None => Seq::empty(),
    };
    let outs = seq![(client_id, echo)] + topic + names_lines(
        host,
        s.users,
        client_id,
        nick,
        name,
        members,
    ) + seq![(client_id, names_end_line(host, nick, name))] + relay(members, client_id, echo);
    (ServerView { channels: chs.update(i, ChannelView { members, ..ch }), ..s }, outs)
}

/// PART of `name` by `client_id`, with an optional reason.
pub open spec fn part_effect(
    host: Seq<char>,
    s: ServerView,
    client_id: usize,
    name: Seq<char>,
    message: Option<Seq<char>>,
) -> (ServerView, Seq<Out>) {
    let nick = nick_of(s.users, client_id);
    let reason = match message {
        Some(m) => m,
        None => nick,
    };
    match channel_index(s.channels, name) {
        None => (s, seq![(client_id, no_such_channel_line(host, nick, name))]),
        Some(i) => {
            let ch = s.channels[i];
            if !ch.members.contains(client_id) {
                (s, seq![(client_id, not_on_channel_line(host, nick, name))])
            } else {
                let members = ch.members.remove_value(client_id);
                let line = part_line(nick, name, reason);
                (
                    ServerView {
                        channels: s.channels.update(i, ChannelView { members, ..ch }),
                        ..s
                    },
                    seq![(client_id, line)] + relay(members, client_id, line),
                )
            }
        },
    }
}

/// Whether `target` names a channel.
pub open spec fn is_channel_name(target: Seq<char>) -> bool {
    target.len() > 0 && target[0] == '#'
}

/// The writes of a PRIVMSG from `client_id` to `target`.
pub open spec fn privmsg_effect(s: ServerView, client_id: usize, target: Seq<char>, text: Seq<char>) -> Seq<
    Out,
> {
    let line = privmsg_line(nick_of(s.users, client_id), target, text);
    if is_channel_name(target) {
        match channel_index(s.channels, target) {
            Some(i) => relay(s.channels[i].members, client_id, line),
            None => Seq::empty(),
        }
    } else {
        match nick_index(s.users, target) {
            Some(j) => seq![(s.users[j].id, line)],
            None => Seq::empty(),
        }
    }
}

/// The autojoin channels in `channels` that `client_id` is not yet in, joined in order.
pub open spec fn autojoin_effect(
    host: Seq<char>,
    channels: Seq<Seq<char>>,
    s: ServerView,
    client_id: usize,
) -> (ServerView, Seq<Out>)
    decreases channels.len(),
{
    if channels.len() == 0 {
        (s, Seq::empty())
    } else {
        let (s0, o0) = autojoin_effect(host, channels.drop_last(), s, client_id);
        let c = channels.last();
        if channel_index(s0.channels, c) matches Some(i) && s0.channels[i].members.contains(
            client_id,
        ) {
            (s0, o0)
        } else {
            let (s1, o1) = join_effect(host, s0, client_id, c);
            (s1, o0 + o1)
        }
    }
}

/// The welcome sequence to `client_id`, then its autojoin.
pub open spec fn welcome_effect(
    host: Seq<char>,
    autojoin: Seq<Seq<char>>,
    s: ServerView,
    client_id: usize,
) -> (ServerView, Seq<Out>) {
    let greeting = all_to(client_id, welcome_lines(host, nick_of(s.users, client_id)));
    let (s1, o1) = autojoin_effect(host, autojoin, s, client_id);
    (s1, greeting + o1)
}

/// Whether `nick` is held by a user other than `client_id`.
pub open spec fn nick_taken(users: Seq<UserView>, client_id: usize, nick: Seq<char>) -> bool {
    nick_index(users, nick) matches Some(j) && users[j].id != client_id
}

/// NICK by `client_id`, a registered user.
pub open spec fn set_nick_effect(
    host: Seq<char>,
    autojoin: Seq<Seq<char>>,
    s: ServerView,
    client_id: usize,
    nick: Seq<char>,
) -> (ServerView, Seq<Out>) {
    let ui = user_index(s.users, client_id).unwrap();
    let u = s.users[ui];
    if nick_taken(s.users, client_id, nick) {
        (s, seq![(client_id, nick_in_use_line(host, rendered(u.nickname), nick))])
    } else {
        let s1 = ServerView {
            users: s.users.update(ui, UserView { nickname: Some(nick), ..u }),
            ..s
        };
        if u.nickname is None && u.username is Some {
            welcome_effect(host, autojoin, s1, client_id)
        } else {
            (s1, Seq::empty())
        }
    }
}

/// USER by `client_id`, a user of the registry.
pub open spec fn set_names_effect(
    host: Seq<char>,
    autojoin: Seq<Seq<char>>,
    s: ServerView,
    client_id: usize,
    username: Seq<char>,
    realname: Option<Seq<char>>,
) -> (ServerView, Seq<Out>) {
    let ui = user_index(s.users, client_id).unwrap();
    let u = s.users[ui];
    let full_name = match realname {
        Some(r) => r,
        None => username,
    };
    let s1 = ServerView {
        users: s.users.update(ui, UserView { username: Some(username), realname: Some(full_name), ..u }),
        ..s
    };
    if u.nickname is Some && u.username is None {
        welcome_effect(host, autojoin, s1, client_id)
    } else {
        (s1, Seq::empty())
    }
}

/// The registries after `client_id` connected.
pub open spec fn connect_effect(s: ServerView, client_id: usize) -> ServerView {
    match user_index(s.users, client_id) {
        Some(_) => s,
        None => ServerView { users: s.users.push(UserView::fresh(client_id)), ..s },
    }
}

/// The registries after `client_id` disconnected.
pub open spec fn disconnect_effect(s: ServerView, client_id: usize) -> ServerView {
    ServerView {
        users: match user_index(s.users, client_id) {
            Some(i) => s.users.remove(i),
            None => s.users,
        },
        channels: without_member(s.channels, client_id),
    }
}

/// Whether the step of `action` by `client_id` completes its registration, which sends
/// the welcome sequence.
pub open spec fn registers(s: ServerView, client_id: usize, action: ActionView) -> bool {
    user_index(s.users, client_id) matches Some(ui) && match action {
        ActionView::UserSetNick(nick) => !nick_taken(s.users, client_id, nick)
            && s.users[ui].nickname is None && s.users[ui].username is Some,
        ActionView::UserSetNames(_, _) => s.users[ui].nickname is Some
            && s.users[ui].username is None,
        _ => false,
    }
}

/// One step of the dispatcher: the registries after `action` by `client_id`, and the
/// writes it causes, in order.
pub open spec fn step(
    host: Seq<char>,
    autojoin: Seq<Seq<char>>,
    s: ServerView,
    client_id: usize,
    action: ActionView,
) -> (ServerView, Seq<Out>) {
    if action is UserConnect {
        (connect_effect(s, client_id), Seq::empty())
    } else if user_index(s.users, client_id) is None {
        (s, Seq::empty())
    } else {
        match action {
            ActionView::UserSetNick(nick) => set_nick_effect(host, autojoin, s, client_id, nick),
            ActionView::UserSetNames(username, realname) => set_names_effect(
                host,
                autojoin,
                s,
                client_id,
                username,
                realname,
            ),
            ActionView::UserJoinChannel(name, _) => join_effect(host, s, client_id, name),
            ActionView::UserPartChannel(name, message) => part_effect(
                host,
                s,
                client_id,
                name,
                message,
            ),
            ActionView::Privmsg(target, text) => (s, privmsg_effect(s, client_id, target, text)),
            ActionView::Pong(challenge) => (
                s,
                seq![(client_id, pong_line(host, nick_of(s.users, client_id), challenge))],
            ),
            ActionView::Disconnect => (disconnect_effect(s, client_id), Seq::empty()),
            _ => (s, Seq::empty()),
        }
    }
}

/// The registries and all writes after `trace` was applied in order to `s`.
pub open spec fn run(
    host: Seq<char>,
    autojoin: Seq<Seq<char>>,
    s: ServerView,
    trace: Seq<(usize, ActionView)>,
) -> (ServerView, Seq<Out>)
    decreases trace.len(),
{
    if trace.len() == 0 {
        (s, Seq::empty())
    } else {
        let (s0, o0) = run(host, autojoin, s, trace.drop_last());
        let (s1, o1) = step(host, autojoin, s0, trace.last().0, trace.last().1);
        (s1, o0 + o1)
    }
}

} // verus!
