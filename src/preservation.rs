use vstd::prelude::*;

use crate::action::ActionView;
use crate::channel::ChannelView;
use crate::channel_list::{channel_index, channel_names};
use crate::state::{
    autojoin_effect, connect_effect, disconnect_effect, join_effect, join_index, members_distinct,
    nick_taken, part_effect, set_names_effect, set_nick_effect,
    step, welcome_effect, with_channel, with_member, wf, ServerView,
};
use crate::user::UserView;
use crate::user_list::{nick_index, nicknames, user_ids, user_index};

verus! {

/// Removing one element keeps the others, in order.
pub proof fn lemma_remove_keeps<A>(s: Seq<A>, i: int)
    requires
        0 <= i < s.len(),
    ensures
        s.remove(i).len() == s.len() - 1,
        forall|k: int| 0 <= k < i ==> #[trigger] s.remove(i)[k] == s[k],
        forall|k: int| i <= k < s.len() - 1 ==> #[trigger] s.remove(i)[k] == s[k + 1],
{
}

/// Removing one element keeps the sequence free of duplicates, and what remains was there.
pub proof fn lemma_remove_no_dup<A>(s: Seq<A>, i: int)
    requires
        0 <= i < s.len(),
        s.no_duplicates(),
    ensures
        s.remove(i).no_duplicates(),
        forall|x: A| #[trigger] s.remove(i).contains(x) ==> s.contains(x) && x != s[i],
{
    lemma_remove_keeps(s, i);
    let r = s.remove(i);
    assert forall|a: int, b: int| 0 <= a < r.len() && 0 <= b < r.len() && a != b implies r[a]
        != r[b] by {
        let a2 = if a < i { a } else { a + 1 };
        let b2 = if b < i { b } else { b + 1 };
        assert(r[a] == s[a2]);
        assert(r[b] == s[b2]);
    }
    assert forall|x: A| #[trigger] r.contains(x) implies s.contains(x) && x != s[i] by {
        let k = choose|k: int| 0 <= k < r.len() && r[k] == x;
        let k2 = if k < i { k } else { k + 1 };
        assert(s[k2] == x);
    }
}

/// An element other than the removed one stays.
pub proof fn lemma_remove_contains<A>(s: Seq<A>, i: int, x: A)
    requires
        0 <= i < s.len(),
        s.contains(x),
        x != s[i],
    ensures
        s.remove(i).contains(x),
{
    lemma_remove_keeps(s, i);
    let k = choose|k: int| 0 <= k < s.len() && s[k] == x;
    if k < i {
        assert(s.remove(i)[k] == x);
    } else {
        assert(s.remove(i)[k - 1] == x);
    }
}

/// Removing a value from a sequence without duplicates leaves it free of duplicates and
/// without that value.
pub proof fn lemma_remove_value_no_dup<A>(s: Seq<A>, x: A)
    requires
        s.no_duplicates(),
    ensures
        s.remove_value(x).no_duplicates(),
        !s.remove_value(x).contains(x),
        forall|y: A| #[trigger] s.remove_value(x).contains(y) ==> s.contains(y),
{
    s.index_of_first_ensures(x);
    match s.index_of_first(x) {
        Some(i) => {
            lemma_remove_no_dup(s, i);
        },
        None => {},
    }
}

/// Appending an element that is not there keeps a sequence free of duplicates.
pub proof fn lemma_push_no_dup<A>(s: Seq<A>, x: A)
    requires
        s.no_duplicates(),
        !s.contains(x),
    ensures
        s.push(x).no_duplicates(),
{
    let r = s.push(x);
    assert forall|a: int, b: int| 0 <= a < r.len() && 0 <= b < r.len() && a != b implies r[a]
        != r[b] by {
        if a == s.len() {
            assert(s[b] == r[b]);
        } else if b == s.len() {
            assert(s[a] == r[a]);
        }
    }
}

/// What `user_index` tells.
pub proof fn lemma_user_index(users: Seq<UserView>, id: usize)
    ensures
        user_index(users, id) matches Some(i) ==> 0 <= i < users.len() && users[i].id == id,
        user_index(users, id) is None ==> !user_ids(users).contains(id),
        user_index(users, id) is Some <==> user_ids(users).contains(id),
{
    user_ids(users).index_of_first_ensures(id);
    if user_ids(users).contains(id) {
        let k = choose|k: int| 0 <= k < user_ids(users).len() && user_ids(users)[k] == id;
        assert(users[k].id == id);
    }
}

/// With distinct ids, the user with id `id` is the one `user_index` finds.
pub proof fn lemma_user_index_unique(users: Seq<UserView>, j: int)
    requires
        user_ids(users).no_duplicates(),
        0 <= j < users.len(),
    ensures
        user_index(users, users[j].id) == Some(j),
{
    let id = users[j].id;
    assert(user_ids(users)[j] == id);
    user_ids(users).index_of_first_ensures(id);
    let i = user_index(users, id).unwrap();
    assert(user_ids(users)[i] == id);
}

/// A JOIN keeps the registries well formed.
pub proof fn lemma_join_wf(host: Seq<char>, s: ServerView, client_id: usize, name: Seq<char>)
    requires
        wf(s),
        user_ids(s.users).contains(client_id),
    ensures
        wf(join_effect(host, s, client_id, name).0),
        join_effect(host, s, client_id, name).0.users == s.users,
{
    let chs = with_channel(s.channels, name);
    let i = join_index(s.channels, name);
    channel_names(s.channels).index_of_first_ensures(name);
    let fresh = ChannelView { name, topic: None, members: Seq::empty() };
    if channel_index(s.channels, name) is None {
        assert(channel_names(chs) =~= channel_names(s.channels).push(name));
        lemma_push_no_dup(channel_names(s.channels), name);
        assert(chs[i] == fresh);
    }
    assert(0 <= i < chs.len());
    assert(channel_names(chs).no_duplicates());
    assert(members_distinct(chs)) by {
        assert forall|k: int| 0 <= k < chs.len() implies (#[trigger] chs[k]).members.no_duplicates() by {
            if k < s.channels.len() {
                assert(chs[k] == s.channels[k]);
            } else {
                assert(chs[k] == fresh);
            }
        }
    }
    let ch = chs[i];
    let members = with_member(ch.members, client_id);
    if !ch.members.contains(client_id) {
        lemma_push_no_dup(ch.members, client_id);
    }
    let t = join_effect(host, s, client_id, name).0;
    assert(t.channels == chs.update(i, ChannelView { members, ..ch }));
    assert(channel_names(t.channels) =~= channel_names(chs));
    assert forall|k: int| 0 <= k < t.channels.len() implies (
    #[trigger] t.channels[k]).members.no_duplicates() by {
        if k != i {
            assert(t.channels[k] == chs[k]);
        }
    }
    assert forall|k: int, m: int|
        0 <= k < t.channels.len() && 0 <= m < t.channels[k].members.len() implies user_ids(
        t.users,
    ).contains(#[trigger] t.channels[k].members[m]) by {
        if k != i {
            assert(t.channels[k] == chs[k]);
            if k < s.channels.len() {
                assert(chs[k] == s.channels[k]);
            }
        } else if m < ch.members.len() {
            assert(t.channels[k].members[m] == ch.members[m]);
            if i < s.channels.len() {
                assert(ch == s.channels[i]);
            }
        }
    }
}

/// The autojoin keeps the registries well formed and the users as they are.
pub proof fn lemma_autojoin_wf(
    host: Seq<char>,
    channels: Seq<Seq<char>>,
    s: ServerView,
    client_id: usize,
)
    requires
        wf(s),
        user_ids(s.users).contains(client_id),
    ensures
        wf(autojoin_effect(host, channels, s, client_id).0),
        autojoin_effect(host, channels, s, client_id).0.users == s.users,
    decreases channels.len(),
{
    if channels.len() > 0 {
        lemma_autojoin_wf(host, channels.drop_last(), s, client_id);
        let s0 = autojoin_effect(host, channels.drop_last(), s, client_id).0;
        lemma_join_wf(host, s0, client_id, channels.last());
    }
}

/// The welcome keeps the registries well formed and the users as they are.
pub proof fn lemma_welcome_wf(
    host: Seq<char>,
    autojoin: Seq<Seq<char>>,
    s: ServerView,
    client_id: usize,
)
    requires
        wf(s),
        user_ids(s.users).contains(client_id),
    ensures
        wf(welcome_effect(host, autojoin, s, client_id).0),
        welcome_effect(host, autojoin, s, client_id).0.users == s.users,
{
    lemma_autojoin_wf(host, autojoin, s, client_id);
}

/// A PART keeps the registries well formed.
pub proof fn lemma_part_wf(
    host: Seq<char>,
    s: ServerView,
    client_id: usize,
    name: Seq<char>,
    message: Option<Seq<char>>,
)
    requires
        wf(s),
    ensures
        wf(part_effect(host, s, client_id, name, message).0),
        part_effect(host, s, client_id, name, message).0.users == s.users,
{
    channel_names(s.channels).index_of_first_ensures(name);
    if let Some(i) = channel_index(s.channels, name) {
        let ch = s.channels[i];
        if ch.members.contains(client_id) {
            assert(ch.members.no_duplicates());
            lemma_remove_value_no_dup(ch.members, client_id);
            let t = part_effect(host, s, client_id, name, message).0;
            assert(channel_names(t.channels) =~= channel_names(s.channels));
            assert forall|k: int| 0 <= k < t.channels.len() implies (
            #[trigger] t.channels[k]).members.no_duplicates() by {
                if k != i {
                    assert(t.channels[k] == s.channels[k]);
                }
            }
            assert forall|k: int, m: int|
                0 <= k < t.channels.len() && 0 <= m < t.channels[k].members.len() implies user_ids(
                t.users,
            ).contains(#[trigger] t.channels[k].members[m]) by {
                if k != i {
                    assert(t.channels[k] == s.channels[k]);
                } else {
                    let x = t.channels[k].members[m];
                    assert(t.channels[k].members.contains(x));
                    let p = choose|p: int| 0 <= p < ch.members.len() && ch.members[p] == x;
                    assert(s.channels[i].members[p] == x);
                }
            }
        }
    }
}

/// A NICK keeps the registries well formed.
pub proof fn lemma_set_nick_wf(
    host: Seq<char>,
    autojoin: Seq<Seq<char>>,
    s: ServerView,
    client_id: usize,
    nick: Seq<char>,
)
    requires
        wf(s),
        user_index(s.users, client_id) is Some,
    ensures
        wf(set_nick_effect(host, autojoin, s, client_id, nick).0),
{
    lemma_user_index(s.users, client_id);
    let ui = user_index(s.users, client_id).unwrap();
    let u = s.users[ui];
    if !nick_taken(s.users, client_id, nick) {
        let users = s.users.update(ui, UserView { nickname: Some(nick), ..u });
        let s1 = ServerView { users, ..s };
        assert(user_ids(users) =~= user_ids(s.users));
        nicknames(s.users).index_of_first_ensures(Some(nick));
        assert forall|a: int, b: int|
            0 <= a < users.len() && 0 <= b < users.len() && a != b && (
            #[trigger] users[a]).nickname is Some implies users[a].nickname != (
            #[trigger] users[b]).nickname by {
            if a == ui || b == ui {
                let other = if a == ui { b } else { a };
                if users[other].nickname == Some(nick) {
                    assert(nicknames(s.users)[other] == Some(nick));
                    let k = nick_index(s.users, nick).unwrap();
                    assert(s.users[k].nickname == Some(nick));
                    assert(k == other);
                    assert(user_ids(s.users)[other] == client_id);
                    assert(user_ids(s.users)[ui] == client_id);
                }
            } else {
                assert(users[a] == s.users[a]);
                assert(users[b] == s.users[b]);
            }
        }
        assert(wf(s1));
        if u.nickname is None && u.username is Some {
            lemma_welcome_wf(host, autojoin, s1, client_id);
        }
    }
}

/// A USER keeps the registries well formed.
pub proof fn lemma_set_names_wf(
    host: Seq<char>,
    autojoin: Seq<Seq<char>>,
    s: ServerView,
    client_id: usize,
    username: Seq<char>,
    realname: Option<Seq<char>>,
)
    requires
        wf(s),
        user_index(s.users, client_id) is Some,
    ensures
        wf(set_names_effect(host, autojoin, s, client_id, username, realname).0),
{
    lemma_user_index(s.users, client_id);
    let ui = user_index(s.users, client_id).unwrap();
    let u = s.users[ui];
    let full_name = match realname {
        Some(r) => r,
        None => username,
    };
    let users = s.users.update(
        ui,
        UserView { username: Some(username), realname: Some(full_name), ..u },
    );
    let s1 = ServerView { users, ..s };
    assert(user_ids(users) =~= user_ids(s.users));
    assert forall|a: int, b: int|
        0 <= a < users.len() && 0 <= b < users.len() && a != b && (
        #[trigger] users[a]).nickname is Some implies users[a].nickname != (
        #[trigger] users[b]).nickname by {
        assert(users[a].nickname == s.users[a].nickname);
        assert(users[b].nickname == s.users[b].nickname);
    }
    assert(wf(s1));
    if u.nickname is Some && u.username is None {
        lemma_welcome_wf(host, autojoin, s1, client_id);
    }
}

/// A connection keeps the registries well formed.
pub proof fn lemma_connect_wf(s: ServerView, client_id: usize)
    requires
        wf(s),
    ensures
        wf(connect_effect(s, client_id)),
{
    lemma_user_index(s.users, client_id);
    if user_index(s.users, client_id) is None {
        let users = s.users.push(UserView::fresh(client_id));
        assert(user_ids(users) =~= user_ids(s.users).push(client_id));
        lemma_push_no_dup(user_ids(s.users), client_id);
        assert forall|a: int, b: int|
            0 <= a < users.len() && 0 <= b < users.len() && a != b && (
            #[trigger] users[a]).nickname is Some implies users[a].nickname != (
            #[trigger] users[b]).nickname by {
            if b < s.users.len() && a < s.users.len() {
                assert(users[a] == s.users[a]);
                assert(users[b] == s.users[b]);
            }
        }
        let t = connect_effect(s, client_id);
        assert forall|k: int, m: int|
            0 <= k < t.channels.len() && 0 <= m < t.channels[k].members.len() implies user_ids(
            t.users,
        ).contains(#[trigger] t.channels[k].members[m]) by {
            let x = t.channels[k].members[m];
            assert(user_ids(s.users).contains(x));
            let p = choose|p: int| 0 <= p < user_ids(s.users).len() && user_ids(s.users)[p] == x;
            assert(user_ids(users)[p] == x);
        }
    }
}

/// A disconnection keeps the registries well formed.
pub proof fn lemma_disconnect_wf(s: ServerView, client_id: usize)
    requires
        wf(s),
    ensures
        wf(disconnect_effect(s, client_id)),
        forall|k: int|
            0 <= k < disconnect_effect(s, client_id).channels.len() ==> !(#[trigger] disconnect_effect(
                s,
                client_id,
            ).channels[k]).members.contains(client_id),
{
    lemma_user_index(s.users, client_id);
    let t = disconnect_effect(s, client_id);
    let ids = user_ids(s.users);
    let t_ids = user_ids(t.users);
    assert(channel_names(t.channels) =~= channel_names(s.channels));
    assert forall|k: int| 0 <= k < t.channels.len() implies (
    #[trigger] t.channels[k]).members.no_duplicates() && !t.channels[k].members.contains(client_id)
        && forall|y: usize| #[trigger]
        t.channels[k].members.contains(y) ==> s.channels[k].members.contains(y) by {
        assert(s.channels[k].members.no_duplicates());
        lemma_remove_value_no_dup(s.channels[k].members, client_id);
    }
    match user_index(s.users, client_id) {
        Some(ui) => {
            assert(t_ids =~= ids.remove(ui));
            lemma_remove_no_dup(ids, ui);
            lemma_remove_keeps(s.users, ui);
            assert forall|a: int, b: int|
                0 <= a < t.users.len() && 0 <= b < t.users.len() && a != b && (
                #[trigger] t.users[a]).nickname is Some implies t.users[a].nickname != (
                #[trigger] t.users[b]).nickname by {
                let a2 = if a < ui { a } else { a + 1 };
                let b2 = if b < ui { b } else { b + 1 };
                assert(t.users[a] == s.users[a2]);
                assert(t.users[b] == s.users[b2]);
            }
            assert forall|k: int, m: int|
                0 <= k < t.channels.len() && 0 <= m < t.channels[k].members.len() implies t_ids.contains(
                #[trigger] t.channels[k].members[m]) by {
                let x = t.channels[k].members[m];
                assert(t.channels[k].members.contains(x));
                assert(s.channels[k].members.contains(x));
                let p = choose|p: int| 0 <= p < s.channels[k].members.len() && s.channels[k].members[p] == x;
                assert(ids.contains(x));
                assert(x != client_id);
                assert(ids[ui] == client_id);
                lemma_remove_contains(ids, ui, x);
            }
        },
        None => {
            assert forall|k: int, m: int|
                0 <= k < t.channels.len() && 0 <= m < t.channels[k].members.len() implies t_ids.contains(
                #[trigger] t.channels[k].members[m]) by {
                let x = t.channels[k].members[m];
                assert(t.channels[k].members.contains(x));
                let p = choose|p: int| 0 <= p < s.channels[k].members.len() && s.channels[k].members[p] == x;
            }
        },
    }
}

/// Every step of the dispatcher keeps the registries well formed.
pub proof fn lemma_step_wf(
    host: Seq<char>,
    autojoin: Seq<Seq<char>>,
    s: ServerView,
    client_id: usize,
    action: ActionView,
)
    requires
        wf(s),
    ensures
        wf(step(host, autojoin, s, client_id, action).0),
{
    lemma_user_index(s.users, client_id);
    if action is UserConnect {
        lemma_connect_wf(s, client_id);
    } else if user_index(s.users, client_id) is Some {
        match action {
            ActionView::UserSetNick(nick) => lemma_set_nick_wf(host, autojoin, s, client_id, nick),
            ActionView::UserSetNames(u, r) => lemma_set_names_wf(host, autojoin, s, client_id, u, r),
            ActionView::UserJoinChannel(name, _) => lemma_join_wf(host, s, client_id, name),
            ActionView::UserPartChannel(name, m) => lemma_part_wf(host, s, client_id, name, m),
            ActionView::Disconnect => {
                lemma_disconnect_wf(s, client_id);
            },
            _ => {},
        }
    }
}

} // verus!
