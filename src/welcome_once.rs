use vstd::prelude::*;

use crate::action::ActionView;
use crate::preservation::{lemma_remove_keeps, lemma_remove_no_dup, lemma_step_wf, lemma_user_index, lemma_user_index_unique};
use crate::state::{
    all_to, autojoin_effect, is_registered, nick_of, registers, run, step, welcome_effect, wf,
    ServerView,
};
use crate::replies::welcome_lines;
use crate::user::UserView;
use crate::user_list::{user_ids, user_index};

verus! {

/// Joining channels never touches the user registry.
pub proof fn lemma_autojoin_users(
    host: Seq<char>,
    channels: Seq<Seq<char>>,
    s: ServerView,
    client_id: usize,
)
    ensures
        autojoin_effect(host, channels, s, client_id).0.users == s.users,
    decreases channels.len(),
{
    if channels.len() > 0 {
        lemma_autojoin_users(host, channels.drop_last(), s, client_id);
    }
}

/// A change of one user's names, which keeps its id, keeps every other user's
/// registration.
pub proof fn lemma_update_registration(users: Seq<UserView>, ui: int, u: UserView, c: usize)
    requires
        user_ids(users).no_duplicates(),
        0 <= ui < users.len(),
        u.id == users[ui].id,
        users[ui].id != c,
    ensures
        is_registered(ServerView { users: users.update(ui, u), channels: Seq::empty() }, c)
            == is_registered(ServerView { users, channels: Seq::empty() }, c),
{
    let t = users.update(ui, u);
    assert(user_ids(t) =~= user_ids(users));
    lemma_user_index(users, c);
    if let Some(j) = user_index(users, c) {
        assert(j != ui);
        assert(t[j] == users[j]);
    }
}

/// How one step of the dispatcher changes the registration of client `c`: only the step
/// that completes `c`'s own registration registers it, and nothing but its disconnection
/// unregisters it.
pub proof fn lemma_step_registration(
    host: Seq<char>,
    autojoin: Seq<Seq<char>>,
    s: ServerView,
    client_id: usize,
    action: ActionView,
    c: usize,
)
    requires
        wf(s),
        !(client_id == c && action is Disconnect),
    ensures
        is_registered(step(host, autojoin, s, client_id, action).0, c) == (is_registered(s, c) || (
        client_id == c && registers(s, c, action))),
        client_id == c && registers(s, c, action) ==> !is_registered(s, c),
{
    lemma_user_index(s.users, client_id);
    lemma_user_index(s.users, c);
    let t = step(host, autojoin, s, client_id, action).0;
    let plain = |x: ServerView| ServerView { users: x.users, channels: Seq::empty() };
    if action is UserConnect {
        if user_index(s.users, client_id) is None {
            let users = s.users.push(UserView::fresh(client_id));
            assert(user_ids(users) =~= user_ids(s.users).push(client_id));
            lemma_user_index(users, c);
            user_ids(users).index_of_first_ensures(c);
            user_ids(s.users).index_of_first_ensures(c);
            if let Some(j) = user_index(s.users, c) {
                assert(user_ids(users)[j] == c);
                let k = user_index(users, c).unwrap();
                assert(k == j);
            } else if c == client_id {
                assert(user_ids(users)[s.users.len() as int] == c);
                assert(user_ids(users).contains(c));
                let k = user_index(users, c).unwrap();
                if k < s.users.len() {
                    assert(user_ids(s.users)[k] == c);
                }
                assert(k == s.users.len());
            }
        }
    } else if user_index(s.users, client_id) is Some {
        let ui = user_index(s.users, client_id).unwrap();
        let u = s.users[ui];
        match action {
            ActionView::UserSetNick(nick) => {
                if !crate::state::nick_taken(s.users, client_id, nick) {
                    let users = s.users.update(ui, UserView { nickname: Some(nick), ..u });
                    let s1 = ServerView { users, ..s };
                    lemma_autojoin_users(host, autojoin, s1, client_id);
                    assert(t.users == users);
                    if c != client_id {
                        lemma_update_registration(s.users, ui, UserView { nickname: Some(nick), ..u }, c);
                    } else {
                        assert(user_ids(users) =~= user_ids(s.users));
                    }
                }
            },
            ActionView::UserSetNames(username, realname) => {
                let full_name = match realname {
                    Some(r) => r,
                    None => username,
                };
                let nu = UserView { username: Some(username), realname: Some(full_name), ..u };
                let users = s.users.update(ui, nu);
                let s1 = ServerView { users, ..s };
                lemma_autojoin_users(host, autojoin, s1, client_id);
                assert(t.users == users);
                if c != client_id {
                    lemma_update_registration(s.users, ui, nu, c);
                } else {
                    assert(user_ids(users) =~= user_ids(s.users));
                }
            },
            ActionView::Disconnect => {
                let users = s.users.remove(ui);
                assert(t.users == users);
                lemma_remove_keeps(s.users, ui);
                assert(user_ids(users) =~= user_ids(s.users).remove(ui));
                lemma_remove_no_dup(user_ids(s.users), ui);
                lemma_user_index(users, c);
                if let Some(j) = user_index(s.users, c) {
                    let j2 = if j < ui { j } else { j - 1 };
                    assert(j != ui);
                    assert(users[j2] == s.users[j]);
                    lemma_user_index_unique(users, j2);
                } else {
                    if user_ids(users).contains(c) {
                        assert(user_ids(s.users).remove(ui).contains(c));
                    }
                }
            },
            _ => {},
        }
    }
}

/// How many of the steps of `trace`, applied in order to `s`, complete the registration
/// of client `c`, each of which sends it the welcome sequence.
pub open spec fn welcome_count(
    host: Seq<char>,
    autojoin: Seq<Seq<char>>,
    s: ServerView,
    trace: Seq<(usize, ActionView)>,
    c: usize,
) -> nat
    decreases trace.len(),
{
    if trace.len() == 0 {
        0
    } else {
        let s0 = run(host, autojoin, s, trace.drop_last()).0;
        let last = trace.last();
        welcome_count(host, autojoin, s, trace.drop_last(), c) + if last.0 == c && registers(
            s0,
            c,
            last.1,
        ) {
            1nat
        } else {
            0nat
        }
    }
}

/// The welcome sequence goes to a client at most once while it stays connected: the
/// welcomes it gets in any sequence of actions without its disconnection, plus one if it
/// was registered before, make one if it is registered after and none otherwise. A
/// client that registers thus gets exactly one.
pub proof fn lemma_welcome_once(
    host: Seq<char>,
    autojoin: Seq<Seq<char>>,
    s: ServerView,
    trace: Seq<(usize, ActionView)>,
    c: usize,
)
    requires
        wf(s),
        forall|k: int| 0 <= k < trace.len() ==> !(#[trigger] trace[k] == (c, ActionView::Disconnect)),
    ensures
        welcome_count(host, autojoin, s, trace, c) + (if is_registered(s, c) {
            1nat
        } else {
            0nat
        }) == if is_registered(run(host, autojoin, s, trace).0, c) {
            1nat
        } else {
            0nat
        },
        wf(run(host, autojoin, s, trace).0),
    decreases trace.len(),
{
    if trace.len() > 0 {
        let front = trace.drop_last();
        assert forall|k: int| 0 <= k < front.len() implies !(#[trigger] front[k] == (
        c,
        ActionView::Disconnect,
        )) by {
            assert(front[k] == trace[k]);
        }
        lemma_welcome_once(host, autojoin, s, front, c);
        let s0 = run(host, autojoin, s, front).0;
        let last = trace.last();
        assert(trace[trace.len() - 1] == last);
        lemma_step_registration(host, autojoin, s0, last.0, last.1, c);
        lemma_step_wf(host, autojoin, s0, last.0, last.1);
    }
}

/// The step that completes a client's registration sends it the welcome sequence first,
/// under its nickname.
pub proof fn lemma_registration_greets(
    host: Seq<char>,
    autojoin: Seq<Seq<char>>,
    s: ServerView,
    client_id: usize,
    action: ActionView,
)
    requires
        registers(s, client_id, action),
    ensures
        ({
            let (t, o) = step(host, autojoin, s, client_id, action);
            o.len() >= 6 && o.subrange(0, 6) == all_to(
                client_id,
                welcome_lines(host, nick_of(t.users, client_id)),
            )
        }),
{
    let ui = user_index(s.users, client_id).unwrap();
    let u = s.users[ui];
    let s1 = match action {
        ActionView::UserSetNick(nick) => ServerView {
            users: s.users.update(ui, UserView { nickname: Some(nick), ..u }),
            ..s
        },
        ActionView::UserSetNames(username, realname) => ServerView {
            users: s.users.update(
                ui,
                UserView {
                    username: Some(username),
                    realname: Some(
                        match realname {
                            Some(r) => r,
                            None => username,
                        },
                    ),
                    ..u
                },
            ),
            ..s
        },
        _ => s,
    };
    assert(step(host, autojoin, s, client_id, action) == welcome_effect(host, autojoin, s1, client_id));
    lemma_autojoin_users(host, autojoin, s1, client_id);
    let greeting = all_to(client_id, welcome_lines(host, nick_of(s1.users, client_id)));
    let o = step(host, autojoin, s, client_id, action).1;
    assert(greeting.len() == 6);
    assert(o.subrange(0, 6) =~= greeting);
}

} // verus!
