use vstd::prelude::*;

use crate::action::ActionView;
use crate::channel_list::{channel_index, channel_names};
use crate::preservation::{lemma_join_wf, lemma_remove_value_no_dup, lemma_step_wf};
use crate::replies::{not_on_channel_line, part_line};
use crate::state::{
    empty_state, join_effect, join_index, nick_of, part_effect, relay, run, wf, Out, ServerView,
};
use crate::user_list::user_ids;

verus! {

/// With distinct names, the channel at `i` is the one `channel_index` finds for its name.
pub proof fn lemma_channel_index_unique(chs: Seq<crate::channel::ChannelView>, i: int)
    requires
        channel_names(chs).no_duplicates(),
        0 <= i < chs.len(),
    ensures
        channel_index(chs, chs[i].name) == Some(i),
{
    let name = chs[i].name;
    assert(channel_names(chs)[i] == name);
    channel_names(chs).index_of_first_ensures(name);
    let k = channel_index(chs, name).unwrap();
    assert(channel_names(chs)[k] == name);
}

/// Every state reached from the empty registries is well formed.
pub proof fn lemma_run_wf(host: Seq<char>, autojoin: Seq<Seq<char>>, trace: Seq<(usize, ActionView)>)
    ensures
        wf(run(host, autojoin, empty_state(), trace).0),
    decreases trace.len(),
{
    if trace.len() == 0 {
        let s = empty_state();
        assert(user_ids(s.users) =~= Seq::<usize>::empty());
        assert(channel_names(s.channels) =~= Seq::<Seq<char>>::empty());
    } else {
        lemma_run_wf(host, autojoin, trace.drop_last());
        let s0 = run(host, autojoin, empty_state(), trace.drop_last()).0;
        lemma_step_wf(host, autojoin, s0, trace.last().0, trace.last().1);
    }
}

/// Whatever actions were applied, two distinct registered users have different
/// nicknames.
pub proof fn lemma_registered_nicknames_differ(
    host: Seq<char>,
    autojoin: Seq<Seq<char>>,
    trace: Seq<(usize, ActionView)>,
    i: int,
    j: int,
)
    requires
        0 <= i < run(host, autojoin, empty_state(), trace).0.users.len(),
        0 <= j < run(host, autojoin, empty_state(), trace).0.users.len(),
        i != j,
        run(host, autojoin, empty_state(), trace).0.users[i].registered(),
        run(host, autojoin, empty_state(), trace).0.users[j].registered(),
    ensures
        run(host, autojoin, empty_state(), trace).0.users[i].nickname != run(
            host,
            autojoin,
            empty_state(),
            trace,
        ).0.users[j].nickname,
{
    lemma_run_wf(host, autojoin, trace);
    let s = run(host, autojoin, empty_state(), trace).0;
    assert(s.users[i].nickname is Some);
}

/// Whatever actions were applied, no channel lists a member twice.
pub proof fn lemma_members_no_duplicates(
    host: Seq<char>,
    autojoin: Seq<Seq<char>>,
    trace: Seq<(usize, ActionView)>,
    k: int,
)
    requires
        0 <= k < run(host, autojoin, empty_state(), trace).0.channels.len(),
    ensures
        run(host, autojoin, empty_state(), trace).0.channels[k].members.no_duplicates(),
{
    lemma_run_wf(host, autojoin, trace);
}

/// Whatever actions were applied, every member of every channel is in the user registry:
/// a disconnection removes the client from all channels at once.
pub proof fn lemma_members_registered(
    host: Seq<char>,
    autojoin: Seq<Seq<char>>,
    trace: Seq<(usize, ActionView)>,
    k: int,
    m: int,
)
    requires
        0 <= k < run(host, autojoin, empty_state(), trace).0.channels.len(),
        0 <= m < run(host, autojoin, empty_state(), trace).0.channels[k].members.len(),
    ensures
        user_ids(run(host, autojoin, empty_state(), trace).0.users).contains(
            run(host, autojoin, empty_state(), trace).0.channels[k].members[m],
        ),
{
    lemma_run_wf(host, autojoin, trace);
}

/// The writes of a sequence of actions are those of its first `n` actions followed by
/// those of the rest: every write an action causes comes after every write caused by an
/// action applied before it, whatever the clients.
pub proof fn lemma_writes_in_order(
    host: Seq<char>,
    autojoin: Seq<Seq<char>>,
    s: ServerView,
    trace: Seq<(usize, ActionView)>,
    n: int,
)
    requires
        0 <= n <= trace.len(),
    ensures
        ({
            let (mid, first) = run(host, autojoin, s, trace.take(n));
            let (end, rest) = run(host, autojoin, mid, trace.skip(n));
            run(host, autojoin, s, trace) == (end, first + rest)
        }),
    decreases trace.len(),
{
    let mid = run(host, autojoin, s, trace.take(n)).0;
    if n == trace.len() {
        assert(trace.take(n) =~= trace);
        assert(trace.skip(n) =~= Seq::<(usize, ActionView)>::empty());
        assert(run(host, autojoin, s, trace).1 + Seq::<Out>::empty() =~= run(host, autojoin, s, trace).1);
    } else {
        let front = trace.drop_last();
        lemma_writes_in_order(host, autojoin, s, front, n);
        assert(front.take(n) =~= trace.take(n));
        assert(trace.skip(n).drop_last() =~= front.skip(n));
        assert(trace.skip(n).last() == trace.last());
        let first = run(host, autojoin, s, trace.take(n)).1;
        let rest0 = run(host, autojoin, mid, front.skip(n)).1;
        let last = run(host, autojoin, s, trace).1;
        let (end0, _) = run(host, autojoin, mid, front.skip(n));
        let o = crate::state::step(host, autojoin, end0, trace.last().0, trace.last().1).1;
        assert(last =~= first + rest0 + o);
        assert(first + rest0 + o =~= first + (rest0 + o));
    }
}

/// JOIN of a channel twice by the same client leaves it there exactly once.
pub proof fn lemma_join_twice(host: Seq<char>, s: ServerView, client_id: usize, name: Seq<char>)
    requires
        wf(s),
        user_ids(s.users).contains(client_id),
    ensures
        ({
            let s2 = join_effect(host, join_effect(host, s, client_id, name).0, client_id, name).0;
            channel_index(s2.channels, name) matches Some(i) && s2.channels[i].members.contains(
                client_id,
            ) && forall|a: int, b: int|
                0 <= a < s2.channels[i].members.len() && 0 <= b < s2.channels[i].members.len()
                    && s2.channels[i].members[a] == client_id && s2.channels[i].members[b]
                    == client_id ==> a == b
        }),
{
    let s1 = join_effect(host, s, client_id, name).0;
    lemma_join_wf(host, s, client_id, name);
    let i = join_index(s.channels, name);
    channel_names(s.channels).index_of_first_ensures(name);
    assert(s1.channels[i].name == name);
    lemma_channel_index_unique(s1.channels, i);
    let members = s1.channels[i].members;
    if !members.contains(client_id) {
        let ch = crate::state::with_channel(s.channels, name)[i];
        assert(members == crate::state::with_member(ch.members, client_id));
        assert(members[members.len() - 1] == client_id);
    }
    let s2 = join_effect(host, s1, client_id, name).0;
    lemma_join_wf(host, s1, client_id, name);
    assert(s2.channels[i] == s1.channels[i]);
    assert(s2.channels[i].name == name);
    lemma_channel_index_unique(s2.channels, i);
    assert(s2.channels[i].members.no_duplicates());
}

/// PART of a channel twice by a member: the first sends the PART to the client and to
/// the remaining members; the second only answers ERR_NOTONCHANNEL.
pub proof fn lemma_part_twice(
    host: Seq<char>,
    s: ServerView,
    client_id: usize,
    name: Seq<char>,
    message: Option<Seq<char>>,
)
    requires
        wf(s),
        channel_index(s.channels, name) matches Some(i) && s.channels[i].members.contains(
            client_id,
        ),
    ensures
        ({
            let nick = nick_of(s.users, client_id);
            let reason = match message {
                Some(m) => m,
                None => nick,
            };
            let (s1, o1) = part_effect(host, s, client_id, name, message);
            let i = channel_index(s.channels, name).unwrap();
            let line = part_line(nick, name, reason);
            &&& o1 == seq![(client_id, line)] + relay(s1.channels[i].members, client_id, line)
            &&& !s1.channels[i].members.contains(client_id)
            &&& part_effect(host, s1, client_id, name, message).1 == seq![
                (client_id, not_on_channel_line(host, nick, name)),
            ]
            &&& part_effect(host, s1, client_id, name, message).0 == s1
        }),
{
    let i = channel_index(s.channels, name).unwrap();
    channel_names(s.channels).index_of_first_ensures(name);
    assert(s.channels[i].members.no_duplicates());
    lemma_remove_value_no_dup(s.channels[i].members, client_id);
    let s1 = part_effect(host, s, client_id, name, message).0;
    assert(channel_names(s1.channels) =~= channel_names(s.channels));
}

} // verus!
