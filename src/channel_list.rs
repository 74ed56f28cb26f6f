use vstd::prelude::*;

use crate::channel::{Channel, ChannelView};
use crate::text::str_eq;

verus! {

pub open spec fn channel_names(chs: Seq<ChannelView>) -> Seq<Seq<char>> {
    chs.map_values(|c: ChannelView| c.name)
}

/// The index of the first channel named `name`, if there is one.
pub open spec fn channel_index(chs: Seq<ChannelView>, name: Seq<char>) -> Option<int> {
    channel_names(chs).index_of_first(name)
}

/// Every channel with `client_id` removed from its members.
pub open spec fn without_member(chs: Seq<ChannelView>, client_id: usize) -> Seq<ChannelView> {
    chs.map_values(
        |c: ChannelView| ChannelView { members: c.members.remove_value(client_id), ..c },
    )
}

/// The channel registry.
pub struct ChannelList {
    channels: Vec<Channel>,
}

impl View for ChannelList {
    type V = Seq<ChannelView>;

    closed spec fn view(&self) -> Seq<ChannelView> {
        self.channels@.map_values(|c: Channel| c@)
    }
}

impl ChannelList {
    pub fn new() -> (r: Self)
        ensures
            r@ == Seq::<ChannelView>::empty(),
    {
        let r = Self { channels: Vec::new() };
        assert(r@ =~= Seq::<ChannelView>::empty());
        r
    }

    /// Appends `channel` to the registry.
    pub fn add(&mut self, channel: Channel)
        ensures
            final(self)@ == old(self)@.push(channel@),
    {
        self.channels.push(channel);
        assert(self@ =~= old(self)@.push(channel@));
    }

    pub fn len(&self) -> (r: usize)
        ensures
            r == self@.len(),
    {
        self.channels.len()
    }

    /// The position of the first channel named `channel_name`.
    pub fn position(&self, channel_name: &str) -> (r: Option<usize>)
        ensures
            r matches Some(i) ==> i < self@.len() && channel_index(self@, channel_name@) == Some(
                i as int,
            ),
            r is None ==> channel_index(self@, channel_name@) is None,
    {
        let ghost names = channel_names(self@);
        let mut i: usize = 0;
        while i < self.channels.len()
            invariant
                names == channel_names(self@),
                0 <= i <= self.channels@.len(),
                forall|j: int| 0 <= j < i ==> names[j] != channel_name@,
            decreases self.channels@.len() - i,
        {
            if str_eq(self.channels[i].name().as_str(), channel_name) {
                proof {
                    assert(names[i as int] == channel_name@);
                    names.index_of_first_ensures(channel_name@);
                }
                return Some(i);
            }
            i = i + 1;
        }
        proof {
            names.index_of_first_ensures(channel_name@);
        }
        None
    }

    /// The first channel named `channel_name`.
    pub fn find(&self, channel_name: &str) -> (r: Option<&Channel>)
        ensures
            r matches Some(c) ==> channel_index(self@, channel_name@) matches Some(i) && c@
                == self@[i],
            r is None ==> channel_index(self@, channel_name@) is None,
    {
        match self.position(channel_name) {
            Some(i) => Some(&self.channels[i]),
            None => None,
        }
    }

    pub fn get(&self, index: usize) -> (r: &Channel)
        requires
            index < self@.len(),
        ensures
            r@ == self@[index as int],
    {
        &self.channels[index]
    }

    /// Adds `client_id` to the members of the channel at `index`, unless it is one already.
    pub fn join_user_at(&mut self, index: usize, client_id: usize)
        requires
            index < old(self)@.len(),
        ensures
            final(self)@ == old(self)@.update(
                index as int,
                ChannelView {
                    members: if old(self)@[index as int].members.contains(client_id) {
                        old(self)@[index as int].members
                    } else {
                        old(self)@[index as int].members.push(client_id)
                    },
                    ..old(self)@[index as int]
                },
            ),
    {
        self.channels[index].join_user(client_id);
        assert(self@ =~= old(self)@.update(index as int, self.channels@[index as int]@));
    }

    /// Removes `client_id` from the members of the channel at `index`.
    pub fn part_user_at(&mut self, index: usize, client_id: usize)
        requires
            index < old(self)@.len(),
        ensures
            final(self)@ == old(self)@.update(
                index as int,
                ChannelView {
                    members: old(self)@[index as int].members.remove_value(client_id),
                    ..old(self)@[index as int]
                },
            ),
    {
        self.channels[index].part_user(client_id);
        assert(self@ =~= old(self)@.update(index as int, self.channels@[index as int]@));
    }

    /// Removes `client_id` from the members of every channel.
    pub fn part_user_everywhere(&mut self, client_id: usize)
        ensures
            final(self)@ == without_member(old(self)@, client_id),
    {
        let ghost old_view = self@;
        let n = self.channels.len();
        let mut i: usize = 0;
        while i < n
            invariant
                n == self@.len(),
                old_view.len() == n,
                0 <= i <= n,
                forall|j: int| 0 <= j < i ==> #[trigger] self@[j] == without_member(old_view, client_id)[j],
                forall|j: int| i <= j < n ==> #[trigger] self@[j] == old_view[j],
            decreases n - i,
        {
            self.part_user_at(i, client_id);
            i = i + 1;
        }
        assert(self@ =~= without_member(old_view, client_id));
    }
}

} // verus!
