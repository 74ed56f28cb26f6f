use vstd::prelude::*;

verus! {

/// One member of a channel, known by its client id.
pub struct ChannelUserInfo {
    client_id: usize,
}

impl View for ChannelUserInfo {
    type V = usize;

    closed spec fn view(&self) -> usize {
        self.client_id
    }
}

impl ChannelUserInfo {
    pub fn new(client_id: usize) -> (r: Self)
        ensures
            r@ == client_id,
    {
        Self { client_id }
    }

    pub fn client_id(&self) -> (r: usize)
        ensures
            r == self@,
    {
        self.client_id
    }
}

/// The abstract content of a channel: its name, its topic and its members in order of
/// joining.
pub struct ChannelView {
    pub name: Seq<char>,
    pub topic: Option<Seq<char>>,
    pub members: Seq<usize>,
}

pub open spec fn opt_view(o: Option<String>) -> Option<Seq<char>> {
    match o {
        Some(s) => Some(s@),
        None => None,
    }
}

pub open spec fn member_ids(v: Seq<ChannelUserInfo>) -> Seq<usize> {
    v.map_values(|u: ChannelUserInfo| u@)
}

/// A named group of clients.
pub struct Channel {
    pub name: String,
    pub topic: Option<String>,
    users: Vec<ChannelUserInfo>,
}

impl View for Channel {
    type V = ChannelView;

    closed spec fn view(&self) -> ChannelView {
        ChannelView { name: self.name@, topic: opt_view(self.topic), members: member_ids(self.users@) }
    }
}

impl Channel {
    /// A channel with no topic and no members.
    pub fn new(name: String) -> (r: Self)
        ensures
            r@ == (ChannelView { name: name@, topic: None, members: Seq::empty() }),
    {
        let r = Self { name, topic: None, users: Vec::new() };
        assert(r@.members =~= Seq::<usize>::empty());
        r
    }

    /// The members, in order of joining.
    pub fn users(&self) -> (r: &Vec<ChannelUserInfo>)
        ensures
            member_ids(r@) == self@.members,
    {
        &self.users
    }

    pub fn name(&self) -> (r: &String)
        ensures
            r@ == self@.name,
    {
        &self.name
    }

    pub fn topic(&self) -> (r: &Option<String>)
        ensures
            opt_view(*r) == self@.topic,
    {
        &self.topic
    }

    /// Whether `client_id` is a member.
    pub fn contains(&self, client_id: usize) -> (r: bool)
        ensures
            r == self@.members.contains(client_id),
    {
        let mut i: usize = 0;
        while i < self.users.len()
            invariant
                0 <= i <= self.users@.len(),
                forall|j: int| 0 <= j < i ==> self@.members[j] != client_id,
            decreases self.users@.len() - i,
        {
            if self.users[i].client_id() == client_id {
                assert(self@.members[i as int] == client_id);
                return true;
            }
            i = i + 1;
        }
        false
    }

    /// Appends `client_id` to the members unless it is one already.
    pub fn join_user(&mut self, client_id: usize)
        ensures
            final(self)@ == (ChannelView {
                members: if old(self)@.members.contains(client_id) {
                    old(self)@.members
                } else {
                    old(self)@.members.push(client_id)
                },
                ..old(self)@
            }),
    {
        if !self.contains(client_id) {
            let user_info = ChannelUserInfo::new(client_id);
            self.users.push(user_info);
            assert(self@.members =~= old(self)@.members.push(client_id));
        }
    }

    /// Removes the first occurrence of `client_id` from the members, if any.
    pub fn part_user(&mut self, client_id: usize)
        ensures
            final(self)@ == (ChannelView {
                members: old(self)@.members.remove_value(client_id),
                ..old(self)@
            }),
    {
        let ghost m = self@.members;
        let mut i: usize = 0;
        while i < self.users.len()
            invariant
                m == self@.members,
                self@ == old(self)@,
                0 <= i <= self.users@.len(),
                forall|j: int| 0 <= j < i ==> m[j] != client_id,
            decreases self.users@.len() - i,
        {
            if self.users[i].client_id() == client_id {
                proof {
                    assert(m[i as int] == client_id);
                    assert(m.contains(client_id));
                    m.index_of_first_ensures(client_id);
                    let k = m.index_of_first(client_id).unwrap();
                    assert(k == i);
                }
                self.users.remove(i);
                assert(self@.members =~= m.remove(i as int));
                return;
            }
            i = i + 1;
        }
        proof {
            m.index_of_first_ensures(client_id);
        }
    }
}

} // verus!
