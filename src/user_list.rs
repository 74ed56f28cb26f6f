use vstd::prelude::*;

use crate::user::{User, UserView};

verus! {

pub open spec fn user_ids(users: Seq<UserView>) -> Seq<usize> {
    users.map_values(|u: UserView| u.id)
}

pub open spec fn nicknames(users: Seq<UserView>) -> Seq<Option<Seq<char>>> {
    users.map_values(|u: UserView| u.nickname)
}

/// The index of the first user with id `client_id`, if there is one.
pub open spec fn user_index(users: Seq<UserView>, client_id: usize) -> Option<int> {
    user_ids(users).index_of_first(client_id)
}

/// The index of the first user whose nickname is `nick`, if there is one.
pub open spec fn nick_index(users: Seq<UserView>, nick: Seq<char>) -> Option<int> {
    nicknames(users).index_of_first(Some(nick))
}

/// The user registry.
pub struct UserList {
    users: Vec<User>,
}

impl View for UserList {
    type V = Seq<UserView>;

    closed spec fn view(&self) -> Seq<UserView> {
        self.users@.map_values(|u: User| u@)
    }
}

impl UserList {
    pub fn new() -> (r: Self)
        ensures
            r@ == Seq::<UserView>::empty(),
    {
        let r = Self { users: Vec::new() };
        assert(r@ =~= Seq::<UserView>::empty());
        r
    }

    /// Appends `user` to the registry.
    pub fn add(&mut self, user: User)
        ensures
            final(self)@ == old(self)@.push(user@),
    {
        self.users.push(user);
        assert(self@ =~= old(self)@.push(user@));
    }

    pub fn len(&self) -> (r: usize)
        ensures
            r == self@.len(),
    {
        self.users.len()
    }

    pub fn get(&self, index: usize) -> (r: &User)
        requires
            index < self@.len(),
        ensures
            r@ == self@[index as int],
    {
        &self.users[index]
    }

    /// The position of the first user with id `client_id`.
    pub fn position(&self, client_id: usize) -> (r: Option<usize>)
        ensures
            r matches Some(i) ==> i < self@.len() && user_index(self@, client_id) == Some(i as int),
            r is None ==> user_index(self@, client_id) is None,
    {
        let ghost ids = user_ids(self@);
        let mut i: usize = 0;
        while i < self.users.len()
            invariant
                ids == user_ids(self@),
                0 <= i <= self.users@.len(),
                forall|j: int| 0 <= j < i ==> ids[j] != client_id,
            decreases self.users@.len() - i,
        {
            if self.users[i].id() == client_id {
                proof {
                    assert(ids[i as int] == client_id);
                    ids.index_of_first_ensures(client_id);
                }
                return Some(i);
            }
            i = i + 1;
        }
        proof {
            ids.index_of_first_ensures(client_id);
        }
        None
    }

    /// The position of the first user whose nickname is `nick`.
    pub fn position_by_name(&self, nick: &str) -> (r: Option<usize>)
        ensures
            r matches Some(i) ==> i < self@.len() && nick_index(self@, nick@) == Some(i as int),
            r is None ==> nick_index(self@, nick@) is None,
    {
        let ghost nicks = nicknames(self@);
        let mut i: usize = 0;
        while i < self.users.len()
            invariant
                nicks == nicknames(self@),
                0 <= i <= self.users@.len(),
                forall|j: int| 0 <= j < i ==> nicks[j] != Some(nick@),
            decreases self.users@.len() - i,
        {
            if self.users[i].has_nickname(nick) {
                proof {
                    assert(nicks[i as int] == Some(nick@));
                    nicks.index_of_first_ensures(Some(nick@));
                }
                return Some(i);
            }
            i = i + 1;
        }
        proof {
            nicks.index_of_first_ensures(Some(nick@));
        }
        None
    }

    /// The first user with id `client_id`.
    pub fn find(&self, client_id: usize) -> (r: Option<&User>)
        ensures
            r matches Some(u) ==> user_index(self@, client_id) matches Some(i) && u@ == self@[i],
            r is None ==> user_index(self@, client_id) is None,
    {
        match self.position(client_id) {
            Some(i) => Some(&self.users[i]),
            None => None,
        }
    }

    /// The first user whose nickname is `nick`.
    pub fn find_by_name(&self, nick: &str) -> (r: Option<&User>)
        ensures
            r matches Some(u) ==> nick_index(self@, nick@) matches Some(i) && u@ == self@[i],
            r is None ==> nick_index(self@, nick@) is None,
    {
        match self.position_by_name(nick) {
            Some(i) => Some(&self.users[i]),
            None => None,
        }
    }

    pub fn set_nickname_at(&mut self, index: usize, nickname: String)
        requires
            index < old(self)@.len(),
        ensures
            final(self)@ == old(self)@.update(
                index as int,
                UserView { nickname: Some(nickname@), ..old(self)@[index as int] },
            ),
    {
        self.users[index].set_nickname(nickname);
        assert(self@ =~= old(self)@.update(index as int, self.users@[index as int]@));
    }

    pub fn set_names_at(&mut self, index: usize, username: String, realname: Option<String>)
        requires
            index < old(self)@.len(),
        ensures
            final(self)@ == old(self)@.update(
                index as int,
                UserView {
                    username: Some(username@),
                    realname: Some(
                        match realname {
                            Some(r) => r@,
                            None => username@,
                        },
                    ),
                    ..old(self)@[index as int]
                },
            ),
    {
        self.users[index].set_names(username, realname);
        assert(self@ =~= old(self)@.update(index as int, self.users@[index as int]@));
    }

    /// Removes the first user with id `client_id`; tells whether there was one.
    pub fn disconnect(&mut self, client_id: usize) -> (r: bool)
        ensures
            r == user_index(old(self)@, client_id) is Some,
            final(self)@ == match user_index(old(self)@, client_id) {
                Some(i) => old(self)@.remove(i),
                None => old(self)@,
            },
    {
        match self.position(client_id) {
            Some(i) => {
                self.users.remove(i);
                assert(self@ =~= old(self)@.remove(i as int));
                true
            },
            None => false,
        }
    }
}

} // verus!
