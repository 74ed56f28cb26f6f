use vstd::prelude::*;

use crate::channel::opt_view;

verus! {

/// The abstract content of a user record.
pub struct UserView {
    pub id: usize,
    pub nickname: Option<Seq<char>>,
    pub username: Option<Seq<char>>,
    pub realname: Option<Seq<char>>,
}

/// What a name that has not been set renders as.
pub open spec fn unidentified() -> Seq<char> {
    "<unidentified>"@
}

pub open spec fn rendered(name: Option<Seq<char>>) -> Seq<char> {
    match name {
        Some(n) => n,
        None => unidentified(),
    }
}

impl UserView {
    pub open spec fn fresh(id: usize) -> UserView {
        UserView { id, nickname: None, username: None, realname: None }
    }

    /// Both NICK and USER have been seen.
    pub open spec fn registered(self) -> bool {
        self.nickname is Some && self.username is Some
    }
}

/// One connected client.
pub struct User {
    pub id: usize,
    nickname: Option<String>,
    username: Option<String>,
    realname: Option<String>,
}

impl View for User {
    type V = UserView;

    closed spec fn view(&self) -> UserView {
        UserView {
            id: self.id,
            nickname: opt_view(self.nickname),
            username: opt_view(self.username),
            realname: opt_view(self.realname),
        }
    }
}

fn render_name(name: &Option<String>) -> (r: String)
    ensures
        r@ == rendered(opt_view(*name)),
{
    match name {
        Some(n) => n.clone(),
        None => "<unidentified>".to_owned(),
    }
}

impl User {
    /// A user that has sent neither NICK nor USER.
    pub fn new(id: usize) -> (r: User)
        ensures
            r@ == UserView::fresh(id),
    {
        Self { id, nickname: None, username: None, realname: None }
    }

    pub fn id(&self) -> (r: usize)
        ensures
            r == self@.id,
    {
        self.id
    }

    /// The nickname, or the placeholder while none is set.
    pub fn nickname(&self) -> (r: String)
        ensures
            r@ == rendered(self@.nickname),
    {
        render_name(&self.nickname)
    }

    /// The username, or the placeholder while none is set.
    pub fn username(&self) -> (r: String)
        ensures
            r@ == rendered(self@.username),
    {
        render_name(&self.username)
    }

    /// The realname, or the placeholder while none is set.
    pub fn realname(&self) -> (r: String)
        ensures
            r@ == rendered(self@.realname),
    {
        render_name(&self.realname)
    }

    /// Whether the nickname is set and equals `nick`.
    pub fn has_nickname(&self, nick: &str) -> (r: bool)
        ensures
            r == (self@.nickname == Some(nick@)),
    {
        match &self.nickname {
            Some(n) => crate::text::str_eq(n.as_str(), nick),
            None => false,
        }
    }

    pub fn has_names(&self) -> (r: bool)
        ensures
            r == self@.username is Some,
    {
        self.username.is_some()
    }

    pub fn has_nick(&self) -> (r: bool)
        ensures
            r == self@.nickname is Some,
    {
        self.nickname.is_some()
    }

    pub fn is_registered(&self) -> (r: bool)
        ensures
            r == self@.registered(),
    {
        self.nickname.is_some() && self.username.is_some()
    }

    pub fn set_nickname(&mut self, nickname: String)
        ensures
            final(self)@ == (UserView { nickname: Some(nickname@), ..old(self)@ }),
    {
        self.nickname = Some(nickname);
    }

    /// Sets the username and the realname; the realname defaults to the username.
    pub fn set_names(&mut self, username: String, realname: Option<String>)
        ensures
            final(self)@ == (UserView {
                username: Some(username@),
                realname: Some(
                    match realname {
                        Some(r) => r@,
                        None => username@,
                    },
                ),
                ..old(self)@
            }),
    {
        let full_name = match realname {
            Some(r) => r,
            None => username.clone(),
        };
        self.realname = Some(full_name);
        self.username = Some(username);
    }
}

} // verus!
