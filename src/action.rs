use vstd::prelude::*;

use crate::channel::opt_view;

verus! {

/// A high-level action, emitted by a connection reader and applied by the dispatcher.
pub enum IrcAction {
    /// A client connected.
    UserConnect,
    /// NICK: the nickname.
    UserSetNick(String),
    /// USER: the username and the realname.
    UserSetNames(String, Option<String>),
    /// JOIN of one channel: its name and key.
    UserJoinChannel(String, Option<String>),
    /// PART of one channel: its name and the reason.
    UserPartChannel(String, Option<String>),
    /// WHO of a channel (not answered).
    ChannelListUsers(String),
    /// PRIVMSG: the target and the text.
    Privmsg(String, String),
    /// PING: the challenge to answer with PONG.
    Pong(String),
    /// The client's connection ended.
    Disconnect,
}

/// The abstract form of an `IrcAction`.
pub enum ActionView {
    UserConnect,
    UserSetNick(Seq<char>),
    UserSetNames(Seq<char>, Option<Seq<char>>),
    UserJoinChannel(Seq<char>, Option<Seq<char>>),
    UserPartChannel(Seq<char>, Option<Seq<char>>),
    ChannelListUsers(Seq<char>),
    Privmsg(Seq<char>, Seq<char>),
    Pong(Seq<char>),
    Disconnect,
}

impl View for IrcAction {
    type V = ActionView;

    open spec fn view(&self) -> ActionView {
        match self {
            IrcAction::UserConnect => ActionView::UserConnect,
            IrcAction::UserSetNick(n) => ActionView::UserSetNick(n@),
            IrcAction::UserSetNames(u, r) => ActionView::UserSetNames(u@, opt_view(*r)),
            IrcAction::UserJoinChannel(c, k) => ActionView::UserJoinChannel(c@, opt_view(*k)),
            IrcAction::UserPartChannel(c, m) => ActionView::UserPartChannel(c@, opt_view(*m)),
            IrcAction::ChannelListUsers(c) => ActionView::ChannelListUsers(c@),
            IrcAction::Privmsg(t, m) => ActionView::Privmsg(t@, m@),
            IrcAction::Pong(c) => ActionView::Pong(c@),
            IrcAction::Disconnect => ActionView::Disconnect,
        }
    }
}

} // verus!
