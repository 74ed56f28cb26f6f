use vstd::prelude::*;

use crate::action::IrcAction;
use crate::channel::{member_ids, Channel, ChannelUserInfo};
use crate::replies::{
    make_join_line, make_names_end_line, make_names_line, make_nick_in_use_line,
    make_no_such_channel_line, make_not_on_channel_line, make_part_line, make_pong_line, make_privmsg_line,
    make_topic_line, make_welcome_lines,
};
use crate::response::strings_view;
use crate::server::{outs_view, Outbound, Server};
use crate::state::{
    all_to, autojoin_effect, join_effect, names_lines, nick_of, part_effect, privmsg_effect, relay,
    set_nick_effect, step, welcome_effect, wf,
};
use crate::preservation::lemma_step_wf;
use crate::user::User;
use crate::user_list::{user_index, UserList};

verus! {

/// Appends one write to `out`.
pub fn emit(out: &mut Vec<Outbound>, client_id: usize, line: String)
    ensures
        outs_view(final(out)@) == outs_view(old(out)@).push((client_id, line@)),
{
    let o = Outbound { client_id, line };
    out.push(o);
    assert(outs_view(out@) =~= outs_view(old(out)@).push((client_id, o.line@)));
}

/// How `client_id` is called in replies.
pub fn nick_of_user(users: &UserList, client_id: usize) -> (r: String)
    ensures
        r@ == nick_of(users@, client_id),
{
    match users.find(client_id) {
        Some(u) => u.nickname(),
        None => "<unidentified>".to_owned(),
    }
}

/// Sends `line` to every member but `skip`.
pub fn emit_relay(members: &Vec<ChannelUserInfo>, skip: usize, line: &String, out: &mut Vec<Outbound>)
    ensures
        outs_view(final(out)@) == outs_view(old(out)@) + relay(member_ids(members@), skip, line@),
{
    let ghost ids = member_ids(members@);
    let ghost start = outs_view(out@);
    let mut i: usize = 0;
    while i < members.len()
        invariant
            ids == member_ids(members@),
            0 <= i <= members@.len(),
            outs_view(out@) == start + relay(ids.take(i as int), skip, line@),
        decreases members@.len() - i,
    {
        let id = members[i].client_id();
        proof {
            assert(ids.take(i + 1).drop_last() =~= ids.take(i as int));
        }
        if id != skip {
            emit(out, id, line.clone());
            assert(outs_view(out@) =~= start + relay(ids.take(i + 1), skip, line@));
        }
        i = i + 1;
    }
    assert(ids.take(members@.len() as int) =~= ids);
}

/// One RPL_NAMREPLY per member to `to`.
pub fn emit_names(
    host: &str,
    users: &UserList,
    to: usize,
    nick: &str,
    channel: &str,
    members: &Vec<ChannelUserInfo>,
    out: &mut Vec<Outbound>,
)
    ensures
        outs_view(final(out)@) == outs_view(old(out)@) + names_lines(
            host@,
            users@,
            to,
            nick@,
            channel@,
            member_ids(members@),
        ),
{
    let ghost ids = member_ids(members@);
    let ghost start = outs_view(out@);
    let mut i: usize = 0;
    while i < members.len()
        invariant
            ids == member_ids(members@),
            0 <= i <= members@.len(),
            outs_view(out@) == start + names_lines(host@, users@, to, nick@, channel@, ids.take(i as int)),
        decreases members@.len() - i,
    {
        let member = nick_of_user(users, members[i].client_id());
        emit(out, to, make_names_line(host, nick, channel, member.as_str()));
        proof {
            assert(ids.take(i + 1).drop_last() =~= ids.take(i as int));
            assert(outs_view(out@) =~= start + names_lines(
                host@,
                users@,
                to,
                nick@,
                channel@,
                ids.take(i + 1),
            ));
        }
        i = i + 1;
    }
    assert(ids.take(members@.len() as int) =~= ids);
}

/// An action handler that does nothing.
pub struct Dummy {}

impl Dummy {
    #[allow(unused_variables)]
    pub fn dispatch(&self, server: &mut Server, client_id: usize, out: &mut Vec<Outbound>)
        ensures
            *final(server) == *old(server),
            final(out)@ == old(out)@,
    {
    }
}

/// JOIN of one channel.
pub struct JoinChannel {
    pub channel_name: String,
    pub channel_key: Option<String>,
}

impl JoinChannel {
    /// Creates the channel if needed, adds the client to its members, sends the client
    /// the JOIN echo, the topic, the names and their end, and the JOIN to every other
    /// member.
    pub fn dispatch(&self, server: &mut Server, client_id: usize, out: &mut Vec<Outbound>)
        ensures
            final(server).config == old(server).config,
            ({
                let (s, o) = join_effect(
                    old(server).config.host(),
                    old(server).state(),
                    client_id,
                    self.channel_name@,
                );
                final(server).state() == s && outs_view(final(out)@) == outs_view(old(out)@) + o
            }),
    {
        let ghost s0 = server.state();
        let ghost s0_host = server.config.host();
        let ghost start = outs_view(out@);
        let name = self.channel_name.as_str();
        let nick = nick_of_user(&server.users, client_id);
        let i = match server.channels.position(name) {
            Some(i) => i,
            None => {
                let n = server.channels.len();
                server.channels.add(Channel::new(self.channel_name.clone()));
                n
            },
        };
        server.channels.join_user_at(i, client_id);
        let ch = server.channels.get(i);
        let host = server.config.get_host();
        let echo = make_join_line(nick.as_str(), name);
        emit(out, client_id, echo.clone());
        match ch.topic() {
            Some(t) => {
                emit(out, client_id, make_topic_line(host, nick.as_str(), name, t.as_str()));
            },
            None => {},
        }
        emit_names(host, &server.users, client_id, nick.as_str(), name, ch.users(), out);
        emit(out, client_id, make_names_end_line(host, nick.as_str(), name));
        emit_relay(ch.users(), client_id, &echo, out);
        proof {
            let (s, o) = join_effect(s0_host, s0, client_id, self.channel_name@);
            assert(server.state() == s);
            assert(outs_view(out@) =~= start + o);
        }
    }
}

/// PART of one channel.
pub struct PartChannel {
    pub channel_name: String,
    pub message: Option<String>,
}

impl PartChannel {
    /// ERR_NOSUCHCHANNEL when the channel does not exist, ERR_NOTONCHANNEL when the
    /// client is not a member; otherwise removes the client and sends the PART to it
    /// and to every remaining member.
    pub fn dispatch(&self, server: &mut Server, client_id: usize, out: &mut Vec<Outbound>)
        ensures
            final(server).config == old(server).config,
            ({
                let (s, o) = part_effect(
                    old(server).config.host(),
                    old(server).state(),
                    client_id,
                    self.channel_name@,
                    crate::channel::opt_view(self.message),
                );
                final(server).state() == s && outs_view(final(out)@) == outs_view(old(out)@) + o
            }),
    {
        let ghost start = outs_view(out@);
        let name = self.channel_name.as_str();
        let nick = nick_of_user(&server.users, client_id);
        let reason = match &self.message {
            Some(m) => m.clone(),
            None => nick.clone(),
        };
        match server.channels.position(name) {
            None => {
                let host = server.config.get_host();
                emit(out, client_id, make_no_such_channel_line(host, nick.as_str(), name));
                assert(outs_view(out@) =~= start + seq![
                    (client_id, crate::replies::no_such_channel_line(host@, nick@, name@)),
                ]);
            },
            Some(i) => {
                if !server.channels.get(i).contains(client_id) {
                    let host = server.config.get_host();
                    emit(out, client_id, make_not_on_channel_line(host, nick.as_str(), name));
                    assert(outs_view(out@) =~= start + seq![
                        (client_id, crate::replies::not_on_channel_line(host@, nick@, name@)),
                    ]);
                } else {
                    server.channels.part_user_at(i, client_id);
                    let line = make_part_line(nick.as_str(), name, reason.as_str());
                    emit(out, client_id, line.clone());
                    let ch = server.channels.get(i);
                    emit_relay(ch.users(), client_id, &line, out);
                    assert(outs_view(out@) =~= start + (seq![(client_id, line@)] + relay(
                        ch@.members,
                        client_id,
                        line@,
                    )));
                }
            },
        }
    }
}

/// PRIVMSG to a channel or a nickname.
pub struct PrivateMessage {
    pub target: String,
    pub message: String,
}

impl PrivateMessage {
    /// To a channel (a target starting with `#`): the message to every member but the
    /// sender. To a nickname: the message to its user. Nothing when the target does not
    /// exist.
    pub fn dispatch(&self, server: &mut Server, client_id: usize, out: &mut Vec<Outbound>)
        ensures
            *final(server) == *old(server),
            outs_view(final(out)@) == outs_view(old(out)@) + privmsg_effect(
                old(server).state(),
                client_id,
                self.target@,
                self.message@,
            ),
    {
        let ghost start = outs_view(out@);
        let target = self.target.as_str();
        let nick = nick_of_user(&server.users, client_id);
        let line = make_privmsg_line(nick.as_str(), target, self.message.as_str());
        let is_channel = target.unicode_len() > 0 && target.get_char(0) == '#';
        if is_channel {
            match server.channels.find(target) {
                Some(ch) => {
                    emit_relay(ch.users(), client_id, &line, out);
                },
                None => {
                    assert(outs_view(out@) =~= start + Seq::empty());
                },
            }
        } else {
            match server.users.find_by_name(target) {
                Some(u) => {
                    emit(out, u.id(), line);
                    assert(outs_view(out@) =~= start + seq![(u@.id, line@)]);
                },
                None => {
                    assert(outs_view(out@) =~= start + Seq::empty());
                },
            }
        }
    }
}

/// Joins, in order, each autojoin channel that `client_id` is not yet in.
pub fn autojoin(server: &mut Server, client_id: usize, out: &mut Vec<Outbound>)
    ensures
        final(server).config == old(server).config,
        ({
            let (s, o) = autojoin_effect(
                old(server).config.host(),
                old(server).autojoin(),
                old(server).state(),
                client_id,
            );
            final(server).state() == s && outs_view(final(out)@) == outs_view(old(out)@) + o
        }),
{
    let ghost s0 = server.state();
    let ghost start = outs_view(out@);
    let ghost host = server.config.host();
    let channels = match server.config.get_autojoin_channels() {
        Some(v) => v,
        None => Vec::new(),
    };
    let ghost names = strings_view(channels@);
    assert(names =~= old(server).autojoin());
    let mut k: usize = 0;
    while k < channels.len()
        invariant
            names == strings_view(channels@),
            0 <= k <= channels@.len(),
            server.config == old(server).config,
            host == server.config.host(),
            ({
                let (s, o) = autojoin_effect(host, names.take(k as int), s0, client_id);
                server.state() == s && outs_view(out@) == start + o
            }),
        decreases channels@.len() - k,
    {
        let ghost mid = outs_view(out@);
        proof {
            assert(names.take(k + 1).drop_last() =~= names.take(k as int));
        }
        let member = match server.channels.find(channels[k].as_str()) {
            Some(ch) => ch.contains(client_id),
            None => false,
        };
        if !member {
            let join = JoinChannel { channel_name: channels[k].clone(), channel_key: None };
            join.dispatch(server, client_id, out);
            proof {
                let (s1, o1) = join_effect(host, autojoin_effect(host, names.take(k as int), s0, client_id).0, client_id, names[k as int]);
                assert(outs_view(out@) =~= mid + o1);
                assert(outs_view(out@) =~= start + autojoin_effect(host, names.take(k + 1), s0, client_id).1);
            }
        }
        k = k + 1;
    }
    assert(names.take(channels@.len() as int) =~= names);
}

/// The welcome sequence to `client_id`, then its autojoin.
pub fn welcome(server: &mut Server, client_id: usize, out: &mut Vec<Outbound>)
    ensures
        final(server).config == old(server).config,
        ({
            let (s, o) = welcome_effect(
                old(server).config.host(),
                old(server).autojoin(),
                old(server).state(),
                client_id,
            );
            final(server).state() == s && outs_view(final(out)@) == outs_view(old(out)@) + o
        }),
{
    let ghost start = outs_view(out@);
    let nick = nick_of_user(&server.users, client_id);
    let lines = make_welcome_lines(server.config.get_host(), nick.as_str());
    let ghost ls = strings_view(lines@);
    let mut k: usize = 0;
    while k < lines.len()
        invariant
            ls == strings_view(lines@),
            0 <= k <= lines@.len(),
            outs_view(out@) == start + all_to(client_id, ls.take(k as int)),
        decreases lines@.len() - k,
    {
        emit(out, client_id, lines[k].clone());
        assert(all_to(client_id, ls.take(k + 1)) =~= all_to(client_id, ls.take(k as int)).push(
            (client_id, ls[k as int]),
        ));
        assert(outs_view(out@) =~= start + all_to(client_id, ls.take(k + 1)));
        k = k + 1;
    }
    assert(ls.take(lines@.len() as int) =~= ls);
    autojoin(server, client_id, out);
    assert(outs_view(out@) =~= start + welcome_effect(
        old(server).config.host(),
        old(server).autojoin(),
        old(server).state(),
        client_id,
    ).1);
}

/// NICK.
pub struct SetNick {
    pub nickname: String,
}

impl SetNick {
    /// ERR_NICKNAMEINUSE when another user holds the nickname; otherwise sets it, and
    /// when this completes registration sends the welcome sequence and the autojoin.
    pub fn dispatch(&self, server: &mut Server, client_id: usize, out: &mut Vec<Outbound>)
        requires
            user_index(old(server).users@, client_id) is Some,
        ensures
            final(server).config == old(server).config,
            ({
                let (s, o) = set_nick_effect(
                    old(server).config.host(),
                    old(server).autojoin(),
                    old(server).state(),
                    client_id,
                    self.nickname@,
                );
                final(server).state() == s && outs_view(final(out)@) == outs_view(old(out)@) + o
            }),
    {
        let ghost start = outs_view(out@);
        let ui = match server.users.position(client_id) {
            Some(i) => i,
            None => {
                return;
            },
        };
        let nick = self.nickname.as_str();
        let taken = match server.users.position_by_name(nick) {
            Some(j) => server.users.get(j).id() != client_id,
            None => false,
        };
        if taken {
            let current = server.users.get(ui).nickname();
            emit(out, client_id, make_nick_in_use_line(server.config.get_host(), current.as_str(), nick));
            assert(outs_view(out@) =~= start + seq![
                (client_id, crate::replies::nick_in_use_line(server.config.host(), current@, nick@)),
            ]);
        } else {
            let completes = !server.users.get(ui).has_nick() && server.users.get(ui).has_names();
            server.users.set_nickname_at(ui, self.nickname.clone());
            if completes {
                welcome(server, client_id, out);
            } else {
                assert(outs_view(out@) =~= start + Seq::empty());
            }
        }
    }
}

impl Server {
    /// Applies `action` by `client_id` and returns the writes it causes, in order. Every
    /// action but `UserConnect` is ignored from a client that is not in the registry.
    pub fn handle(&mut self, client_id: usize, action: IrcAction) -> (out: Vec<Outbound>)
        ensures
            final(self).config == old(self).config,
            ({
                let (s, o) = step(
                    old(self).config.host(),
                    old(self).autojoin(),
                    old(self).state(),
                    client_id,
                    action@,
                );
                final(self).state() == s && outs_view(out@) == o
            }),
            wf(old(self).state()) ==> wf(final(self).state()),
    {
        proof {
            if wf(self.state()) {
                lemma_step_wf(self.config.host(), self.autojoin(), self.state(), client_id, action@);
            }
        }
        let mut out: Vec<Outbound> = Vec::new();
        assert(outs_view(out@) =~= Seq::empty());
        let position = self.users.position(client_id);
        match action {
            IrcAction::UserConnect => {
                if position.is_none() {
                    self.users.add(User::new(client_id));
                }
            },
            IrcAction::UserSetNick(nickname) => {
                if position.is_some() {
                    let handler = SetNick { nickname };
                    handler.dispatch(self, client_id, &mut out);
                }
            },
            IrcAction::UserSetNames(username, realname) => {
                if let Some(ui) = position {
                    let completes = self.users.get(ui).has_nick() && !self.users.get(ui).has_names();
                    self.users.set_names_at(ui, username, realname);
                    if completes {
                        welcome(self, client_id, &mut out);
                    }
                }
            },
            IrcAction::UserJoinChannel(channel_name, channel_key) => {
                if position.is_some() {
                    let handler = JoinChannel { channel_name, channel_key };
                    handler.dispatch(self, client_id, &mut out);
                }
            },
            IrcAction::UserPartChannel(channel_name, message) => {
                if position.is_some() {
                    let handler = PartChannel { channel_name, message };
                    handler.dispatch(self, client_id, &mut out);
                }
            },
            IrcAction::ChannelListUsers(_) => {},
            IrcAction::Privmsg(target, message) => {
                if position.is_some() {
                    let handler = PrivateMessage { target, message };
                    handler.dispatch(self, client_id, &mut out);
                }
            },
            IrcAction::Pong(challenge) => {
                if position.is_some() {
                    let nick = nick_of_user(&self.users, client_id);
                    let line = make_pong_line(self.config.get_host(), nick.as_str(), challenge.as_str());
                    emit(&mut out, client_id, line);
                }
            },
            IrcAction::Disconnect => {
                if position.is_some() {
                    self.users.disconnect(client_id);
                    self.channels.part_user_everywhere(client_id);
                }
            },
        }
        out
    }
}

} // verus!
