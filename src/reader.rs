use vstd::prelude::*;

use crate::action::{ActionView, IrcAction};
use crate::command::{CommandMessage, IrcMessageCommand, ParseError};
use crate::parser::{parse_request, IrcMessageParser};

verus! {

/// The key paired with the channel at `i`, if keys were given and one stands there.
pub open spec fn key_at(keys: Option<Seq<Seq<char>>>, i: int) -> Option<Seq<char>> {
    match keys {
        Some(k) => if i < k.len() {
            Some(k[i])
        } else {
            None
        },
        None => None,
    }
}

/// The actions a parsed command turns into: one per channel for JOIN and PART, none for a
/// command the server does not handle.
pub open spec fn command_actions(c: CommandMessage) -> Seq<ActionView> {
    match c {
        CommandMessage::Unknown => Seq::empty(),
        CommandMessage::Nick(n) => seq![ActionView::UserSetNick(n)],
        CommandMessage::User(u, r) => seq![ActionView::UserSetNames(u, r)],
        CommandMessage::Join(cs, ks) => Seq::new(
            cs.len(),
            |i: int| ActionView::UserJoinChannel(cs[i], key_at(ks, i)),
        ),
        CommandMessage::Part(cs, m) => Seq::new(
            cs.len(),
            |i: int| ActionView::UserPartChannel(cs[i], m),
        ),
        CommandMessage::Who(c) => seq![ActionView::ChannelListUsers(c)],
        CommandMessage::Privmsg(t, m) => seq![ActionView::Privmsg(t, m)],
        CommandMessage::Ping(c) => seq![ActionView::Pong(c)],
    }
}

pub open spec fn actions_view(v: Seq<IrcAction>) -> Seq<ActionView> {
    v.map_values(|a: IrcAction| a@)
}

/// The actions for the dispatcher that `command` from a client turns into, in order.
pub fn actions_for(command: IrcMessageCommand) -> (r: Vec<IrcAction>)
    ensures
        actions_view(r@) == command_actions(command@),
{
    let ghost c = command@;
    let mut r: Vec<IrcAction> = Vec::new();
    match command {
        IrcMessageCommand::Unknown => {},
        IrcMessageCommand::Nick(n) => r.push(IrcAction::UserSetNick(n)),
        IrcMessageCommand::User(u, name) => r.push(IrcAction::UserSetNames(u, name)),
        IrcMessageCommand::Join(channels, keys) => {
            let mut i: usize = 0;
            while i < channels.len()
                invariant
                    c == CommandMessage::Join(
                        crate::response::strings_view(channels@),
                        match keys {
                            Some(k) => Some(crate::response::strings_view(k@)),
                            None => None,
                        },
                    ),
                    0 <= i <= channels@.len(),
                    r@.len() == i,
                    forall|j: int| 0 <= j < i ==> (#[trigger] r@[j])@ == command_actions(c)[j],
                decreases channels@.len() - i,
            {
                let key = match &keys {
                    Some(k) => if i < k.len() {
                        Some(k[i].clone())
                    } else {
                        None
                    },
                    None => None,
                };
                r.push(IrcAction::UserJoinChannel(channels[i].clone(), key));
                i = i + 1;
            }
        },
        IrcMessageCommand::Part(channels, message) => {
            let mut i: usize = 0;
            while i < channels.len()
                invariant
                    c == CommandMessage::Part(
                        crate::response::strings_view(channels@),
                        crate::channel::opt_view(message),
                    ),
                    0 <= i <= channels@.len(),
                    r@.len() == i,
                    forall|j: int| 0 <= j < i ==> (#[trigger] r@[j])@ == command_actions(c)[j],
                decreases channels@.len() - i,
            {
                r.push(IrcAction::UserPartChannel(channels[i].clone(), message.clone()));
                i = i + 1;
            }
        },
        IrcMessageCommand::Who(channel) => r.push(IrcAction::ChannelListUsers(channel)),
        IrcMessageCommand::Privmsg(target, message) => r.push(IrcAction::Privmsg(target, message)),
        IrcMessageCommand::Ping(challenge) => r.push(IrcAction::Pong(challenge)),
    }
    assert(actions_view(r@) =~= command_actions(c));
    r
}

/// The actions for the dispatcher that one inbound line turns into, or why it could not
/// be parsed.
pub fn actions_for_line(line: &str) -> (r: Result<Vec<IrcAction>, ParseError>)
    ensures
        r matches Ok(v) ==> parse_request(line@) matches Ok(req) && actions_view(v@)
            == command_actions(req.command),
        r matches Err(e) ==> parse_request(line@) == Err::<crate::request::RequestView, ParseError>(
            e,
        ),
{
    match IrcMessageParser::parse(line) {
        Ok(request) => {
            Ok(actions_for(request.into_command()))
        },
        Err(e) => Err(e),
    }
}

} // verus!
