use vstd::prelude::*;

use crate::command::{CommandMessage, IrcMessageCommand, ParseError};
use crate::parser::{parse_request, IrcMessageParser};
use crate::prefix::IrcMessagePrefix;
use crate::tag::TagView;
use crate::tags::IrcMessageTags;

verus! {

/// The abstract content of a parsed message.
pub struct RequestView {
    pub tags: Option<Seq<TagView>>,
    pub prefix: Option<Seq<char>>,
    pub command: CommandMessage,
}

/// One parsed inbound message.
pub struct IrcMessageRequest {
    tags: Option<IrcMessageTags>,
    prefix: Option<IrcMessagePrefix>,
    pub command: IrcMessageCommand,
}

impl View for IrcMessageRequest {
    type V = RequestView;

    closed spec fn view(&self) -> RequestView {
        RequestView {
            tags: match self.tags {
                Some(t) => Some(t@),
                None => None,
            },
            prefix: match self.prefix {
                Some(p) => Some(p@),
                None => None,
            },
            command: self.command@,
        }
    }
}

impl IrcMessageRequest {
    pub fn new(
        command: IrcMessageCommand,
        prefix: Option<IrcMessagePrefix>,
        tags: Option<IrcMessageTags>,
    ) -> (r: Self)
        ensures
            r@ == (RequestView {
                tags: match tags {
                    Some(t) => Some(t@),
                    None => None,
                },
                prefix: match prefix {
                    Some(p) => Some(p@),
                    None => None,
                },
                command: command@,
            }),
    {
        Self { tags, prefix, command }
    }

    /// Parses one line; a trailing CRLF or LF is ignored.
    pub fn parse(line: &str) -> (r: Result<Self, ParseError>)
        ensures
            r matches Ok(req) ==> parse_request(line@) == Ok::<RequestView, ParseError>(req@),
            r matches Err(e) ==> parse_request(line@) == Err::<RequestView, ParseError>(e),
    {
        IrcMessageParser::parse(line)
    }

    pub fn tags(&self) -> (r: &Option<IrcMessageTags>)
        ensures
            self@.tags == match *r {
                Some(t) => Some(t@),
                None => None::<Seq<TagView>>,
            },
    {
        &self.tags
    }

    pub fn prefix(&self) -> (r: &Option<IrcMessagePrefix>)
        ensures
            self@.prefix == match *r {
                Some(p) => Some(p@),
                None => None::<Seq<char>>,
            },
    {
        &self.prefix
    }

    pub fn into_command(self) -> (r: IrcMessageCommand)
        ensures
            r@ == self@.command,
    {
        self.command
    }

    pub fn command(&self) -> (r: &IrcMessageCommand)
        ensures
            r@ == self@.command,
    {
        &self.command
    }
}

} // verus!
