use vstd::prelude::*;

use crate::channel::opt_view;
use crate::response::strings_view;
use crate::text::{split, split_on, str_eq};

verus! {

/// Why a line could not be parsed.
#[derive(Debug, Clone, Copy, PartialEq, Eq)]
pub enum ParseError {
    /// The line holds no command.
    NoCommand,
    /// A parameter that the command requires is missing.
    MissingParameter,
}

/// A parsed command.
pub enum IrcMessageCommand {
    /// A command this server does not handle.
    Unknown,
    /// NICK: the nickname.
    Nick(String),
    /// USER: the username and the realname.
    User(String, Option<String>),
    /// JOIN: the channel names and the channel keys.
    Join(Vec<String>, Option<Vec<String>>),
    /// PART: the channel names and the reason.
    Part(Vec<String>, Option<String>),
    /// WHO: the channel name.
    Who(String),
    /// PRIVMSG: the target and the message.
    Privmsg(String, String),
    /// PING: the challenge.
    Ping(String),
}

/// The abstract form of an `IrcMessageCommand`.
pub enum CommandMessage {
    Unknown,
    Nick(Seq<char>),
    User(Seq<char>, Option<Seq<char>>),
    Join(Seq<Seq<char>>, Option<Seq<Seq<char>>>),
    Part(Seq<Seq<char>>, Option<Seq<char>>),
    Who(Seq<char>),
    Privmsg(Seq<char>, Seq<char>),
    Ping(Seq<char>),
}

impl View for IrcMessageCommand {
    type V = CommandMessage;

    open spec fn view(&self) -> CommandMessage {
        match self {
            IrcMessageCommand::Unknown => CommandMessage::Unknown,
            IrcMessageCommand::Nick(n) => CommandMessage::Nick(n@),
            IrcMessageCommand::User(u, r) => CommandMessage::User(u@, opt_view(*r)),
            IrcMessageCommand::Join(c, k) => CommandMessage::Join(
                strings_view(c@),
                match k {
                    Some(k) => Some(strings_view(k@)),
                    None => None,
                },
            ),
            IrcMessageCommand::Part(c, m) => CommandMessage::Part(strings_view(c@), opt_view(*m)),
            IrcMessageCommand::Who(c) => CommandMessage::Who(c@),
            IrcMessageCommand::Privmsg(t, m) => CommandMessage::Privmsg(t@, m@),
            IrcMessageCommand::Ping(c) => CommandMessage::Ping(c@),
        }
    }
}

/// The command that `name` and `params` make.
pub open spec fn command_of(name: Seq<char>, params: Seq<Seq<char>>) -> Result<
    CommandMessage,
    ParseError,
> {
    let missing = Err(ParseError::MissingParameter);
    if name == "NICK"@ {
        if params.len() < 1 {
            missing
        } else {
            Ok(CommandMessage::Nick(params[0]))
        }
    } else if name == "USER"@ {
        if params.len() < 1 {
            missing
        } else {
            Ok(
                CommandMessage::User(
                    params[0],
                    if params.len() >= 4 {
                        Some(params[3])
                    } else {
                        None
                    },
                ),
            )
        }
    } else if name == "JOIN"@ {
        if params.len() < 1 {
            missing
        } else {
            Ok(
                CommandMessage::Join(
                    split_on(params[0], ','),
                    if params.len() >= 2 {
                        Some(split_on(params[1], ','))
                    } else {
                        None
                    },
                ),
            )
        }
    } else if name == "PART"@ {
        if params.len() < 1 {
            missing
        } else {
            Ok(
                CommandMessage::Part(
                    split_on(params[0], ','),
                    if params.len() >= 2 {
                        Some(params[1])
                    } else {
                        None
                    },
                ),
            )
        }
    } else if name == "PRIVMSG"@ {
        if params.len() < 2 {
            missing
        } else {
            Ok(CommandMessage::Privmsg(params[0], params[1]))
        }
    } else if name == "WHO"@ {
        if params.len() < 1 {
            missing
        } else {
            Ok(CommandMessage::Who(params[0]))
        }
    } else if name == "PING"@ {
        if params.len() < 1 {
            missing
        } else {
            Ok(CommandMessage::Ping(params[0]))
        }
    } else {
        Ok(CommandMessage::Unknown)
    }
}

impl IrcMessageCommand {
    /// The command that `name` and `params` make; a missing required parameter is an error.
    pub fn from_parts(name: &str, params: &Vec<String>) -> (r: Result<IrcMessageCommand, ParseError>)
        ensures
            r matches Ok(c) ==> command_of(name@, strings_view(params@)) == Ok::<
                CommandMessage,
                ParseError,
            >(c@),
            r matches Err(e) ==> command_of(name@, strings_view(params@)) == Err::<
                CommandMessage,
                ParseError,
            >(e),
    {
        let n = params.len();
        if str_eq(name, "NICK") {
            if n < 1 {
                return Err(ParseError::MissingParameter);
            }
            Ok(IrcMessageCommand::Nick(params[0].clone()))
        } else if str_eq(name, "USER") {
            if n < 1 {
                return Err(ParseError::MissingParameter);
            }
            let realname = if n >= 4 {
                Some(params[3].clone())
            } else {
                None
            };
            Ok(IrcMessageCommand::User(params[0].clone(), realname))
        } else if str_eq(name, "JOIN") {
            if n < 1 {
                return Err(ParseError::MissingParameter);
            }
            let keys = if n >= 2 {
                Some(split(params[1].as_str(), ','))
            } else {
                None
            };
            assert(strings_view(params@)[0] == params@[0]@);
            if n >= 2 {
                assert(strings_view(params@)[1] == params@[1]@);
            }
            Ok(IrcMessageCommand::Join(split(params[0].as_str(), ','), keys))
        } else if str_eq(name, "PART") {
            if n < 1 {
                return Err(ParseError::MissingParameter);
            }
            let message = if n >= 2 {
                Some(params[1].clone())
            } else {
                None
            };
            Ok(IrcMessageCommand::Part(split(params[0].as_str(), ','), message))
        } else if str_eq(name, "PRIVMSG") {
            if n < 2 {
                return Err(ParseError::MissingParameter);
            }
            Ok(IrcMessageCommand::Privmsg(params[0].clone(), params[1].clone()))
        } else if str_eq(name, "WHO") {
            if n < 1 {
                return Err(ParseError::MissingParameter);
            }
            Ok(IrcMessageCommand::Who(params[0].clone()))
        } else if str_eq(name, "PING") {
            if n < 1 {
                return Err(ParseError::MissingParameter);
            }
            Ok(IrcMessageCommand::Ping(params[0].clone()))
        } else {
            Ok(IrcMessageCommand::Unknown)
        }
    }
}

} // verus!
