use vstd::prelude::*;
use vstd::string::*;

use crate::protocol::{
    ERR_NICKNAMEINUSE, ERR_NOSUCHCHANNEL, ERR_NOTONCHANNEL, RPL_ENDOFMOTD, RPL_ENDOFNAMES, RPL_MOTD,
    RPL_MOTDSTART, RPL_NAMREPLY, RPL_TOPIC, RPL_WELCOME, RPL_YOURHOST,
};

verus! {

/// What stands in the command position of a reply: a numeric code or a command name.
pub enum CommandType {
    Empty,
    Code(&'static str),
    Name(&'static str),
}

/// The abstract form of a `CommandType`.
pub enum CommandView {
    Empty,
    Code(Seq<char>),
    Name(Seq<char>),
}

impl View for CommandType {
    type V = CommandView;

    open spec fn view(&self) -> CommandView {
        match *self {
            CommandType::Empty => CommandView::Empty,
            CommandType::Code(c) => CommandView::Code(c@),
            CommandType::Name(n) => CommandView::Name(n@),
        }
    }
}

/// Entry point of the reply builder.
pub struct Respond;

impl Respond {
    /// A builder for a reply from `host` to `target`.
    pub fn to(host: &str, target: &str) -> (r: ResponseBuilder)
        ensures
            r@ == ResponseView::fresh(host@, target@),
    {
        ResponseBuilder::new(host, target)
    }
}

/// The abstract content of a reply under construction.
pub struct ResponseView {
    pub source: Seq<char>,
    pub target: Seq<char>,
    pub command: CommandView,
    pub params: Seq<Seq<char>>,
    pub trailing: bool,
}

impl ResponseView {
    pub open spec fn fresh(source: Seq<char>, target: Seq<char>) -> ResponseView {
        ResponseView {
            source,
            target,
            command: CommandView::Empty,
            params: Seq::empty(),
            trailing: true,
        }
    }

    /// The wire line this reply stands for, without the line terminator.
    pub open spec fn text(self) -> Seq<char> {
        reply_line(self.source, self.command, self.target, self.params, self.trailing)
    }
}

/// `" " + p` for each parameter, in order.
pub open spec fn spaced(ps: Seq<Seq<char>>) -> Seq<char>
    decreases ps.len(),
{
    if ps.len() == 0 {
        Seq::empty()
    } else {
        spaced(ps.drop_last()) + seq![' '] + ps.last()
    }
}

/// The parameters of a reply: each after one space, the last one behind `:` when
/// `trailing` is set.
pub open spec fn params_text(ps: Seq<Seq<char>>, trailing: bool) -> Seq<char> {
    if ps.len() == 0 {
        Seq::empty()
    } else if trailing {
        spaced(ps.drop_last()) + seq![' ', ':'] + ps.last()
    } else {
        spaced(ps)
    }
}

/// `:<source> <code> <target> <params>` for a numeric, `:<source> <name> <params>`
/// for a named command.
pub open spec fn reply_line(
    source: Seq<char>,
    command: CommandView,
    target: Seq<char>,
    params: Seq<Seq<char>>,
    trailing: bool,
) -> Seq<char> {
    let head = match command {
        CommandView::Code(c) => seq![':'] + source + seq![' '] + c + seq![' '] + target,
        CommandView::Name(n) => seq![':'] + source + seq![' '] + n,
        CommandView::Empty => seq![':'] + source + seq![' '],
    };
    head + params_text(params, trailing)
}

pub open spec fn strings_view(v: Seq<String>) -> Seq<Seq<char>> {
    v.map_values(|p: String| p@)
}

/// Builds one reply line.
pub struct ResponseBuilder {
    source: String,
    target: String,
    command: CommandType,
    parameters: Vec<String>,
    auto_insert_trailing_separator: bool,
}

impl View for ResponseBuilder {
    type V = ResponseView;

    closed spec fn view(&self) -> ResponseView {
        ResponseView {
            source: self.source@,
            target: self.target@,
            command: self.command@,
            params: strings_view(self.parameters@),
            trailing: self.auto_insert_trailing_separator,
        }
    }
}

proof fn lemma_strings_view_push(v: Seq<String>, s: String)
    ensures
        strings_view(v.push(s)) == strings_view(v).push(s@),
{
    assert(strings_view(v.push(s)) =~= strings_view(v).push(s@));
}

impl ResponseBuilder {
    /// Creates a new builder from `source` (usually the host) to `target` (usually a
    /// nickname or a channel name).
    pub fn new(source: &str, target: &str) -> (r: Self)
        ensures
            r@ == ResponseView::fresh(source@, target@),
    {
        let r = ResponseBuilder {
            source: source.to_owned(),
            target: target.to_owned(),
            command: CommandType::Empty,
            parameters: Vec::new(),
            auto_insert_trailing_separator: true,
        };
        assert(r@.params =~= Seq::<Seq<char>>::empty());
        r
    }

    fn push_param(&mut self, p: String)
        ensures
            final(self)@ == (ResponseView { params: old(self)@.params.push(p@), ..old(self)@ }),
    {
        proof {
            lemma_strings_view_push(self.parameters@, p);
        }
        self.parameters.push(p);
    }

    /// RPL_WELCOME with `message` as trailing parameter.
    pub fn welcome(self, message: String) -> (r: Self)
        ensures
            r@ == (ResponseView {
                command: CommandView::Code(RPL_WELCOME@),
                params: self@.params.push(message@),
                ..self@
            }),
    {
        let mut s = self;
        s.command = CommandType::Code(RPL_WELCOME);
        s.push_param(message);
        s
    }

    /// RPL_YOURHOST with `message` as trailing parameter.
    pub fn your_host(self, message: String) -> (r: Self)
        ensures
            r@ == (ResponseView {
                command: CommandView::Code(RPL_YOURHOST@),
                params: self@.params.push(message@),
                ..self@
            }),
    {
        let mut s = self;
        s.command = CommandType::Code(RPL_YOURHOST);
        s.push_param(message);
        s
    }

    /// RPL_MOTDSTART: `:<source> Message of the day`.
    pub fn motd_start(self) -> (r: Self)
        ensures
            r@ == (ResponseView {
                command: CommandView::Code(RPL_MOTDSTART@),
                params: self@.params.push(seq![':'] + self@.source + " Message of the day"@),
                trailing: false,
                ..self@
            }),
    {
        let mut s = self;
        s.auto_insert_trailing_separator = false;
        s.command = CommandType::Code(RPL_MOTDSTART);
        let mut p = ":".to_owned();
        p.append(s.source.as_str());
        p.append(" Message of the day");
        proof {
            reveal_strlit(":");
            assert(p@ =~= seq![':'] + s.source@ + " Message of the day"@);
        }
        s.push_param(p);
        s
    }

    /// RPL_MOTD: one line of the message of the day, `:- <message>`.
    pub fn motd(self, message: &str) -> (r: Self)
        ensures
            r@ == (ResponseView {
                command: CommandView::Code(RPL_MOTD@),
                params: self@.params.push(seq![':', '-', ' '] + message@),
                trailing: false,
                ..self@
            }),
    {
        let mut s = self;
        s.auto_insert_trailing_separator = false;
        s.command = CommandType::Code(RPL_MOTD);
        let mut p = ":- ".to_owned();
        p.append(message);
        proof {
            reveal_strlit(":- ");
            assert(p@ =~= seq![':', '-', ' '] + message@);
        }
        s.push_param(p);
        s
    }

    /// RPL_ENDOFMOTD.
    pub fn motd_end(self) -> (r: Self)
        ensures
            r@ == (ResponseView {
                command: CommandView::Code(RPL_ENDOFMOTD@),
                params: self@.params.push("End of MOTD."@),
                ..self@
            }),
    {
        let mut s = self;
        s.command = CommandType::Code(RPL_ENDOFMOTD);
        s.push_param("End of MOTD.".to_owned());
        s
    }

    /// RPL_NAMREPLY: `<channel_mode> <channel> :<user_mode><nickname>`.
    pub fn names_reply(self, channel_mode: &str, channel: &str, user_mode: &str, nickname: &str) -> (r:
        Self)
        ensures
            r@ == (ResponseView {
                command: CommandView::Code(RPL_NAMREPLY@),
                params: self@.params.push(channel_mode@).push(channel@).push(user_mode@ + nickname@),
                ..self@
            }),
    {
        let mut s = self;
        s.command = CommandType::Code(RPL_NAMREPLY);
        s.push_param(channel_mode.to_owned());
        s.push_param(channel.to_owned());
        let mut p = user_mode.to_owned();
        p.append(nickname);
        s.push_param(p);
        s
    }

    /// RPL_ENDOFNAMES for `channel`.
    pub fn names_end(self, channel: &str) -> (r: Self)
        ensures
            r@ == (ResponseView {
                command: CommandView::Code(RPL_ENDOFNAMES@),
                params: self@.params.push(channel@).push("End of /NAMES list."@),
                ..self@
            }),
    {
        let mut s = self;
        s.command = CommandType::Code(RPL_ENDOFNAMES);
        s.push_param(channel.to_owned());
        s.push_param("End of /NAMES list.".to_owned());
        s
    }

    /// PRIVMSG to the builder's target, with `message` as trailing parameter.
    pub fn privmsg(self, message: String) -> (r: Self)
        ensures
            r@ == (ResponseView {
                command: CommandView::Name("PRIVMSG"@),
                params: self@.params.push(self@.target).push(message@),
                ..self@
            }),
    {
        let mut s = self;
        s.command = CommandType::Name("PRIVMSG");
        let t = s.target.clone();
        s.push_param(t);
        s.push_param(message);
        s
    }

    /// JOIN of `channel`; the channel name is not a trailing parameter.
    pub fn join(self, channel: String) -> (r: Self)
        ensures
            r@ == (ResponseView {
                command: CommandView::Name("JOIN"@),
                params: self@.params.push(channel@),
                trailing: false,
                ..self@
            }),
    {
        let mut s = self;
        s.auto_insert_trailing_separator = false;
        s.command = CommandType::Name("JOIN");
        s.push_param(channel);
        s
    }

    /// PART of `channel` with `message` as reason.
    pub fn part(self, channel: String, message: String) -> (r: Self)
        ensures
            r@ == (ResponseView {
                command: CommandView::Name("PART"@),
                params: self@.params.push(channel@).push(message@),
                ..self@
            }),
    {
        let mut s = self;
        s.command = CommandType::Name("PART");
        s.push_param(channel);
        s.push_param(message);
        s
    }

    /// RPL_TOPIC: `<channel> :<topic>`.
    pub fn topic(self, channel: String, topic: String) -> (r: Self)
        ensures
            r@ == (ResponseView {
                command: CommandView::Code(RPL_TOPIC@),
                params: self@.params.push(channel@).push(topic@),
                ..self@
            }),
    {
        let mut s = self;
        s.command = CommandType::Code(RPL_TOPIC);
        s.push_param(channel);
        s.push_param(topic);
        s
    }

    /// PONG: `<source> :<challenge>`.
    pub fn pong(self, challenge: String) -> (r: Self)
        ensures
            r@ == (ResponseView {
                command: CommandView::Name("PONG"@),
                params: self@.params.push(self@.source).push(challenge@),
                ..self@
            }),
    {
        let mut s = self;
        s.command = CommandType::Name("PONG");
        let src = s.source.clone();
        s.push_param(src);
        s.push_param(challenge);
        s
    }

    /// ERR_NICKNAMEINUSE for `nick`.
    pub fn err_nickname_in_use(self, nick: String) -> (r: Self)
        ensures
            r@ == (ResponseView {
                command: CommandView::Code(ERR_NICKNAMEINUSE@),
                params: self@.params.push(nick@).push("Nickname is already in use."@),
                ..self@
            }),
    {
        let mut s = self;
        s.command = CommandType::Code(ERR_NICKNAMEINUSE);
        s.push_param(nick);
        s.push_param("Nickname is already in use.".to_owned());
        s
    }

    /// ERR_NOTONCHANNEL for `channel_name`.
    pub fn err_not_on_channel(self, channel_name: String) -> (r: Self)
        ensures
            r@ == (ResponseView {
                command: CommandView::Code(ERR_NOTONCHANNEL@),
                params: self@.params.push(channel_name@).push("You're not on that channel."@),
                ..self@
            }),
    {
        let mut s = self;
        s.command = CommandType::Code(ERR_NOTONCHANNEL);
        s.push_param(channel_name);
        s.push_param("You're not on that channel.".to_owned());
        s
    }

    /// ERR_NOSUCHCHANNEL for `channel_name`.
    pub fn err_no_such_channel(self, channel_name: String) -> (r: Self)
        ensures
            r@ == (ResponseView {
                command: CommandView::Code(ERR_NOSUCHCHANNEL@),
                params: self@.params.push(channel_name@).push("No such channel."@),
                ..self@
            }),
    {
        let mut s = self;
        s.command = CommandType::Code(ERR_NOSUCHCHANNEL);
        s.push_param(channel_name);
        s.push_param("No such channel.".to_owned());
        s
    }

    /// The wire line of this reply, without the line terminator.
    pub fn to_string(&self) -> (r: String)
        requires
            !(self@.command is Empty),
        ensures
            r@ == self@.text(),
    {
        let mut buf = ":".to_owned();
        buf.append(self.source.as_str());
        buf.append(" ");
        match self.command {
            CommandType::Code(code) => {
                buf.append(code);
                buf.append(" ");
                buf.append(self.target.as_str());
            },
            CommandType::Name(name) => {
                buf.append(name);
            },
            CommandType::Empty => {},
        }
        proof {
            reveal_strlit(":");
            reveal_strlit(" ");
        }
        let ghost head = buf@;
        let ghost ps = self@.params;
        let n = self.parameters.len();
        if n > 0 {
            let mut i: usize = 0;
            while i < n - 1
                invariant
                    n == self.parameters@.len(),
                    ps == strings_view(self.parameters@),
                    0 <= i <= n - 1,
                    buf@ == head + spaced(ps.take(i as int)),
                decreases n - 1 - i,
            {
                buf.append(" ");
                buf.append(self.parameters[i].as_str());
                proof {
                    reveal_strlit(" ");
                    assert(ps.take(i + 1).drop_last() =~= ps.take(i as int));
                    assert(buf@ =~= head + spaced(ps.take(i + 1)));
                }
                i = i + 1;
            }
            if self.auto_insert_trailing_separator {
                buf.append(" :");
                proof {
                    reveal_strlit(" :");
                }
            } else {
                buf.append(" ");
            }
            buf.append(self.parameters[n - 1].as_str());
            proof {
                assert(ps.drop_last() =~= ps.take(n - 1));
                assert(ps =~= ps.take(n as int));
                assert(ps.take(n as int).drop_last() =~= ps.take(n - 1));
            }
        } else {
            assert(params_text(ps, self@.trailing) =~= Seq::<char>::empty());
        }
        assert(buf@ =~= self@.text());
        buf
    }
}

} // verus!
