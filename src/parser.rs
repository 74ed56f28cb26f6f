use vstd::prelude::*;
use vstd::string::*;

use crate::command::{command_of, IrcMessageCommand, ParseError};
use crate::prefix::IrcMessagePrefix;
use crate::request::{IrcMessageRequest, RequestView};
use crate::response::strings_view;
use crate::tag::{IrcMessageTag, TagView};
use crate::tags::IrcMessageTags;
use crate::text::{after, find_char, find_from, nonempty, slice, split, split_on, words};

verus! {

/// The parts of one line.
pub struct MessageParts {
    pub tags: Option<Seq<TagView>>,
    pub prefix: Option<Seq<char>>,
    pub command: Seq<char>,
    pub params: Seq<Seq<char>>,
}

/// `s` without a final CRLF or LF.
pub open spec fn strip_eol(s: Seq<char>) -> Seq<char> {
    if s.len() >= 2 && s[s.len() - 2] == '\r' && s[s.len() - 1] == '\n' {
        s.subrange(0, s.len() - 2)
    } else if s.len() >= 1 && s[s.len() - 1] == '\n' {
        s.subrange(0, s.len() - 1)
    } else {
        s
    }
}

/// `key` or `key=value`: the key up to the first `=`, the value after it.
pub open spec fn tag_of(item: Seq<char>) -> TagView {
    let e = find_from(item, '=', 0);
    (
        item.subrange(0, e),
        if e < item.len() {
            Some(item.subrange(e + 1, item.len() as int))
        } else {
            None
        },
    )
}

/// The tags of a `;`-separated list.
pub open spec fn tags_of(text: Seq<char>) -> Seq<TagView> {
    split_on(text, ';').map_values(|i: Seq<char>| tag_of(i))
}

/// Whether a trailing parameter starts at `p`: a `:` at the start or after a space.
pub open spec fn trailing_at(s: Seq<char>, p: int) -> bool {
    s[p] == ':' && (p == 0 || s[p - 1] == ' ')
}

/// The first index at or after `from` where a trailing parameter starts, or the length.
pub open spec fn trailing_from(s: Seq<char>, from: int) -> int
    decreases s.len() - from,
{
    if from < 0 || from >= s.len() {
        s.len() as int
    } else if trailing_at(s, from) {
        from
    } else {
        trailing_from(s, from + 1)
    }
}

/// The parameters: the words before the trailing parameter, then the trailing parameter
/// (spaces kept) if there is one.
pub open spec fn params_of(body: Seq<char>) -> Seq<Seq<char>> {
    let t = trailing_from(body, 0);
    let ws = nonempty(split_on(body.subrange(0, t), ' '));
    if t < body.len() {
        ws.push(body.subrange(t + 1, body.len() as int))
    } else {
        ws
    }
}

/// `['@' tags ' '] [':' prefix ' '] command params`; none when there is no command.
pub open spec fn message_parts(line: Seq<char>) -> Option<MessageParts> {
    let s = strip_eol(line);
    let has_tags = s.len() > 0 && s[0] == '@';
    let e0 = find_from(s, ' ', 0);
    let r1 = if has_tags {
        after(s, e0)
    } else {
        s
    };
    let has_prefix = r1.len() > 0 && r1[0] == ':';
    let e1 = find_from(r1, ' ', 0);
    let r2 = if has_prefix {
        after(r1, e1)
    } else {
        r1
    };
    let e2 = find_from(r2, ' ', 0);
    if e2 == 0 {
        None
    } else {
        Some(
            MessageParts {
                tags: if has_tags {
                    Some(tags_of(s.subrange(1, e0)))
                } else {
                    None
                },
                prefix: if has_prefix {
                    Some(r1.subrange(1, e1))
                } else {
                    None
                },
                command: r2.subrange(0, e2),
                params: params_of(after(r2, e2)),
            },
        )
    }
}

/// What parsing `line` gives.
pub open spec fn parse_request(line: Seq<char>) -> Result<RequestView, ParseError> {
    match message_parts(line) {
        None => Err(ParseError::NoCommand),
        Some(p) => match command_of(p.command, p.params) {
            Ok(c) => Ok(RequestView { tags: p.tags, prefix: p.prefix, command: c }),
            Err(e) => Err(e),
        },
    }
}

fn strip_line_end(line: &str) -> (r: String)
    ensures
        r@ == strip_eol(line@),
{
    let n = line.unicode_len();
    if n >= 2 && line.get_char(n - 2) == '\r' && line.get_char(n - 1) == '\n' {
        slice(line, 0, n - 2)
    } else if n >= 1 && line.get_char(n - 1) == '\n' {
        slice(line, 0, n - 1)
    } else {
        line.to_owned()
    }
}

fn rest_after(s: &str, at: usize) -> (r: String)
    requires
        at <= s@.len(),
    ensures
        r@ == after(s@, at as int),
{
    let n = s.unicode_len();
    if at < n {
        slice(s, at + 1, n)
    } else {
        String::new()
    }
}

fn parse_tag(item: &str) -> (r: IrcMessageTag)
    ensures
        r@ == tag_of(item@),
{
    let n = item.unicode_len();
    let e = find_char(item, '=', 0);
    let value = if e < n {
        Some(slice(item, e + 1, n))
    } else {
        None
    };
    IrcMessageTag(slice(item, 0, e), value)
}

fn parse_tags(text: &str) -> (r: Vec<IrcMessageTag>)
    ensures
        r@.map_values(|t: IrcMessageTag| t@) == tags_of(text@),
{
    let pieces = split(text, ';');
    let ghost items = strings_view(pieces@);
    let mut tags: Vec<IrcMessageTag> = Vec::new();
    let mut i: usize = 0;
    while i < pieces.len()
        invariant
            items == strings_view(pieces@),
            0 <= i <= pieces@.len(),
            tags@.len() == i,
            tags@.map_values(|t: IrcMessageTag| t@) == items.take(i as int).map_values(
                |s: Seq<char>| tag_of(s),
            ),
        decreases pieces@.len() - i,
    {
        let ghost prev = tags@;
        let tag = parse_tag(pieces[i].as_str());
        tags.push(tag);
        proof {
            let lhs = tags@.map_values(|t: IrcMessageTag| t@);
            let rhs = items.take(i + 1).map_values(|s: Seq<char>| tag_of(s));
            let old_rhs = items.take(i as int).map_values(|s: Seq<char>| tag_of(s));
            assert forall|k: int| 0 <= k < i implies lhs[k] == rhs[k] by {
                assert(prev.map_values(|t: IrcMessageTag| t@)[k] == old_rhs[k]);
            }
            assert(lhs[i as int] == tag@);
            assert(items[i as int] == pieces@[i as int]@);
            assert(lhs =~= rhs);
        }
        i = i + 1;
    }
    assert(items.take(pieces@.len() as int) =~= items);
    tags
}

fn find_trailing(s: &str) -> (r: usize)
    ensures
        r == trailing_from(s@, 0),
        r <= s@.len(),
{
    let n = s.unicode_len();
    let mut i: usize = 0;
    while i < n
        invariant
            n == s@.len(),
            0 <= i <= n,
            trailing_from(s@, i as int) == trailing_from(s@, 0),
        decreases n - i,
    {
        if s.get_char(i) == ':' && (i == 0 || s.get_char(i - 1) == ' ') {
            return i;
        }
        i = i + 1;
    }
    i
}

fn parse_params(body: &str) -> (r: Vec<String>)
    ensures
        strings_view(r@) == params_of(body@),
{
    let n = body.unicode_len();
    let t = find_trailing(body);
    let mut params = words(slice(body, 0, t).as_str());
    if t < n {
        let ghost before = strings_view(params@);
        params.push(slice(body, t + 1, n));
        assert(strings_view(params@) =~= before.push(body@.subrange(t + 1, n as int)));
    }
    params
}

/// The line parser.
pub struct IrcMessageParser;

impl IrcMessageParser {
    /// Parses one line; a trailing CRLF or LF is ignored.
    pub fn parse(line: &str) -> (r: Result<IrcMessageRequest, ParseError>)
        ensures
            r matches Ok(req) ==> parse_request(line@) == Ok::<RequestView, ParseError>(req@),
            r matches Err(e) ==> parse_request(line@) == Err::<RequestView, ParseError>(e),
    {
        let stripped = strip_line_end(line);
        let s = stripped.as_str();
        let n = s.unicode_len();
        let has_tags = n > 0 && s.get_char(0) == '@';
        let mut tags: Option<IrcMessageTags> = None;
        let r1 = if has_tags {
            let e0 = find_char(s, ' ', 1);
            assert(find_from(s@, ' ', 0) == find_from(s@, ' ', 1));
            let list = parse_tags(slice(s, 1, e0).as_str());
            tags = Some(IrcMessageTags::Many(list));
            rest_after(s, e0)
        } else {
            stripped.clone()
        };
        let r1s = r1.as_str();
        let n1 = r1s.unicode_len();
        let has_prefix = n1 > 0 && r1s.get_char(0) == ':';
        let mut prefix: Option<IrcMessagePrefix> = None;
        let r2 = if has_prefix {
            let e1 = find_char(r1s, ' ', 1);
            assert(find_from(r1@, ' ', 0) == find_from(r1@, ' ', 1));
            prefix = Some(IrcMessagePrefix(slice(r1s, 1, e1)));
            rest_after(r1s, e1)
        } else {
            r1.clone()
        };
        let r2s = r2.as_str();
        let e2 = find_char(r2s, ' ', 0);
        if e2 == 0 {
            return Err(ParseError::NoCommand);
        }
        let name = slice(r2s, 0, e2);
        let params = parse_params(rest_after(r2s, e2).as_str());
        match IrcMessageCommand::from_parts(name.as_str(), &params) {
            Ok(command) => Ok(IrcMessageRequest::new(command, prefix, tags)),
            Err(e) => Err(e),
        }
    }
}

} // verus!
