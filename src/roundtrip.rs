use vstd::prelude::*;

use crate::parser::{message_parts, params_of, strip_eol, trailing_at, trailing_from, MessageParts};
use crate::response::{params_text, reply_line, spaced, CommandView};
use crate::tags::join_with;
use crate::text::{after, find_from, nonempty, split_on};

verus! {

/// `c` does not occur in `s`.
pub open spec fn free_of(s: Seq<char>, c: char) -> bool {
    forall|i: int| 0 <= i < s.len() ==> s[i] != c
}

/// A parameter that can stand before the trailing one: not empty, without spaces, not
/// starting with `:`.
pub open spec fn middle_param(p: Seq<char>) -> bool {
    p.len() > 0 && p[0] != ':' && free_of(p, ' ')
}

pub proof fn lemma_find_from_at(s: Seq<char>, c: char, from: int, k: int)
    requires
        0 <= from <= k <= s.len(),
        k == s.len() || s[k] == c,
        forall|j: int| from <= j < k ==> s[j] != c,
    ensures
        find_from(s, c, from) == k,
    decreases k - from,
{
    if from < k {
        lemma_find_from_at(s, c, from + 1, k);
    }
}

pub proof fn lemma_trailing_from_at(s: Seq<char>, from: int, k: int)
    requires
        0 <= from <= k < s.len(),
        trailing_at(s, k),
        forall|j: int| from <= j < k ==> !trailing_at(s, j),
    ensures
        trailing_from(s, from) == k,
    decreases k - from,
{
    if from < k {
        lemma_trailing_from_at(s, from + 1, k);
    }
}

/// Appending text without the separator extends the last piece.
pub proof fn lemma_split_on_append(a: Seq<char>, b: Seq<char>, d: char)
    requires
        free_of(b, d),
    ensures
        split_on(a + b, d) == split_on(a, d).update(
            split_on(a, d).len() - 1,
            split_on(a, d).last() + b,
        ),
    decreases b.len(),
{
    crate::text::lemma_split_on_len(a, d);
    let r = split_on(a, d);
    if b.len() == 0 {
        assert(a + b =~= a);
        assert(r.last() + b =~= r.last());
        assert(r.update(r.len() - 1, r.last() + b) =~= r);
    } else {
        let b0 = b.drop_last();
        lemma_split_on_append(a, b0, d);
        assert((a + b).drop_last() =~= a + b0);
        assert((a + b).last() == b.last());
        let r0 = split_on(a + b0, d);
        assert(r0.last() =~= r.last() + b0);
        assert(r0.last().push(b.last()) =~= r.last() + b);
        assert(split_on(a + b, d) =~= r.update(r.len() - 1, r.last() + b));
    }
}

/// Splitting a joined list of pieces without the separator gives the pieces back.
pub proof fn lemma_split_join(ts: Seq<Seq<char>>, d: char)
    requires
        ts.len() >= 1,
        forall|i: int| 0 <= i < ts.len() ==> free_of(#[trigger] ts[i], d),
    ensures
        split_on(join_with(ts, d), d) == ts,
    decreases ts.len(),
{
    if ts.len() == 1 {
        lemma_split_on_append(Seq::empty(), ts[0], d);
        assert(Seq::<char>::empty() + ts[0] =~= ts[0]);
        assert(split_on(Seq::<char>::empty(), d) =~= seq![Seq::<char>::empty()]);
        assert(seq![Seq::<char>::empty()].update(0, Seq::<char>::empty() + ts[0]) =~= ts);
    } else {
        let front = ts.drop_last();
        lemma_split_join(front, d);
        let j = join_with(front, d);
        let a = j + seq![d];
        assert(a.drop_last() =~= j);
        assert(split_on(a, d) == split_on(j, d).push(Seq::empty()));
        lemma_split_on_append(a, ts.last(), d);
        assert(Seq::<char>::empty() + ts.last() =~= ts.last());
        assert(front.push(Seq::empty()).update(front.len() as int, ts.last()) =~= ts);
    }
}

/// `nonempty` keeps a list whose pieces are all non-empty.
pub proof fn lemma_nonempty_all(ts: Seq<Seq<char>>)
    requires
        forall|i: int| 0 <= i < ts.len() ==> (#[trigger] ts[i]).len() > 0,
    ensures
        nonempty(ts) == ts,
    decreases ts.len(),
{
    if ts.len() > 0 {
        lemma_nonempty_all(ts.drop_last());
        assert(ts.drop_last().push(ts.last()) =~= ts);
    }
}

pub proof fn lemma_spaced_join(ts: Seq<Seq<char>>)
    requires
        ts.len() >= 1,
    ensures
        spaced(ts) == seq![' '] + join_with(ts, ' '),
    decreases ts.len(),
{
    if ts.len() == 1 {
        assert(ts.drop_last() =~= Seq::<Seq<char>>::empty());
        assert(spaced(ts.drop_last()) == Seq::<char>::empty());
        assert(spaced(ts) =~= seq![' '] + ts[0]);
    } else {
        lemma_spaced_join(ts.drop_last());
        assert(spaced(ts) =~= seq![' '] + join_with(ts, ' '));
    }
}

/// In words joined by spaces, no word starts with `:`, so no trailing parameter starts.
pub proof fn lemma_join_no_trailing(ts: Seq<Seq<char>>)
    requires
        ts.len() >= 1,
        forall|i: int| 0 <= i < ts.len() ==> middle_param(#[trigger] ts[i]),
    ensures
        forall|p: int| 0 <= p < join_with(ts, ' ').len() ==> !trailing_at(join_with(ts, ' '), p),
    decreases ts.len(),
{
    let j = join_with(ts, ' ');
    if ts.len() == 1 {
        assert(middle_param(ts[0]));
        assert forall|p: int| 0 <= p < j.len() implies !trailing_at(j, p) by {
            if p > 0 {
                assert(j[p - 1] == ts[0][p - 1]);
            }
        }
    } else {
        let front = ts.drop_last();
        lemma_join_no_trailing(front);
        let j0 = join_with(front, ' ');
        let last = ts.last();
        assert(middle_param(ts[ts.len() - 1]));
        assert(j == j0 + seq![' '] + last);
        assert forall|p: int| 0 <= p < j.len() implies !trailing_at(j, p) by {
            if p < j0.len() {
                assert(j[p] == j0[p]);
                if p > 0 {
                    assert(j[p - 1] == j0[p - 1]);
                }
                assert(!trailing_at(j0, p));
            } else if p == j0.len() {
                assert(j[p] == ' ');
            } else {
                let q = p - j0.len() - 1;
                assert(j[p] == last[q]);
                if q > 0 {
                    assert(j[p - 1] == last[q - 1]);
                }
            }
        }
    }
}

/// The parameters of a reply whose last parameter is trailing, without their first space,
/// parse back into the same parameters.
pub proof fn lemma_params_round_trip(params: Seq<Seq<char>>)
    requires
        params.len() >= 1,
        forall|k: int| 0 <= k < params.len() - 1 ==> middle_param(#[trigger] params[k]),
    ensures
        params_text(params, true).len() >= 1,
        params_text(params, true)[0] == ' ',
        params_of(params_text(params, true).drop_first()) == params,
{
    let mid = params.drop_last();
    let last = params.last();
    let p = params_text(params, true);
    let body = p.drop_first();
    if mid.len() == 0 {
        assert(spaced(mid) =~= Seq::<char>::empty());
        assert(p =~= seq![' ', ':'] + last);
        assert(body =~= seq![':'] + last);
        lemma_trailing_from_at(body, 0, 0);
        assert(body.subrange(0, 0) =~= Seq::<char>::empty());
        assert(split_on(Seq::<char>::empty(), ' ') =~= seq![Seq::<char>::empty()]);
        let one = seq![Seq::<char>::empty()];
        assert(one.drop_last() =~= Seq::<Seq<char>>::empty());
        assert(one.last().len() == 0);
        assert(nonempty(one.drop_last()) == Seq::<Seq<char>>::empty());
        assert(nonempty(one) =~= Seq::<Seq<char>>::empty());
        assert(body.subrange(1, body.len() as int) =~= last);
        assert(Seq::<Seq<char>>::empty().push(last) =~= params);
    } else {
        assert forall|k: int| 0 <= k < mid.len() implies middle_param(#[trigger] mid[k]) by {
            assert(mid[k] == params[k]);
        }
        lemma_spaced_join(mid);
        let j = join_with(mid, ' ');
        assert(p =~= seq![' '] + j + seq![' ', ':'] + last);
        assert(body =~= j + seq![' ', ':'] + last);
        lemma_join_no_trailing(mid);
        let t = j.len() + 1int;
        assert forall|q: int| 0 <= q < t implies !trailing_at(body, q) by {
            if q < j.len() {
                assert(body[q] == j[q]);
                if q > 0 {
                    assert(body[q - 1] == j[q - 1]);
                }
                assert(!trailing_at(j, q));
            } else {
                assert(body[q] == ' ');
            }
        }
        assert(body[t] == ':' && body[t - 1] == ' ');
        lemma_trailing_from_at(body, 0, t);
        let head = body.subrange(0, t);
        assert(head =~= j + seq![' ']);
        assert(head.drop_last() =~= j);
        assert forall|k: int| 0 <= k < mid.len() implies free_of(#[trigger] mid[k], ' ') by {
            assert(middle_param(mid[k]));
        }
        lemma_split_join(mid, ' ');
        assert(split_on(head, ' ') == mid.push(Seq::empty()));
        assert(mid.push(Seq::<char>::empty()).drop_last() =~= mid);
        assert forall|k: int| 0 <= k < mid.len() implies (#[trigger] mid[k]).len() > 0 by {
            assert(middle_param(mid[k]));
        }
        lemma_nonempty_all(mid);
        assert(nonempty(split_on(head, ' ')) == mid);
        assert(body.subrange(t + 1, body.len() as int) =~= last);
        assert(mid.push(last) =~= params);
    }
}

/// A named reply whose last parameter is trailing, followed by CRLF, parses back into its
/// source as prefix, its command and its parameters.
pub proof fn lemma_parse_reply_round_trip(
    source: Seq<char>,
    target: Seq<char>,
    command: Seq<char>,
    params: Seq<Seq<char>>,
)
    requires
        free_of(source, ' '),
        command.len() > 0,
        free_of(command, ' '),
        params.len() >= 1,
        forall|k: int| 0 <= k < params.len() - 1 ==> middle_param(#[trigger] params[k]),
    ensures
        message_parts(
            reply_line(source, CommandView::Name(command), target, params, true) + seq!['\r', '\n'],
        ) == Some(MessageParts { tags: None, prefix: Some(source), command, params }),
{
    let p = params_text(params, true);
    lemma_params_round_trip(params);
    let text = reply_line(source, CommandView::Name(command), target, params, true);
    assert(text =~= seq![':'] + source + seq![' '] + command + p);
    let line = text + seq!['\r', '\n'];
    assert(strip_eol(line) =~= text);
    let s = text;
    let e1 = source.len() + 1int;
    assert(s[e1] == ' ');
    assert forall|j: int| 0 <= j < e1 implies s[j] != ' ' by {
        if j > 0 {
            assert(s[j] == source[j - 1]);
        }
    }
    lemma_find_from_at(s, ' ', 0, e1);
    assert(s.subrange(1, e1) =~= source);
    let r2 = after(s, e1);
    assert(r2 =~= command + p);
    let e2 = command.len() as int;
    assert(r2[e2] == ' ');
    assert forall|j: int| 0 <= j < e2 implies r2[j] != ' ' by {
        assert(r2[j] == command[j]);
    }
    lemma_find_from_at(r2, ' ', 0, e2);
    assert(r2.subrange(0, e2) =~= command);
    assert(after(r2, e2) =~= p.drop_first());
}

} // verus!
