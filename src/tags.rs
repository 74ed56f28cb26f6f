use vstd::prelude::*;
use vstd::string::*;

use crate::tag::{tag_text, IrcMessageTag, TagView};

verus! {

/// `ts` with `sep` between each two.
pub open spec fn join_with(ts: Seq<Seq<char>>, sep: char) -> Seq<char>
    decreases ts.len(),
{
    if ts.len() == 0 {
        Seq::empty()
    } else if ts.len() == 1 {
        ts[0]
    } else {
        join_with(ts.drop_last(), sep) + seq![sep] + ts.last()
    }
}

/// `@` and the tags separated by `;`.
pub open spec fn tags_text(ts: Seq<TagView>) -> Seq<char> {
    seq!['@'] + join_with(ts.map_values(|t: TagView| tag_text(t)), ';')
}

/// The tags of a message.
pub enum IrcMessageTags {
    One(IrcMessageTag),
    Many(Vec<IrcMessageTag>),
}

impl View for IrcMessageTags {
    type V = Seq<TagView>;

    open spec fn view(&self) -> Seq<TagView> {
        match self {
            IrcMessageTags::One(t) => seq![t@],
            IrcMessageTags::Many(v) => v@.map_values(|t: IrcMessageTag| t@),
        }
    }
}

impl IrcMessageTags {
    /// `@` and the tags separated by `;`.
    pub fn to_string(&self) -> (r: String)
        ensures
            r@ == tags_text(self@),
    {
        let mut buf = "@".to_owned();
        proof {
            reveal_strlit("@");
            reveal_strlit(";");
        }
        match self {
            IrcMessageTags::One(tag) => {
                buf.append(tag.to_string().as_str());
                assert(self@.map_values(|t: TagView| tag_text(t)) =~= seq![tag_text(tag@)]);
            },
            IrcMessageTags::Many(tags) => {
                let ghost texts = self@.map_values(|t: TagView| tag_text(t));
                let mut i: usize = 0;
                while i < tags.len()
                    invariant
                        *self == IrcMessageTags::Many(*tags),
                        texts == self@.map_values(|t: TagView| tag_text(t)),
                        0 <= i <= tags@.len(),
                        ";"@ == seq![';'],
                        buf@ == seq!['@'] + join_with(texts.take(i as int), ';'),
                    decreases tags@.len() - i,
                {
                    if i > 0 {
                        buf.append(";");
                    }
                    buf.append(tags[i].to_string().as_str());
                    proof {
                        assert(texts.take(i + 1).drop_last() =~= texts.take(i as int));
                        if i == 0 {
                            assert(texts.take(1)[0] == texts[0]);
                        }
                        assert(buf@ =~= seq!['@'] + join_with(texts.take(i + 1), ';'));
                    }
                    i = i + 1;
                }
                assert(texts.take(tags@.len() as int) =~= texts);
            },
        }
        buf
    }
}

} // verus!
