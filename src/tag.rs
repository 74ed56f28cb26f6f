use vstd::prelude::*;
use vstd::string::*;

use crate::channel::opt_view;

verus! {

/// A message tag: its key and optional value.
pub type TagView = (Seq<char>, Option<Seq<char>>);

/// `key` or `key=value`.
pub open spec fn tag_text(t: TagView) -> Seq<char> {
    match t.1 {
        Some(v) => t.0 + seq!['='] + v,
        None => t.0,
    }
}

/// One message tag.
pub struct IrcMessageTag(pub String, pub Option<String>);

impl View for IrcMessageTag {
    type V = TagView;

    open spec fn view(&self) -> TagView {
        (self.0@, opt_view(self.1))
    }
}

impl IrcMessageTag {
    /// `key` or `key=value`.
    pub fn to_string(&self) -> (r: String)
        ensures
            r@ == tag_text(self@),
    {
        let mut buf = self.0.clone();
        match &self.1 {
            Some(v) => {
                buf.append("=");
                buf.append(v.as_str());
                proof {
                    reveal_strlit("=");
                }
            },
            None => {},
        }
        buf
    }
}

} // verus!
