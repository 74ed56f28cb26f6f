use vstd::prelude::*;
use vstd::string::*;

verus! {

/// The source prefix of a message.
pub struct IrcMessagePrefix(pub String);

impl View for IrcMessagePrefix {
    type V = Seq<char>;

    open spec fn view(&self) -> Seq<char> {
        self.0@
    }
}

impl IrcMessagePrefix {
    /// `:` and the prefix.
    pub fn to_string(&self) -> (r: String)
        ensures
            r@ == seq![':'] + self@,
    {
        let mut buf = ":".to_owned();
        buf.append(self.0.as_str());
        proof {
            reveal_strlit(":");
        }
        buf
    }
}

} // verus!
