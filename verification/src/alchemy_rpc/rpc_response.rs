use vstd::prelude::*;

verus! {

/// The envelope of a reply, as far as it is read: its result.
#[derive(Debug)]
pub struct RpcResponse {
    pub result: String,
}

/// A text without the prefix `0x`, if it has one.
pub open spec fn strip_0x(text: Seq<char>) -> Seq<char> {
    if text.len() >= 2 && text[0] == '0' && text[1] == 'x' {
        text.subrange(2, text.len() as int)
    } else {
        text
    }
}

impl RpcResponse {
    /// The result without its prefix `0x`, if it has one.
    pub fn result_strip_0x(&self) -> (stripped: String)
        ensures
            stripped@ == strip_0x(self.result@),
    {
        let text = self.result.as_str();
        let len = text.unicode_len();
        if len >= 2 && text.get_char(0) == '0' && text.get_char(1) == 'x' {
            text.substring_char(2, len).to_owned()
        } else {
            self.result.clone()
        }
    }
}

} // verus!
