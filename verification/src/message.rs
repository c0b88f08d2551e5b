//! Messages: sequences of typed segments.

use vstd::prelude::*;
use vstd::string::StringExecFns;
use crate::value::{ExtendedMap, ExtendedValue};

verus! {

/// One segment of a message: its type and its data.
#[derive(Debug, Clone, PartialEq)]
pub struct MessageSegment {
    pub ty: String,
    pub data: ExtendedMap,
}

/// A message: its segments in order.
pub type Message = Vec<MessageSegment>;

impl MessageSegment {
    /// Whether the segment is plain text with exactly that content.
    pub open spec fn is_text_of(&self, text: Seq<char>) -> bool {
        &&& self.ty@ == "text"@
        &&& self.data.entries@.len() == 1
        &&& self.data.entries@[0].0@ == "text"@
        &&& self.data.entries@[0].1 matches ExtendedValue::Str(content) && content@ == text
    }

    /// A segment of plain text.
    pub fn text(text: String) -> (segment: MessageSegment)
        ensures
            segment.is_text_of(text@),
    {
        let mut data = ExtendedMap::new();
        data.push(String::from_str("text"), ExtendedValue::Str(text));
        MessageSegment { ty: String::from_str("text"), data }
    }
}

/// The message that a bare string stands for: one segment of plain text.
pub fn message_of_text(text: &str) -> (message: Message)
    ensures
        message@.len() == 1,
        message@[0].is_text_of(text@),
{
    let mut message: Vec<MessageSegment> = Vec::new();
    message.push(MessageSegment::text(text.to_owned()));
    message
}

/// The message that a single segment stands for.
pub fn message_of_segment(segment: MessageSegment) -> (message: Message)
    ensures
        message@ == seq![segment],
{
    let mut message: Vec<MessageSegment> = Vec::new();
    message.push(segment);
    assert(message@ =~= seq![segment]);
    message
}

} // verus!
