//! The wire encodings of an envelope.

use vstd::prelude::*;

verus! {

/// The encoding in which an envelope travels.
#[derive(Debug, Clone, Copy, PartialEq, Eq, Structural)]
pub enum ContentType {
    /// Text based: bytes travel as base64 text.
    Json,
    /// Binary based: bytes travel as they are.
    MsgPack,
}

impl ContentType {
    /// The encoding that a serializer writes: the text one where its output
    /// is text, the binary one otherwise.
    pub fn for_serializer(writes_text: bool) -> (content_type: ContentType)
        ensures
            content_type == if writes_text {
                ContentType::Json
            } else {
                ContentType::MsgPack
            },
    {
        if writes_text {
            ContentType::Json
        } else {
            ContentType::MsgPack
        }
    }
}

} // verus!
