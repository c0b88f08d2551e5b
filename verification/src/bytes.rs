//! A byte container with two wire forms: base64 text under a text encoding,
//! the bytes themselves under a binary encoding.

use vstd::prelude::*;
use vstd::std_specs::convert::FromSpecImpl;
use base64::DecodeError;
use base64::Engine;
use crate::content::ContentType;
use crate::error::WalleError;

verus! {

/// The decoder's error, carried through as it is.
#[verifier::external_type_specification]
#[verifier::external_body]
pub struct ExDecodeError(DecodeError);

/// The standard base64 text, with padding, of a byte sequence.
pub uninterp spec fn base64_text(bytes: Seq<u8>) -> Seq<char>;

/// The bytes that a text denotes in standard base64 with padding, or `None`
/// where the text is no such encoding.
pub uninterp spec fn base64_bytes(text: Seq<char>) -> Option<Seq<u8>>;

/// `Engine::encode` of base64's `STANDARD` engine. The result is the base64
/// text of the input, and that text decodes to the input again. Inputs whose
/// encoded length would not fit are left out: the engine panics on them.
#[verifier::external_body]
fn base64_encode(bytes: &Vec<u8>) -> (text: String)
    requires
        bytes@.len() / 3 * 4 + 4 <= isize::MAX,
    ensures
        text@ == base64_text(bytes@),
        base64_bytes(text@) == Some(bytes@),
{
    base64::engine::general_purpose::STANDARD.encode(bytes)
}

/// `Engine::decode` of base64's `STANDARD` engine. It succeeds exactly on the
/// texts that are a base64 encoding, with the bytes they denote.
#[verifier::external_body]
fn base64_decode(text: &str) -> (decoded: Result<Vec<u8>, DecodeError>)
    ensures
        match decoded {
            Ok(bytes) => base64_bytes(text@) == Some(bytes@),
            Err(_) => base64_bytes(text@) is None,
        },
{
    base64::engine::general_purpose::STANDARD.decode(text)
}

/// A byte container for protocol payloads.
#[derive(Debug, Clone, PartialEq, Eq)]
pub struct OneBotBytes(pub Vec<u8>);

/// A container as it is handed to, or received from, a serializer.
#[derive(Debug, Clone, PartialEq, Eq)]
pub enum WireBytes {
    /// Base64 text, for a text encoding.
    Text(String),
    /// The bytes themselves, for a binary encoding.
    Binary(Vec<u8>),
}

impl View for OneBotBytes {
    type V = Seq<u8>;

    open spec fn view(&self) -> Seq<u8> {
        self.0@
    }
}

impl From<Vec<u8>> for OneBotBytes {
    fn from(v: Vec<u8>) -> (container: Self) {
        OneBotBytes(v)
    }
}

impl FromSpecImpl<Vec<u8>> for OneBotBytes {
    open spec fn obeys_from_spec() -> bool {
        true
    }

    open spec fn from_spec(v: Vec<u8>) -> Self {
        OneBotBytes(v)
    }
}

/// The wire form of a container under an encoding.
pub open spec fn wire_form(bytes: Seq<u8>, content_type: ContentType) -> WireBytesView {
    match content_type {
        ContentType::Json => WireBytesView::Text(base64_text(bytes)),
        ContentType::MsgPack => WireBytesView::Binary(bytes),
    }
}

/// The bytes that a wire form denotes, or `None` for text that is not base64.
pub open spec fn wire_content(wire: WireBytesView) -> Option<Seq<u8>> {
    match wire {
        WireBytesView::Text(text) => base64_bytes(text),
        WireBytesView::Binary(bytes) => Some(bytes),
    }
}

/// What a wire form holds.
pub ghost enum WireBytesView {
    Text(Seq<char>),
    Binary(Seq<u8>),
}

impl View for WireBytes {
    type V = WireBytesView;

    open spec fn view(&self) -> WireBytesView {
        match self {
            WireBytes::Text(text) => WireBytesView::Text(text@),
            WireBytes::Binary(bytes) => WireBytesView::Binary(bytes@),
        }
    }
}

/// The binary scalar that frames `bytes`: a marker, the length in one, two
/// or four bytes, most significant first, and the bytes.
pub open spec fn bin_frame(bytes: Seq<u8>) -> Seq<u8> {
    let n = bytes.len();
    if n <= 0xff {
        seq![0xc4u8, n as u8] + bytes
    } else if n <= 0xffff {
        seq![0xc5u8, (n / 0x100) as u8, (n % 0x100) as u8] + bytes
    } else {
        seq![
            0xc6u8,
            (n / 0x100_0000) as u8,
            (n / 0x1_0000 % 0x100) as u8,
            (n / 0x100 % 0x100) as u8,
            (n % 0x100) as u8,
        ] + bytes
    }
}

/// The bytes that a binary scalar frames, or `None` where `frame` is not
/// exactly one binary scalar.
pub open spec fn bin_payload(frame: Seq<u8>) -> Option<Seq<u8>> {
    if frame.len() >= 2 && frame[0] == 0xc4 && frame.len() == 2 + frame[1] {
        Some(frame.skip(2))
    } else if frame.len() >= 3 && frame[0] == 0xc5 && frame.len() == 3 + frame[1] * 0x100
        + frame[2] {
        Some(frame.skip(3))
    } else if frame.len() >= 5 && frame[0] == 0xc6 && frame.len() == 5 + frame[1] * 0x100_0000
        + frame[2] * 0x1_0000 + frame[3] * 0x100 + frame[4] {
        Some(frame.skip(5))
    } else {
        None
    }
}

/// Framing bytes as a binary scalar and reading the frame back gives the bytes.
pub proof fn lemma_binary_round_trip(bytes: Seq<u8>)
    requires
        bytes.len() <= 0xffff_ffff,
    ensures
        bin_payload(bin_frame(bytes)) == Some(bytes),
{
    let n = bytes.len();
    let frame = bin_frame(bytes);
    if n <= 0xff {
        assert(frame.skip(2) =~= bytes);
    } else if n <= 0xffff {
        assert(frame.skip(3) =~= bytes);
    } else {
        assert(frame.skip(5) =~= bytes);
    }
}

/// The form of a container agrees with the encoding of its envelope: text
/// under the text encoding, bytes under the binary one, and never the other.
pub proof fn lemma_form_follows_encoding(bytes: Seq<u8>, content_type: ContentType)
    ensures
        wire_form(bytes, content_type) is Text <==> content_type == ContentType::Json,
        wire_form(bytes, content_type) is Binary <==> content_type == ContentType::MsgPack,
        content_type == ContentType::MsgPack ==> wire_content(wire_form(bytes, content_type))
            == Some(bytes),
{
}

/// The elements of `source` from `start` on.
pub fn copy_from(source: &[u8], start: usize) -> (copy: Vec<u8>)
    requires
        start <= source@.len(),
    ensures
        copy@ == source@.skip(start as int),
{
    let mut copy: Vec<u8> = Vec::new();
    let mut i: usize = start;
    while i < source.len()
        invariant
            start <= i <= source@.len(),
            copy@ == source@.subrange(start as int, i as int),
        decreases source@.len() - i,
    {
        copy.push(source[i]);
        assert(source@.subrange(start as int, i as int).push(source@[i as int])
            =~= source@.subrange(start as int, i + 1));
        i += 1;
    }
    assert(source@.subrange(start as int, i as int) =~= source@.skip(start as int));
    copy
}

impl OneBotBytes {
    /// A container of a copy of `v`.
    pub fn from_slice(v: &[u8]) -> (container: OneBotBytes)
        ensures
            container@ == v@,
    {
        let copy = copy_from(v, 0);
        assert(v@.skip(0) =~= v@);
        OneBotBytes(copy)
    }

    /// Whether the container is short enough to be written as text.
    pub open spec fn fits_text(&self) -> bool {
        self@.len() / 3 * 4 + 4 <= isize::MAX
    }

    /// The base64 text of the container. Decoding that text gives the
    /// container's bytes again.
    pub fn to_base64(&self) -> (text: String)
        requires
            self.fits_text(),
        ensures
            text@ == base64_text(self@),
            base64_bytes(text@) == Some(self@),
    {
        base64_encode(&self.0)
    }

    /// What `from_base64` makes of the decoder's answer for `text`: the
    /// decoded bytes, or `IllegalBase64` with the text that was refused.
    pub fn from_decoded(
        text: &str,
        decoded: Result<Vec<u8>, DecodeError>,
    ) -> (container: Result<OneBotBytes, WalleError>)
        ensures
            match decoded {
                Ok(bytes) => container matches Ok(c) && c@ == bytes@,
                Err(_) => container matches Err(WalleError::IllegalBase64(refused)) && refused@
                    == text@,
            },
    {
        match decoded {
            Ok(bytes) => Ok(OneBotBytes(bytes)),
            Err(_) => Err(WalleError::IllegalBase64(text.to_owned())),
        }
    }

    /// Reads a container from base64 text. It fails with `IllegalBase64`
    /// exactly on the texts that are not base64.
    pub fn from_base64(text: &str) -> (container: Result<OneBotBytes, WalleError>)
        ensures
            match base64_bytes(text@) {
                Some(bytes) => container matches Ok(c) && c@ == bytes,
                None => container matches Err(WalleError::IllegalBase64(refused)) && refused@
                    == text@,
            },
    {
        OneBotBytes::from_decoded(text, base64_decode(text))
    }

    /// The form in which the container is handed to a serializer that writes
    /// the given encoding: base64 text under the text encoding, the bytes
    /// themselves under the binary one. Either form reads back as the
    /// container's bytes.
    pub fn serialize(&self, content_type: ContentType) -> (wire: WireBytes)
        requires
            content_type == ContentType::Json ==> self.fits_text(),
        ensures
            wire@ == wire_form(self@, content_type),
            wire_content(wire@) == Some(self@),
    {
        match content_type {
            ContentType::Json => WireBytes::Text(self.to_base64()),
            ContentType::MsgPack => WireBytes::Binary(self.0.clone()),
        }
    }

    /// Reads a container from either wire form. Bytes are taken as they are;
    /// text must be base64, else the result is `IllegalBase64`.
    pub fn deserialize(wire: WireBytes) -> (container: Result<OneBotBytes, WalleError>)
        ensures
            match wire_content(wire@) {
                Some(bytes) => container matches Ok(c) && c@ == bytes,
                None => container matches Err(WalleError::IllegalBase64(refused)) && wire@
                    == WireBytesView::Text(refused@),
            },
    {
        match wire {
            WireBytes::Text(text) => OneBotBytes::from_base64(text.as_str()),
            WireBytes::Binary(bytes) => Ok(OneBotBytes(bytes)),
        }
    }

    /// The container framed as one binary scalar, or `None` where it is
    /// longer than such a scalar can say.
    pub fn to_bin_frame(&self) -> (frame: Option<Vec<u8>>)
        ensures
            match frame {
                Some(f) => {
                    &&& self@.len() <= 0xffff_ffff
                    &&& f@ == bin_frame(self@)
                    &&& bin_payload(f@) == Some(self@)
                },
                None => self@.len() > 0xffff_ffff,
            },
    {
        let n: usize = self.0.len();
        let mut frame: Vec<u8> = Vec::new();
        if n <= 0xff {
            frame.push(0xc4u8);
            frame.push(n as u8);
        } else if n <= 0xffff {
            frame.push(0xc5u8);
            frame.push((n / 0x100) as u8);
            frame.push((n % 0x100) as u8);
        } else if n <= 0xffff_ffff {
            frame.push(0xc6u8);
            frame.push((n / 0x100_0000) as u8);
            frame.push((n / 0x1_0000 % 0x100) as u8);
            frame.push((n / 0x100 % 0x100) as u8);
            frame.push((n % 0x100) as u8);
        } else {
            return None;
        }
        frame.extend_from_slice(self.0.as_slice());
        proof {
            assert(frame@ =~= bin_frame(self@));
            lemma_binary_round_trip(self@);
        }
        Some(frame)
    }

    /// Reads a container from the frame of one binary scalar. Anything else
    /// is refused with the message of what was expected; a frame of text is
    /// not read here: its text goes to `from_base64`.
    pub fn from_bin_frame(frame: &[u8]) -> (container: Result<OneBotBytes, WalleError>)
        ensures
            match bin_payload(frame@) {
                Some(bytes) => container matches Ok(c) && c@ == bytes,
                None => container matches Err(WalleError::Other(message)) && message@
                    == expecting_text(),
            },
    {
        let len: usize = frame.len();
        if len >= 2 && frame[0] == 0xc4u8 && len - 2 == frame[1] as usize {
            return Ok(OneBotBytes(copy_from(frame, 2)));
        }
        if len >= 3 && frame[0] == 0xc5u8 && len - 3 == frame[1] as usize * 0x100
            + frame[2] as usize {
            return Ok(OneBotBytes(copy_from(frame, 3)));
        }
        if len >= 5 && frame[0] == 0xc6u8 && (len - 5) as u64 == frame[1] as u64 * 0x100_0000
            + frame[2] as u64 * 0x1_0000 + frame[3] as u64 * 0x100 + frame[4] as u64 {
            return Ok(OneBotBytes(copy_from(frame, 5)));
        }
        Err(WalleError::Other(expecting()))
    }
}

/// What a reader of containers says it expects.
pub open spec fn expecting_text() -> Seq<char> {
    "expect json base64 or msgpack bytes"@
}

/// What a reader of containers says it expects.
pub fn expecting() -> (text: String)
    ensures
        text@ == expecting_text(),
{
    "expect json base64 or msgpack bytes".to_owned()
}

} // verus!
