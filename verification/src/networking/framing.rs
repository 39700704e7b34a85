//! The wire format: one tag byte for the kind, then the text as UTF-8.
//!
//! A frame carries no length and no delimiter; one write is taken to arrive as
//! one read.

use super::MessageType;
use super::kind_of_tag;
use vstd::prelude::*;
use vstd::slice::slice_subrange;
use vstd::string::StrSliceExecFns;
use vstd::utf8::decode_utf8;
use vstd::utf8::encode_utf8;
use vstd::utf8::valid_utf8;

verus! {

/// The tag byte of a frame that stands for no kind.
#[derive(Debug, PartialEq, Eq, Copy, Clone, Structural)]
pub struct UnknownKind {
    pub byte: u8,
}

/// What `String::from_utf8_lossy` makes of `bytes`.
pub uninterp spec fn lossy_text(bytes: Seq<u8>) -> Seq<char>;

/// The text that a payload is read as: its decoding where it is valid UTF-8,
/// and otherwise the lossy reading, in which each invalid sequence has become
/// a replacement character.
pub open spec fn payload_text(bytes: Seq<u8>) -> Seq<char> {
    if valid_utf8(bytes) {
        decode_utf8(bytes)
    } else {
        lossy_text(bytes)
    }
}

/// The frame for a message of the given kind and text.
pub open spec fn frame_bytes(kind: MessageType, text: Seq<char>) -> Seq<u8> {
    seq![kind.tag()] + encode_utf8(text)
}

/// What a frame decodes to, or the tag byte that stands for no kind.
pub open spec fn frame_content(bytes: Seq<u8>) -> Result<(MessageType, Seq<char>), UnknownKind>
    recommends
        bytes.len() > 0,
{
    match kind_of_tag(bytes[0]) {
        Some(kind) => Ok((kind, payload_text(bytes.skip(1)))),
        None => Err(UnknownKind { byte: bytes[0] }),
    }
}

/// The view of what a frame was decoded to.
pub open spec fn content_view(content: Result<(MessageType, String), UnknownKind>) -> Result<
    (MessageType, Seq<char>),
    UnknownKind,
> {
    match content {
        Ok((kind, text)) => Ok((kind, text@)),
        Err(unknown) => Err(unknown),
    }
}

/// `String::from_utf8_lossy`: never fails; bytes that are valid UTF-8 come
/// back as the string they encode, and the result is a function of the bytes
/// alone.
#[verifier::external_body]
fn text_from_utf8_lossy(bytes: &[u8]) -> (text: String)
    ensures
        text@ == lossy_text(bytes@),
        valid_utf8(bytes@) ==> text@ == decode_utf8(bytes@),
{
    String::from_utf8_lossy(bytes).into_owned()
}

/// Builds the frame for a message: the tag byte, then the text's UTF-8 bytes.
pub fn encode(message_type: MessageType, text: &str) -> (frame: Vec<u8>)
    ensures
        frame@ == frame_bytes(message_type, text@),
{
    let mut frame: Vec<u8> = Vec::new();
    frame.push(message_type.to_u8());
    let mut payload = text.as_bytes_vec();
    frame.append(&mut payload);
    frame
}

/// Splits a frame into its kind and text. The frame is refused exactly when
/// its first byte stands for no kind; the error then carries that byte. Text
/// that is not valid UTF-8 is no reason to refuse: it is read with each
/// invalid sequence replaced.
pub fn decode(bytes: &[u8]) -> (content: Result<(MessageType, String), UnknownKind>)
    requires
        bytes@.len() > 0,
    ensures
        content_view(content) == frame_content(bytes@),
        content is Err <==> bytes@[0] > 3,
        content matches Err(unknown) ==> unknown.byte == bytes@[0],
{
    match MessageType::from_u8(bytes[0]) {
        Some(kind) => {
            let payload = slice_subrange(bytes, 1, bytes.len());
            Ok((kind, text_from_utf8_lossy(payload)))
        },
        None => Err(UnknownKind { byte: bytes[0] }),
    }
}

/// Decoding the frame of a message gives back its kind and its text.
pub proof fn lemma_decode_encode(kind: MessageType, text: Seq<char>)
    ensures
        frame_content(frame_bytes(kind, text)) matches Ok(content) && content == (kind, text),
{
    let frame = frame_bytes(kind, text);
    assert(frame.skip(1) =~= encode_utf8(text));
    vstd::utf8::encode_utf8_valid_utf8(text);
    vstd::utf8::encode_utf8_decode_utf8(text);
}

} // verus!
