use vstd::prelude::*;
use crate::error::MangoError;

verus! {

/// The standard base64 text of a byte sequence, padded.
pub uninterp spec fn base64_text(b: Seq<u8>) -> Seq<char>;

/// The bytes that a base64 text stands for, if it is valid.
pub uninterp spec fn base64_bytes(s: Seq<char>) -> Option<Seq<u8>>;

/// A character of the standard base64 alphabet, or its padding.
pub open spec fn is_base64_char(c: char) -> bool {
    ('A' <= c && c <= 'Z') || ('a' <= c && c <= 'z') || ('0' <= c && c <= '9') || c == '+' || c
        == '/' || c == '='
}

/// Text made only of base64 characters: printable, with no line break.
pub open spec fn is_base64_alphabet(s: Seq<char>) -> bool {
    forall|i: int| 0 <= i < s.len() ==> is_base64_char(#[trigger] s[i])
}

/// Relies on `base64::Engine::encode` with the `STANDARD` engine: padded text
/// over the standard alphabet, a function of the bytes alone, which `decode`
/// turns back into the same bytes.
#[verifier::external_body]
fn base64_encode(b: &Vec<u8>) -> (r: String)
    ensures
        r@ == base64_text(b@),
        base64_bytes(r@) == Some(b@),
        is_base64_alphabet(r@),
{
    base64::Engine::encode(&base64::engine::general_purpose::STANDARD, b)
}

/// Relies on `base64::Engine::decode` with the `STANDARD` engine: the bytes
/// that a text stands for, or a failure on text that is not base64.
#[verifier::external_body]
fn base64_decode(s: &String) -> (r: Option<Vec<u8>>)
    ensures
        match r {
            Some(v) => base64_bytes(s@) == Some(v@),
            None => base64_bytes(s@) is None,
        },
{
    base64::Engine::decode(&base64::engine::general_purpose::STANDARD, s).ok()
}

/// Encodes raw bytes as base64 text with no line break; decoding the text
/// gives the bytes back.
pub fn encode(raw: &Vec<u8>) -> (r: String)
    ensures
        r@ == base64_text(raw@),
        base64_bytes(r@) == Some(raw@),
        is_base64_alphabet(r@),
{
    base64_encode(raw)
}

/// Decodes base64 text back to the bytes it stands for; `CorruptPayload`
/// where the text is not base64.
pub fn decode(text: &String) -> (r: Result<Vec<u8>, MangoError>)
    ensures
        match base64_bytes(text@) {
            Some(b) => r is Ok && r->Ok_0@ == b,
            None => r == Err::<Vec<u8>, MangoError>(MangoError::CorruptPayload),
        },
{
    match base64_decode(text) {
        Some(v) => Ok(v),
        None => Err(MangoError::CorruptPayload),
    }
}

} // verus!
