//! Transport encoding of function code: standard base64 over the UTF-8 bytes
//! of the source text. Code is stored encoded and decoded on every read.

use base64::Engine;
use vstd::prelude::*;
use vstd::utf8::*;

verus! {

/// The standard, padded base64 text of a byte sequence: what
/// `base64::engine::general_purpose::STANDARD.encode` returns for it.
pub uninterp spec fn base64_text(bytes: Seq<u8>) -> Seq<char>;

/// What standard base64 decoding makes of a text: the bytes that
/// `base64::engine::general_purpose::STANDARD.decode` returns for it, or
/// `None` where that call fails because the text is not canonical padded
/// base64.
pub uninterp spec fn base64_bytes(text: Seq<char>) -> Option<Seq<u8>>;

/// Whether the base64 text of `len` bytes is short enough to be allocated.
pub open spec fn encodable_len(len: nat) -> bool {
    (len / 3) * 4 + 4 <= isize::MAX
}

/// Whether source text can be encoded on this machine.
pub open spec fn encodable(code: Seq<char>) -> bool {
    encodable_len(encode_utf8(code).len())
}

/// The stored form of source text.
pub open spec fn encoded_code(code: Seq<char>) -> Seq<char> {
    base64_text(encode_utf8(code))
}

/// The source text that decoded bytes spell, if they are UTF-8.
pub open spec fn text_of_bytes(bytes: Seq<u8>) -> Option<Seq<char>> {
    if valid_utf8(bytes) {
        Some(decode_utf8(bytes))
    } else {
        None
    }
}

/// The source text behind a stored form: `None` where the stored text is not
/// base64 or where its bytes are not UTF-8.
pub open spec fn decoded_code(stored: Seq<char>) -> Option<Seq<char>> {
    match base64_bytes(stored) {
        Some(bytes) => text_of_bytes(bytes),
        None => None,
    }
}

/// Whether the stored form of source text decodes to that text again.
pub open spec fn round_trips(code: Seq<char>) -> bool {
    decoded_code(encoded_code(code)) == Some(code)
}

/// `base64::engine::general_purpose::STANDARD.encode`: the result is the
/// base64 text of the input, and decoding that text gives the input back.
/// The call panics where the text would be too long to allocate, which
/// `requires` leaves out.
#[verifier::external_body]
fn base64_encode(bytes: &[u8]) -> (text: String)
    requires
        encodable_len(bytes@.len()),
    ensures
        text@ == base64_text(bytes@),
        base64_bytes(text@) == Some(bytes@),
{
    base64::engine::general_purpose::STANDARD.encode(bytes)
}

/// `base64::engine::general_purpose::STANDARD.decode`: `Some` of the decoded
/// bytes exactly where the text is canonical padded base64, whatever the
/// error otherwise.
#[verifier::external_body]
fn base64_decode(text: &str) -> (bytes: Option<Vec<u8>>)
    ensures
        bytes is Some <==> base64_bytes(text@) is Some,
        bytes is Some ==> bytes->0@ == base64_bytes(text@)->0,
{
    match base64::engine::general_purpose::STANDARD.decode(text) {
        Ok(decoded) => Some(decoded),
        Err(_) => None,
    }
}

/// `String::from_utf8`: `Some` of the text exactly where the bytes are valid
/// UTF-8, and then the text is what they decode to.
#[verifier::external_body]
fn utf8_text(bytes: Vec<u8>) -> (text: Option<String>)
    ensures
        text is Some <==> valid_utf8(bytes@),
        text is Some ==> text->0@ == decode_utf8(bytes@),
{
    match String::from_utf8(bytes) {
        Ok(decoded) => Some(decoded),
        Err(_) => None,
    }
}

/// Tells whether source text can be encoded on this machine.
pub fn is_encodable(code: &str) -> (ok: bool)
    ensures
        ok == encodable(code@),
{
    let len: usize = code.as_bytes().len();
    let most: usize = (isize::MAX as usize - 4) / 4;
    len / 3 <= most
}

/// Encodes source text for storage.
pub fn encode_code(code: &str) -> (stored: String)
    requires
        encodable(code@),
    ensures
        stored@ == encoded_code(code@),
        round_trips(code@),
{
    broadcast use {encode_utf8_valid_utf8, encode_utf8_decode_utf8};

    base64_encode(code.as_bytes())
}

/// Turns decoded bytes into source text.
pub fn code_from_bytes(bytes: Vec<u8>) -> (code: Option<String>)
    ensures
        code is Some <==> text_of_bytes(bytes@) is Some,
        code is Some ==> Some(code->0@) == text_of_bytes(bytes@),
{
    utf8_text(bytes)
}

/// Decodes a stored form back into source text.
pub fn decode_code(stored: &str) -> (code: Option<String>)
    ensures
        code is Some <==> decoded_code(stored@) is Some,
        code is Some ==> Some(code->0@) == decoded_code(stored@),
{
    match base64_decode(stored) {
        Some(bytes) => code_from_bytes(bytes),
        None => None,
    }
}

} // verus!
