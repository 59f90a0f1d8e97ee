use base64::Engine;
use vstd::prelude::*;
use vstd::string::{StringExecFns, StringSliceAdditionalSpecFns};
use vstd::utf8::*;

use crate::Error;

verus! {

broadcast use {encode_utf8_valid_utf8, encode_utf8_decode_utf8};

/// A number of bytes up to which base64 encodes without the length of its
/// output overflowing `usize`.
pub const MAX_ENCODABLE_BYTES: usize = usize::MAX / 4 * 3;

/// The base64 text (standard alphabet, with padding) of a byte sequence.
pub uninterp spec fn base64_of(b: Seq<u8>) -> Seq<char>;

/// The text that lossy UTF-8 decoding gives for a byte sequence.
pub uninterp spec fn lossy_text(b: Seq<u8>) -> Seq<char>;

/// A character of the standard base64 alphabet, or the padding character.
pub open spec fn is_base64_char(c: char) -> bool {
    ('A' <= c && c <= 'Z') || ('a' <= c && c <= 'z') || ('0' <= c && c <= '9') || c == '+'
        || c == '/' || c == '='
}

/// Every character of `s` belongs to the base64 alphabet.
pub open spec fn all_base64_chars(s: Seq<char>) -> bool {
    forall|i: int| 0 <= i < s.len() ==> #[trigger] is_base64_char(s[i])
}

/// The envelope of a structured text: its UTF-8 bytes, in base64.
pub open spec fn envelope_of(text: Seq<char>) -> Seq<char> {
    base64_of(encode_utf8(text))
}

/// `token` is the base64 text of some byte sequence.
pub open spec fn is_envelope(token: Seq<char>) -> bool {
    exists|b: Seq<u8>| #[trigger] base64_of(b) == token
}

/// The text that bytes read as: their UTF-8 decoding when they are valid
/// UTF-8, else the lossy reading.
pub open spec fn read_text(b: Seq<u8>) -> Seq<char> {
    if valid_utf8(b) {
        decode_utf8(b)
    } else {
        lossy_text(b)
    }
}

/// `text` is what decoding `token` gives: the text that bytes whose base64
/// text is `token` read as.
pub open spec fn opens_to(token: Seq<char>, text: Seq<char>) -> bool {
    exists|b: Seq<u8>| #[trigger] base64_of(b) == token && text == read_text(b)
}

/// Relies on base64's `STANDARD` engine `encode`: the padded base64 text of the
/// bytes, made of alphabet and padding characters only. It panics only when the
/// output length overflows `usize`, which the bound rules out.
#[verifier::external_body]
fn base64_encode(b: &[u8]) -> (r: String)
    requires
        b@.len() <= MAX_ENCODABLE_BYTES,
    ensures
        r@ == base64_of(b@),
        all_base64_chars(r@),
{
    base64::engine::general_purpose::STANDARD.encode(b)
}

/// Relies on base64's `STANDARD` engine `decode`: it gives back the bytes whose
/// padded base64 text the input is, and fails on every other input (canonical
/// padding and zero trailing bits are required). The error becomes its message.
#[verifier::external_body]
fn base64_decode(s: &str) -> (r: Result<Vec<u8>, String>)
    ensures
        r is Ok ==> base64_of(r->Ok_0@) == s@,
        forall|b: Seq<u8>| #[trigger] base64_of(b) == s@ ==> r is Ok && r->Ok_0@ == b,
{
    base64::engine::general_purpose::STANDARD.decode(s).map_err(|e| e.to_string())
}

/// Relies on `String::from_utf8_lossy`: valid UTF-8 is read as it stands.
#[verifier::external_body]
pub(crate) fn utf8_lossy(b: &[u8]) -> (r: String)
    ensures
        r@ == lossy_text(b@),
        valid_utf8(b@) ==> r@ == decode_utf8(b@),
{
    String::from_utf8_lossy(b).into_owned()
}

/// Wraps a structured text into an envelope, or returns `None` when it is too
/// long for base64.
fn seal(text: &str) -> (r: Option<String>)
    ensures
        r is Some <==> text.spec_bytes().len() <= MAX_ENCODABLE_BYTES,
        r is Some ==> r->0@ == envelope_of(text@) && all_base64_chars(r->0@),
{
    let bytes = text.as_bytes();
    if bytes.len() <= MAX_ENCODABLE_BYTES {
        Some(base64_encode(bytes))
    } else {
        None
    }
}

/// Reads the structured text out of an envelope, or returns the base64 error.
fn unseal(token: &str) -> (r: Result<String, String>)
    ensures
        r is Ok <==> is_envelope(token@),
        r is Ok ==> opens_to(token@, r->Ok_0@),
        forall|t: Seq<char>| #[trigger] envelope_of(t) == token@ ==> r is Ok && r->Ok_0@ == t,
{
    match base64_decode(token) {
        Ok(bytes) => {
            let text = utf8_lossy(bytes.as_slice());
            assert(opens_to(token@, text@));
            Ok(text)
        },
        Err(e) => Err(e),
    }
}

/// Encodes a serialized request into its envelope.
pub fn encode_request(json_request: &str) -> (r: Result<String, Error>)
    ensures
        r is Ok <==> json_request.spec_bytes().len() <= MAX_ENCODABLE_BYTES,
        r is Ok ==> r->Ok_0@ == envelope_of(json_request@) && all_base64_chars(r->Ok_0@),
        r is Err ==> r->Err_0 is EncodeRequest,
{
    match seal(json_request) {
        Some(token) => Ok(token),
        None => Err(Error::EncodeRequest { detail: String::from_str("request too large to encode") }),
    }
}

/// Encodes a serialized response into its envelope.
pub fn encode_response(json_response: &str) -> (r: Result<String, Error>)
    ensures
        r is Ok <==> json_response.spec_bytes().len() <= MAX_ENCODABLE_BYTES,
        r is Ok ==> r->Ok_0@ == envelope_of(json_response@) && all_base64_chars(r->Ok_0@),
        r is Err ==> r->Err_0 is EncodeResponse,
{
    match seal(json_response) {
        Some(token) => Ok(token),
        None => Err(Error::EncodeResponse { detail: String::from_str("response too large to encode") }),
    }
}

/// Decodes a request envelope into the serialized request it carries.
///
/// A token that is the envelope of a text always gives that text back.
pub fn decode_request(base64_request: &str) -> (r: Result<String, Error>)
    ensures
        r is Ok <==> is_envelope(base64_request@),
        r is Ok ==> opens_to(base64_request@, r->Ok_0@),
        r is Err ==> r->Err_0 is AlphabetDecodeRequest,
        forall|t: Seq<char>| #[trigger]
            envelope_of(t) == base64_request@ ==> r is Ok && r->Ok_0@ == t,
{
    match unseal(base64_request) {
        Ok(text) => Ok(text),
        Err(detail) => Err(Error::AlphabetDecodeRequest { detail }),
    }
}

/// Decodes a response envelope into the serialized response it carries.
///
/// A token that is the envelope of a text always gives that text back.
pub fn decode_response(base64_response: &str) -> (r: Result<String, Error>)
    ensures
        r is Ok <==> is_envelope(base64_response@),
        r is Ok ==> opens_to(base64_response@, r->Ok_0@),
        r is Err ==> r->Err_0 is AlphabetDecodeResponse,
        forall|t: Seq<char>| #[trigger]
            envelope_of(t) == base64_response@ ==> r is Ok && r->Ok_0@ == t,
{
    match unseal(base64_response) {
        Ok(text) => Ok(text),
        Err(detail) => Err(Error::AlphabetDecodeResponse { detail }),
    }
}

} // verus!
