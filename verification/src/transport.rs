//! The text encoding that carries image files to the user interface and
//! back: standard base64 with padding, as the `base64` crate writes and
//! reads it.

use base64::Engine;
use vstd::prelude::*;
use crate::error::{CaptureError, CaptureErrorView};

verus! {

#[verifier::external_type_specification]
#[verifier::external_body]
pub struct ExDecodeError(base64::DecodeError);

/// The 64 characters of the standard base64 alphabet, by value.
pub open spec fn base64_alphabet() -> Seq<char> {
    "ABCDEFGHIJKLMNOPQRSTUVWXYZabcdefghijklmnopqrstuvwxyz0123456789+/"@
}

/// The character that stands for the six-bit value `v`.
pub open spec fn sextet_char(v: int) -> char {
    base64_alphabet()[v]
}

/// The standard base64 encoding of `bytes`, with `=` padding: every three
/// bytes give four characters, and a last group of one or two bytes is
/// padded to four.
pub open spec fn base64_text(bytes: Seq<u8>) -> Seq<char>
    decreases bytes.len(),
{
    if bytes.len() == 0 {
        Seq::empty()
    } else if bytes.len() == 1 {
        let a = bytes[0] as int;
        seq![sextet_char(a / 4), sextet_char(a % 4 * 16), '=', '=']
    } else if bytes.len() == 2 {
        let a = bytes[0] as int;
        let b = bytes[1] as int;
        seq![sextet_char(a / 4), sextet_char(a % 4 * 16 + b / 16), sextet_char(b % 16 * 4), '=']
    } else {
        let a = bytes[0] as int;
        let b = bytes[1] as int;
        let c = bytes[2] as int;
        seq![
            sextet_char(a / 4),
            sextet_char(a % 4 * 16 + b / 16),
            sextet_char(b % 16 * 4 + c / 64),
            sextet_char(c % 64),
        ] + base64_text(bytes.skip(3))
    }
}

/// Whether `text` is the base64 encoding of some bytes.
pub open spec fn is_base64(text: Seq<char>) -> bool {
    exists|bytes: Seq<u8>| text == #[trigger] base64_text(bytes)
}

/// The alphabet has 64 different characters, and `=` is none of them.
proof fn lemma_alphabet_distinct()
    ensures
        forall|v: int, w: int|
            0 <= v < 64 && 0 <= w < 64 && #[trigger] sextet_char(v) == #[trigger] sextet_char(w)
                ==> v == w,
        forall|v: int| 0 <= v < 64 ==> #[trigger] sextet_char(v) != '=',
{
    reveal_strlit("ABCDEFGHIJKLMNOPQRSTUVWXYZabcdefghijklmnopqrstuvwxyz0123456789+/");
}

/// No two byte strings share a base64 text. With this, decoding undoes
/// encoding: the bytes that `decode_payload` returns for the text of
/// `encode_payload` are the bytes that were encoded.
pub proof fn lemma_base64_injective(a: Seq<u8>, b: Seq<u8>)
    requires
        base64_text(a) == base64_text(b),
    ensures
        a == b,
    decreases a.len(),
{
    lemma_alphabet_distinct();
    let text_a = base64_text(a);
    let text_b = base64_text(b);
    if a.len() == 0 || b.len() == 0 {
        assert(text_a.len() == 0 || text_b.len() == 0);
        assert(a.len() == 0 && b.len() == 0);
        assert(a =~= b);
    } else {
        assert(text_a[0] == text_b[0]);
        assert(text_a[1] == text_b[1]);
        assert(text_a[2] == text_b[2]);
        assert(text_a[3] == text_b[3]);
        if a.len() == 1 {
            assert(text_a[2] == '=');
            assert(b.len() == 1);
            assert(a[0] == b[0]);
            assert(a =~= b);
        } else if a.len() == 2 {
            assert(text_a[3] == '=' && text_a[2] != '=');
            assert(b.len() == 2);
            assert(a[0] == b[0] && a[1] == b[1]);
            assert(a =~= b);
        } else {
            assert(text_a[3] != '=' && text_a[2] != '=');
            assert(b.len() >= 3);
            assert(a[0] == b[0] && a[1] == b[1] && a[2] == b[2]);
            assert(text_a.skip(4) =~= base64_text(a.skip(3)));
            assert(text_b.skip(4) =~= base64_text(b.skip(3)));
            lemma_base64_injective(a.skip(3), b.skip(3));
            assert(a =~= a.take(3) + a.skip(3));
            assert(b =~= b.take(3) + b.skip(3));
            assert(a.take(3) =~= b.take(3));
        }
    }
}

/// Calls `Engine::encode` of the `base64` crate on its `STANDARD` engine.
///
/// Trusted: the text is the standard padded base64 encoding of the bytes.
/// The call panics where four thirds of the length overflow `usize`; a
/// vector never holds more than `isize::MAX` bytes, so its length does not.
#[verifier::external_body]
fn base64_encode(bytes: &Vec<u8>) -> (text: String)
    ensures
        text@ == base64_text(bytes@),
{
    base64::engine::general_purpose::STANDARD.encode(bytes)
}

/// Calls `Engine::decode` of the `base64` crate on its `STANDARD` engine.
///
/// Trusted: that engine accepts exactly the canonical padded encodings, so
/// it returns the bytes whose encoding the text is, and fails where the text
/// is the encoding of no bytes.
#[verifier::external_body]
fn base64_decode(text: &str) -> (res: Result<Vec<u8>, base64::DecodeError>)
    ensures
        res matches Ok(bytes) ==> text@ == base64_text(bytes@),
        res is Err ==> forall|bytes: Seq<u8>| text@ != #[trigger] base64_text(bytes),
{
    base64::engine::general_purpose::STANDARD.decode(text)
}

/// Calls `to_string` on a `base64::DecodeError`. Nothing is claimed of the
/// wording.
#[verifier::external_body]
fn decode_error_text(error: &base64::DecodeError) -> String {
    error.to_string()
}

/// Wraps container bytes in base64 for the way to the user interface.
pub fn encode_payload(container: &Vec<u8>) -> (payload: String)
    ensures
        payload@ == base64_text(container@),
{
    base64_encode(container)
}

/// Unwraps a base64 payload into the bytes to save.
///
/// Succeeds exactly on the text that is the base64 encoding of some bytes,
/// and then returns those bytes.
pub fn decode_payload(payload: &str) -> (res: Result<Vec<u8>, CaptureError>)
    ensures
        res is Ok <==> is_base64(payload@),
        res matches Ok(bytes) ==> payload@ == base64_text(bytes@),
        res matches Err(e) ==> e@ == CaptureErrorView::InvalidPayload,
        forall|encoded: Seq<u8>|
            payload@ == #[trigger] base64_text(encoded) ==> (res matches Ok(bytes) && bytes@
                == encoded),
{
    match base64_decode(payload) {
        Ok(bytes) => {
            assert forall|encoded: Seq<u8>| payload@ == #[trigger] base64_text(encoded) implies bytes@
                == encoded by {
                lemma_base64_injective(bytes@, encoded);
            }
            Ok(bytes)
        },
        Err(error) => Err(CaptureError::InvalidPayload(decode_error_text(&error))),
    }
}

} // verus!
