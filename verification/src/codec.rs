//! Base64 text for keys, nonces and ciphertexts.
//!
//! Encoding and decoding are done by the `base64` crate's standard engine
//! (RFC 4648 alphabet, `=` padding, canonical padding required on input).

use vstd::prelude::*;
use base64::engine::general_purpose::STANDARD;
use base64::Engine;

verus! {

/// The base64 text that the standard engine produces for `bytes`.
pub uninterp spec fn base64_text(bytes: Seq<u8>) -> Seq<char>;

/// The bytes that the standard engine reads from `text`, or `None` where it
/// rejects `text`.
pub uninterp spec fn base64_bytes(text: Seq<char>) -> Option<Seq<u8>>;

/// Whether `c` belongs to the standard base64 alphabet or is the padding
/// character.
pub open spec fn is_base64_char(c: char) -> bool {
    ||| 'A' <= c <= 'Z'
    ||| 'a' <= c <= 'z'
    ||| '0' <= c <= '9'
    ||| c == '+'
    ||| c == '/'
    ||| c == '='
}

/// Whether `text` consists of base64 characters only.
pub open spec fn is_base64_text(text: Seq<char>) -> bool {
    forall|i: int| 0 <= i < text.len() ==> is_base64_char(#[trigger] text[i])
}

/// Number of characters in the padded base64 text of `n` bytes.
pub open spec fn base64_len(n: nat) -> nat {
    (n + 2) / 3 * 4
}

#[verifier::external_type_specification]
#[verifier::external_body]
pub struct ExDecodeError(base64::DecodeError);

/// Encodes `bytes` with `base64`'s `STANDARD.encode`.
///
/// Trusted: the result is the engine's encoding of `bytes`; it is made of
/// characters of the standard alphabet and `=` padding, four for every
/// three bytes begun; and the same engine decodes it back to `bytes`. The
/// crate panics where the encoded text does not fit in one allocation,
/// which `requires` leaves out.
#[verifier::external_body]
pub(crate) fn encode(bytes: &[u8]) -> (text: String)
    requires
        base64_len(bytes@.len()) <= usize::MAX / 2,
    ensures
        text@ == base64_text(bytes@),
        text@.len() == base64_len(bytes@.len()),
        is_base64_text(text@),
        base64_bytes(text@) == Some(bytes@),
{
    STANDARD.encode(bytes)
}

/// Decodes `text` with `base64`'s `STANDARD.decode`.
///
/// Trusted: the result is what the engine reads from `text`, an error
/// where it rejects `text`.
#[verifier::external_body]
pub(crate) fn decode(text: &str) -> (r: Result<Vec<u8>, base64::DecodeError>)
    ensures
        match r {
            Ok(bytes) => base64_bytes(text@) == Some(bytes@),
            Err(_) => base64_bytes(text@) is None,
        },
{
    STANDARD.decode(text)
}

} // verus!
