//! The clipboard wire format for encrypted payloads.
//!
//! An envelope is the tag `GHOST_ENCRYPTED:` followed by two base64 fields
//! with a colon between them: the nonce, then the ciphertext. Text without
//! the tag is an unencrypted copy.

use vstd::prelude::*;
use vstd::string::*;
use crate::error::ClipboardError;
use crate::text::{
    chars_of, copy_range, lemma_split_join, lemma_split_none, split, split_on, starts_with,
    string_of,
};

verus! {

/// The tag that marks clipboard text as an encrypted envelope.
pub open spec fn tag() -> Seq<char> {
    "GHOST_ENCRYPTED:"@
}

/// The envelope that carries the two fields.
pub open spec fn envelope_text(nonce_field: Seq<char>, ciphertext_field: Seq<char>) -> Seq<char> {
    tag() + nonce_field + seq![':'] + ciphertext_field
}

/// The two fields that `text` carries. Text without the tag is not
/// encrypted; with the tag, anything but exactly two colon-delimited fields
/// is a format error.
pub open spec fn envelope_fields(text: Seq<char>) -> Result<(Seq<char>, Seq<char>), ClipboardError> {
    if !tag().is_prefix_of(text) {
        Err(ClipboardError::NotEncrypted)
    } else {
        let fields = split(text.skip(tag().len() as int), ':');
        if fields.len() != 2 {
            Err(ClipboardError::FormatError)
        } else {
            Ok((fields[0], fields[1]))
        }
    }
}

/// Whether `text` holds no colon.
pub open spec fn colon_free(text: Seq<char>) -> bool {
    forall|i: int| 0 <= i < text.len() ==> #[trigger] text[i] != ':'
}

/// Parsing an envelope gives back the fields it was made of, provided that
/// neither holds a colon.
pub proof fn lemma_envelope_round_trip(nonce_field: Seq<char>, ciphertext_field: Seq<char>)
    requires
        colon_free(nonce_field),
        colon_free(ciphertext_field),
    ensures
        envelope_fields(envelope_text(nonce_field, ciphertext_field)) == Ok::<
            (Seq<char>, Seq<char>),
            ClipboardError,
        >((nonce_field, ciphertext_field)),
{
    let text = envelope_text(nonce_field, ciphertext_field);
    let rest = nonce_field + seq![':'] + ciphertext_field;
    assert(text == tag() + rest);
    assert(text.subrange(0, tag().len() as int) == tag());
    assert(text.skip(tag().len() as int) == rest);
    lemma_split_join(nonce_field, ciphertext_field, ':');
    lemma_split_none(ciphertext_field, ':');
    assert(split(rest, ':') == seq![nonce_field, ciphertext_field]);
}

/// Builds the envelope that carries the two fields.
pub fn format_envelope(nonce_field: &str, ciphertext_field: &str) -> (text: String)
    ensures
        text@ == envelope_text(nonce_field@, ciphertext_field@),
{
    let mut text = String::from_str("GHOST_ENCRYPTED:");
    text.append(nonce_field);
    text.append(":");
    text.append(ciphertext_field);
    proof {
        reveal_strlit(":");
        assert(":"@ == seq![':']);
    }
    text
}

/// Takes an envelope apart.
///
/// Fails with `NotEncrypted` exactly where `text` lacks the tag, and with
/// `FormatError` exactly where it has the tag but not two colon-delimited
/// fields after it. Otherwise returns the nonce field and the ciphertext
/// field, in this order.
pub fn parse_envelope(text: &str) -> (r: Result<(String, String), ClipboardError>)
    ensures
        match r {
            Ok((nonce_field, ciphertext_field)) => envelope_fields(text@) == Ok::<
                (Seq<char>, Seq<char>),
                ClipboardError,
            >((nonce_field@, ciphertext_field@)),
            Err(e) => envelope_fields(text@) == Err::<(Seq<char>, Seq<char>), ClipboardError>(e),
        },
{
    let chars = chars_of(text);
    let prefix = chars_of("GHOST_ENCRYPTED:");
    if !starts_with(&chars, &prefix) {
        return Err(ClipboardError::NotEncrypted);
    }
    let rest = copy_range(&chars, prefix.len(), chars.len());
    assert(rest@ == text@.skip(tag().len() as int));
    let fields = split_on(&rest, ':');
    if fields.len() != 2 {
        return Err(ClipboardError::FormatError);
    }
    Ok((string_of(&fields[0]), string_of(&fields[1])))
}

} // verus!
