//! The clipboard channel: what is written to the clipboard for a copy, what
//! the user is told, when the clipboard is to be cleared, and how an
//! encrypted clipboard is read back.
//!
//! The channel decides; whoever owns the operating system's clipboard
//! carries the decision out. A [`CopyPlan`] says what to write, what to
//! show, and after how many seconds to overwrite the clipboard with empty
//! content.

use vstd::prelude::*;
use vstd::string::*;
use vstd::utf8::*;
use crate::cipher::{
    decrypt, decryptable, decrypted, encrypt_with, encryptable, generate_key, generate_nonce,
    opened, sealed, KEY_LEN, NONCE_LEN, TAG_LEN,
};
use crate::codec::{
    base64_bytes, base64_len, base64_text, decode, encode, is_base64_char, is_base64_text,
};
use crate::envelope::{
    colon_free, envelope_fields, envelope_text, format_envelope, lemma_envelope_round_trip,
    parse_envelope,
};
use crate::erase::{erase_bytes, erase_string};
use crate::error::ClipboardError;
use crate::text::{append_decimal, decimal, utf8_string};

verus! {

broadcast use vstd::string::group_string_axioms;

/// What a copy amounts to, as mathematical values.
pub struct PlanModel {
    /// The text to write to the clipboard.
    pub clipboard_text: Seq<char>,
    /// The confirmation shown to the user.
    pub message: Seq<char>,
    /// After how many seconds the clipboard is cleared; `None` for never.
    pub clear_after: Option<u64>,
}

/// What a copy amounts to.
pub struct CopyPlan {
    /// The text to write to the clipboard.
    pub clipboard_text: String,
    /// The confirmation shown to the user. For an encrypted copy it holds
    /// the key, which stands nowhere else.
    pub message: String,
    /// After how many seconds the clipboard is to be overwritten with
    /// empty content; `None` where no timer is to be scheduled.
    pub clear_after: Option<u64>,
}

impl View for CopyPlan {
    type V = PlanModel;

    open spec fn view(&self) -> PlanModel {
        PlanModel {
            clipboard_text: self.clipboard_text@,
            message: self.message@,
            clear_after: self.clear_after,
        }
    }
}

/// When the clipboard is cleared: after `timeout_secs` seconds, or never
/// where the timeout is zero.
pub open spec fn clear_schedule(timeout_secs: u64) -> Option<u64> {
    if timeout_secs > 0 {
        Some(timeout_secs)
    } else {
        None
    }
}

/// The sentence of a confirmation that speaks of the expiry.
pub open spec fn expiry_notice(timeout_secs: u64) -> Seq<char> {
    if timeout_secs > 0 {
        "AUTO-CLEAR IN "@ + decimal(timeout_secs as nat) + "s."@
    } else {
        "NO AUTO-CLEAR. PERSISTS UNTIL MANUAL CLEAR."@
    }
}

/// The confirmation of an unencrypted copy.
pub open spec fn plain_message(timeout_secs: u64) -> Seq<char> {
    "DATA INJECTED TO CLIPBOARD. "@ + expiry_notice(timeout_secs)
}

/// The confirmation of an encrypted copy, which shows the key.
pub open spec fn encrypted_message(key_text: Seq<char>, timeout_secs: u64) -> Seq<char> {
    "ENCRYPTED DATA INJECTED. KEY: "@ + key_text + "\r\n"@ + expiry_notice(timeout_secs)
        + "\r\nUse ::decrypt to recover."@
}

/// The plan of an unencrypted copy: the text goes to the clipboard as it
/// is.
pub open spec fn plain_plan_of(text: Seq<char>, timeout_secs: u64) -> PlanModel {
    PlanModel {
        clipboard_text: text,
        message: plain_message(timeout_secs),
        clear_after: clear_schedule(timeout_secs),
    }
}

/// The plan of an encrypted copy under `key` and `nonce`: the clipboard
/// gets the envelope of nonce and ciphertext, the message the key.
pub open spec fn encrypted_plan_of(
    text: Seq<char>,
    key: Seq<u8>,
    nonce: Seq<u8>,
    timeout_secs: u64,
) -> PlanModel {
    PlanModel {
        clipboard_text: envelope_text(
            base64_text(nonce),
            base64_text(sealed(key, nonce, encode_utf8(text))),
        ),
        message: encrypted_message(base64_text(key), timeout_secs),
        clear_after: clear_schedule(timeout_secs),
    }
}

/// Whether `plan` is the encrypted copy of `text` under `key` and `nonce`,
/// with all that makes it readable again:
///
/// - it is [`encrypted_plan_of`];
/// - the key text in the message has 44 base64 characters and decodes to
///   the key;
/// - the nonce field has 16 base64 characters and decodes to the nonce;
/// - the ciphertext is 16 bytes longer than the UTF-8 form of `text`, and
///   its field is its padded base64 text, which decodes to it;
/// - the clipboard text is the tag, the two fields and the colon between
///   them, and parses into these two fields;
/// - the cipher opens the ciphertext under `key` and `nonce`, and
///   decrypting the clipboard text with the key text gives `text`.
pub open spec fn encrypted_copy_of(
    plan: PlanModel,
    text: Seq<char>,
    key: Seq<u8>,
    nonce: Seq<u8>,
    timeout_secs: u64,
) -> bool {
    let payload = encode_utf8(text);
    let ciphertext = sealed(key, nonce, payload);
    let key_text = base64_text(key);
    let nonce_field = base64_text(nonce);
    let ciphertext_field = base64_text(ciphertext);
    &&& plan == encrypted_plan_of(text, key, nonce, timeout_secs)
    &&& key_text.len() == 44
    &&& is_base64_text(key_text)
    &&& base64_bytes(key_text) == Some(key)
    &&& nonce_field.len() == 16
    &&& is_base64_text(nonce_field)
    &&& base64_bytes(nonce_field) == Some(nonce)
    &&& ciphertext.len() == payload.len() + TAG_LEN
    &&& ciphertext_field.len() == base64_len(ciphertext.len())
    &&& is_base64_text(ciphertext_field)
    &&& base64_bytes(ciphertext_field) == Some(ciphertext)
    &&& plan.clipboard_text.len() == 33 + ciphertext_field.len()
    &&& envelope_fields(plan.clipboard_text) == Ok::<(Seq<char>, Seq<char>), ClipboardError>(
        (nonce_field, ciphertext_field),
    )
    &&& opened(key, nonce, ciphertext) == Some(payload)
    &&& clipboard_decrypted(plan.clipboard_text, key_text) == Ok::<Seq<char>, ClipboardError>(text)
}

/// What is made of a decrypted payload: it must be UTF-8.
pub open spec fn plaintext_text(outcome: Result<Seq<u8>, ClipboardError>) -> Result<
    Seq<char>,
    ClipboardError,
> {
    match outcome {
        Ok(bytes) => if valid_utf8(bytes) {
            Ok(decode_utf8(bytes))
        } else {
            Err(ClipboardError::FormatError)
        },
        Err(e) => Err(e),
    }
}

/// What is made of the three decoded fields: each must be base64, then the
/// cipher is asked, then the payload must be UTF-8.
pub open spec fn fields_decrypted(
    key: Option<Seq<u8>>,
    nonce: Option<Seq<u8>>,
    ciphertext: Option<Seq<u8>>,
) -> Result<Seq<char>, ClipboardError> {
    match (key, nonce, ciphertext) {
        (Some(k), Some(n), Some(c)) => plaintext_text(decrypted(k, n, c)),
        _ => Err(ClipboardError::FormatError),
    }
}

/// What decrypting clipboard text `clip` with the base64 key `key_text`
/// gives.
pub open spec fn clipboard_decrypted(clip: Seq<char>, key_text: Seq<char>) -> Result<
    Seq<char>,
    ClipboardError,
> {
    match envelope_fields(clip) {
        Ok((nonce_field, ciphertext_field)) => fields_decrypted(
            base64_bytes(key_text),
            base64_bytes(nonce_field),
            base64_bytes(ciphertext_field),
        ),
        Err(e) => Err(e),
    }
}

/// Whether an executable result stands for the given result over views.
pub open spec fn text_result_is(
    r: Result<String, ClipboardError>,
    model: Result<Seq<char>, ClipboardError>,
) -> bool {
    match r {
        Ok(text) => model == Ok::<Seq<char>, ClipboardError>(text@),
        Err(e) => model == Err::<Seq<char>, ClipboardError>(e),
    }
}

/// The view of an optional byte vector.
pub open spec fn bytes_of(field: Option<Vec<u8>>) -> Option<Seq<u8>> {
    match field {
        Some(bytes) => Some(bytes@),
        None => None,
    }
}

/// Base64 text holds no colon, so it can stand in an envelope field.
pub proof fn lemma_base64_colon_free(text: Seq<char>)
    requires
        is_base64_text(text),
    ensures
        colon_free(text),
{
    assert forall|i: int| 0 <= i < text.len() implies #[trigger] text[i] != ':' by {
        assert(is_base64_char(text[i]));
    }
}

/// Appends the sentence that speaks of the expiry.
fn append_expiry_notice(out: &mut String, timeout_secs: u64)
    ensures
        final(out)@ == old(out)@ + expiry_notice(timeout_secs),
{
    if timeout_secs > 0 {
        out.append("AUTO-CLEAR IN ");
        append_decimal(out, timeout_secs);
        out.append("s.");
        assert(out@ == old(out)@ + ("AUTO-CLEAR IN "@ + decimal(timeout_secs as nat) + "s."@));
    } else {
        out.append("NO AUTO-CLEAR. PERSISTS UNTIL MANUAL CLEAR.");
    }
}

/// The plan of an unencrypted copy.
///
/// The clipboard gets `text` verbatim. With a timeout the clipboard is
/// cleared after that many seconds; with none the message says that the
/// text stays until it is cleared by hand.
pub fn plain_plan(text: &str, timeout_secs: u64) -> (plan: CopyPlan)
    ensures
        plan@ == plain_plan_of(text@, timeout_secs),
{
    let mut message = String::from_str("DATA INJECTED TO CLIPBOARD. ");
    append_expiry_notice(&mut message, timeout_secs);
    CopyPlan {
        clipboard_text: String::from_str(text),
        message,
        clear_after: if timeout_secs > 0 {
            Some(timeout_secs)
        } else {
            None
        },
    }
}

/// The plan of an encrypted copy under the given key and nonce.
///
/// Fails with `EncryptionError` exactly where the key is not 32 bytes, the
/// nonce not 12, or the UTF-8 form of `text` not [`encryptable`]. On
/// success the plan is the encrypted copy of `text` as
/// [`encrypted_copy_of`] says: the key text has 44 characters, the nonce
/// field 16 that decode to the nonce, the ciphertext field decodes to the
/// payload's length and 16 bytes more, and decrypting the clipboard text
/// with the key shown in the message gives `text` back.
pub fn encrypted_plan(text: &str, key: &[u8], nonce: &[u8], timeout_secs: u64) -> (r: Result<
    CopyPlan,
    ClipboardError,
>)
    ensures
        r is Ok <==> key@.len() == KEY_LEN && nonce@.len() == NONCE_LEN && encryptable(
            encode_utf8(text@).len(),
        ),
        r matches Ok(plan) ==> encrypted_copy_of(plan@, text@, key@, nonce@, timeout_secs),
        r matches Err(e) ==> e == ClipboardError::EncryptionError,
{
    let ciphertext = match encrypt_with(text.as_bytes(), key, nonce) {
        Ok(ciphertext) => ciphertext,
        Err(e) => {
            return Err(e);
        },
    };
    let ciphertext_field = encode(ciphertext.as_slice());
    let mut key_field = encode(key);
    let nonce_field = encode(nonce);
    let clipboard_text = format_envelope(nonce_field.as_str(), ciphertext_field.as_str());

    let mut message = String::from_str("ENCRYPTED DATA INJECTED. KEY: ");
    message.append(key_field.as_str());
    message.append("\r\n");
    append_expiry_notice(&mut message, timeout_secs);
    message.append("\r\nUse ::decrypt to recover.");
    proof {
        lemma_base64_colon_free(nonce_field@);
        lemma_base64_colon_free(ciphertext_field@);
        lemma_envelope_round_trip(nonce_field@, ciphertext_field@);
        encode_utf8_valid_utf8(text@);
        encode_utf8_decode_utf8(text@);
        reveal_strlit("GHOST_ENCRYPTED:");
        assert(clipboard_text@.len() == 33 + ciphertext_field@.len());
    }
    erase_string(&mut key_field);
    Ok(
        CopyPlan {
            clipboard_text,
            message,
            clear_after: if timeout_secs > 0 {
                Some(timeout_secs)
            } else {
                None
            },
        },
    )
}

/// Turns a decrypted payload into text.
///
/// An error is handed on. A payload that is not UTF-8 gives `FormatError`;
/// any other gives the text it encodes.
pub fn plaintext_string(outcome: Result<Vec<u8>, ClipboardError>) -> (r: Result<
    String,
    ClipboardError,
>)
    ensures
        match outcome {
            Ok(bytes) => text_result_is(
                r,
                plaintext_text(Ok::<Seq<u8>, ClipboardError>(bytes@)),
            ),
            Err(e) => r == Err::<String, ClipboardError>(e),
        },
{
    match outcome {
        Ok(bytes) => match utf8_string(bytes) {
            Ok(text) => Ok(text),
            Err(rejected) => {
                let mut rejected = rejected;
                erase_bytes(&mut rejected);
                Err(ClipboardError::FormatError)
            },
        },
        Err(e) => Err(e),
    }
}

/// Erases a decoded field, where there is one.
fn erase_field(field: Option<Vec<u8>>) {
    match field {
        Some(bytes) => {
            let mut bytes = bytes;
            erase_bytes(&mut bytes);
        },
        None => {},
    }
}

/// Decrypts from the three decoded fields, `None` standing for a field
/// that is not base64. Key and nonce are erased before the function
/// returns, whatever the outcome.
///
/// A missing field gives `FormatError`; so does a key that is not 32 bytes,
/// a nonce that is not 12 or a ciphertext that the cipher cannot have made,
/// without the cipher being asked. Then the cipher decides between
/// `AuthenticationFailed` and a payload, which must be UTF-8 or gives
/// `FormatError`.
pub fn decrypt_fields(
    key: Option<Vec<u8>>,
    nonce: Option<Vec<u8>>,
    ciphertext: Option<Vec<u8>>,
) -> (r: Result<String, ClipboardError>)
    ensures
        text_result_is(r, fields_decrypted(bytes_of(key), bytes_of(nonce), bytes_of(ciphertext))),
{
    match (key, nonce, ciphertext) {
        (Some(key), Some(nonce), Some(ciphertext)) => {
            let mut key = key;
            let mut nonce = nonce;
            plaintext_string(decrypt(&mut key, &mut nonce, ciphertext.as_slice()))
        },
        (key, nonce, _) => {
            erase_field(key);
            erase_field(nonce);
            Err(ClipboardError::FormatError)
        },
    }
}

/// Decrypting gives a text only where the cipher authenticated the
/// ciphertext under that key and nonce, and then the text of the cipher's
/// own plaintext; and wherever the cipher is asked and rejects, it gives
/// `AuthenticationFailed`. A ciphertext or nonce that was altered, or
/// another key, can therefore never give a wrong text: either the cipher
/// rejects it, or the cipher itself vouches for what comes out.
pub proof fn lemma_only_authentic_text(key: Seq<u8>, nonce: Seq<u8>, ciphertext: Seq<u8>)
    ensures
        fields_decrypted(Some(key), Some(nonce), Some(ciphertext)) matches Ok(text) ==> {
            &&& opened(key, nonce, ciphertext) matches Some(payload)
            &&& valid_utf8(payload)
            &&& text == decode_utf8(payload)
        },
        key.len() == KEY_LEN && nonce.len() == NONCE_LEN && decryptable(ciphertext.len())
            && opened(key, nonce, ciphertext) is None ==> fields_decrypted(
            Some(key),
            Some(nonce),
            Some(ciphertext),
        ) == Err::<Seq<char>, ClipboardError>(ClipboardError::AuthenticationFailed),
{
}

/// Decodes one base64 field; `None` where it is not base64.
fn decode_field(field: &str) -> (r: Option<Vec<u8>>)
    ensures
        bytes_of(r) == base64_bytes(field@),
{
    match decode(field) {
        Ok(bytes) => Some(bytes),
        Err(_) => None,
    }
}

/// The clipboard channel's rules, with or without encryption.
pub struct SecureClipboard {
    encryption_enabled: bool,
}

impl SecureClipboard {
    /// Whether copies are encrypted.
    pub closed spec fn encrypts(&self) -> bool {
        self.encryption_enabled
    }

    /// A channel that encrypts copies or not.
    pub fn new(encryption_enabled: bool) -> (c: SecureClipboard)
        ensures
            c.encrypts() == encryption_enabled,
    {
        SecureClipboard { encryption_enabled }
    }

    /// Whether copies are encrypted.
    pub fn encryption_enabled(&self) -> (b: bool)
        ensures
            b == self.encrypts(),
    {
        self.encryption_enabled
    }

    /// Plans a copy of `text`, and erases `text` before it returns,
    /// whatever the outcome: the caller is left with an empty string.
    ///
    /// Without encryption the plan is [`plain_plan_of`] and the call cannot
    /// fail. With encryption a key and a nonce are drawn for this one copy;
    /// the plan is the encrypted copy of `text` for them as
    /// [`encrypted_copy_of`] says, field lengths and decoding included, and
    /// decrypting its clipboard text with the key shown in its message
    /// gives `text` back. The only error is `EncryptionError`: where the
    /// random source fails, or the UTF-8 form of `text` is not
    /// [`encryptable`].
    pub fn copy_with_timeout(&self, text: &mut String, timeout_secs: u64) -> (r: Result<
        CopyPlan,
        ClipboardError,
    >)
        ensures
            final(text)@.len() == 0,
            !self.encrypts() ==> (r matches Ok(plan) && plan@ == plain_plan_of(
                old(text)@,
                timeout_secs,
            )),
            self.encrypts() ==> match r {
                Ok(plan) => exists|key: Seq<u8>, nonce: Seq<u8>|
                    {
                        &&& key.len() == KEY_LEN
                        &&& nonce.len() == NONCE_LEN
                        &&& encryptable(encode_utf8(old(text)@).len())
                        &&& #[trigger] encrypted_copy_of(
                            plan@,
                            old(text)@,
                            key,
                            nonce,
                            timeout_secs,
                        )
                    },
                Err(e) => e == ClipboardError::EncryptionError,
            },
            self.encrypts() && !encryptable(encode_utf8(old(text)@).len()) ==> r is Err,
    {
        let result = if self.encryption_enabled {
            copy_encrypted(text.as_str(), timeout_secs)
        } else {
            Ok(plain_plan(text.as_str(), timeout_secs))
        };
        erase_string(text);
        result
    }

    /// Decrypts the clipboard text `clipboard_text` with the base64 key
    /// `key_text`.
    ///
    /// Text without the envelope tag gives `NotEncrypted`, and nothing is
    /// decoded or decrypted. A tagged text without exactly two
    /// colon-delimited fields, a field or a key that is not base64, a key
    /// that does not decode to 32 bytes or a nonce that does not decode to
    /// 12 give `FormatError`, and the cipher is not asked. Then the cipher
    /// decides between `AuthenticationFailed` and a payload, which must be
    /// UTF-8 or gives `FormatError`. The decoded key is erased on every
    /// path.
    pub fn decrypt_clipboard(&self, clipboard_text: &str, key_text: &str) -> (r: Result<
        String,
        ClipboardError,
    >)
        ensures
            text_result_is(r, clipboard_decrypted(clipboard_text@, key_text@)),
    {
        let (nonce_field, ciphertext_field) = match parse_envelope(clipboard_text) {
            Ok(fields) => fields,
            Err(e) => {
                return Err(e);
            },
        };
        let key = decode_field(key_text);
        let nonce = decode_field(nonce_field.as_str());
        let ciphertext = decode_field(ciphertext_field.as_str());
        decrypt_fields(key, nonce, ciphertext)
    }
}

/// Plans an encrypted copy under a key and a nonce drawn for this one call,
/// and erases both before it returns.
fn copy_encrypted(text: &str, timeout_secs: u64) -> (r: Result<CopyPlan, ClipboardError>)
    ensures
        match r {
            Ok(plan) => exists|key: Seq<u8>, nonce: Seq<u8>|
                {
                    &&& key.len() == KEY_LEN
                    &&& nonce.len() == NONCE_LEN
                    &&& encryptable(encode_utf8(text@).len())
                    &&& #[trigger] encrypted_copy_of(plan@, text@, key, nonce, timeout_secs)
                },
            Err(e) => e == ClipboardError::EncryptionError,
        },
        !encryptable(encode_utf8(text@).len()) ==> r is Err,
{
    let mut key = match generate_key() {
        Ok(key) => key,
        Err(e) => {
            return Err(e);
        },
    };
    let mut nonce = match generate_nonce() {
        Ok(nonce) => nonce,
        Err(e) => {
            erase_bytes(&mut key);
            return Err(e);
        },
    };
    let result = encrypted_plan(text, key.as_slice(), nonce.as_slice(), timeout_secs);
    proof {
        if result is Ok {
            assert(encrypted_copy_of(result->Ok_0@, text@, key@, nonce@, timeout_secs));
        }
    }
    erase_bytes(&mut key);
    erase_bytes(&mut nonce);
    result
}

} // verus!
