//! Errors of the clipboard channel and the messages shown for them.

use vstd::prelude::*;
use vstd::string::*;

verus! {

/// Why a clipboard operation failed.
#[derive(Debug, Clone, Copy, PartialEq, Eq, Structural)]
pub enum ClipboardError {
    /// The operating system's clipboard could not be reached.
    ClipboardAccessError,
    /// No key or nonce could be generated, or the cipher refused the
    /// payload. Only the one copy operation fails.
    EncryptionError,
    /// The clipboard text does not begin with the envelope tag.
    NotEncrypted,
    /// The envelope is malformed, a field is not base64, the key or the
    /// nonce has the wrong length, or the plaintext is not UTF-8.
    FormatError,
    /// The cipher's integrity check failed: wrong key, or ciphertext or
    /// nonce altered.
    AuthenticationFailed,
}

impl ClipboardError {
    /// The text shown to the user. A malformed input and a failed
    /// integrity check read the same, so that the message does not tell
    /// which check failed.
    pub open spec fn message_text(self) -> Seq<char> {
        match self {
            ClipboardError::ClipboardAccessError => "Failed to access clipboard."@,
            ClipboardError::EncryptionError => "Encryption failed."@,
            ClipboardError::NotEncrypted => "Clipboard does not contain encrypted Ghost Shell data."@,
            ClipboardError::FormatError => "Decryption failed. Wrong key or corrupted data."@,
            ClipboardError::AuthenticationFailed => "Decryption failed. Wrong key or corrupted data."@,
        }
    }

    /// The text shown to the user for this error.
    pub fn message(&self) -> (s: String)
        ensures
            s@ == self.message_text(),
    {
        match self {
            ClipboardError::ClipboardAccessError => String::from_str("Failed to access clipboard."),
            ClipboardError::EncryptionError => String::from_str("Encryption failed."),
            ClipboardError::NotEncrypted => String::from_str(
                "Clipboard does not contain encrypted Ghost Shell data.",
            ),
            ClipboardError::FormatError => String::from_str(
                "Decryption failed. Wrong key or corrupted data.",
            ),
            ClipboardError::AuthenticationFailed => String::from_str(
                "Decryption failed. Wrong key or corrupted data.",
            ),
        }
    }
}

} // verus!
