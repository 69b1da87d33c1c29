//! Core of an ephemeral secure shell session: an encrypted clipboard
//! transfer protocol with timed expiry, a security-posture monitor, and a
//! zeroizing input and history store.

pub mod buffer;
pub mod cipher;
pub mod clipboard;
pub mod codec;
pub mod command;
pub mod complete;
pub mod envelope;
mod erase;
pub mod error;
pub mod security;
pub mod text;
