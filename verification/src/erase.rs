//! Erasure of sensitive buffers.
//!
//! The overwriting itself is done by the `zeroize` crate, whose writes the
//! compiler may not elide. This module gives each call a contract over the
//! buffer's contents; the zero bytes left in the released capacity are below
//! what a contract can speak of.

use vstd::prelude::*;
use zeroize::Zeroize;

verus! {

/// Overwrites every character of `v` with zero and leaves `v` empty, through
/// `zeroize`'s implementation for `Vec`.
///
/// Trusted: `zeroize` overwrites the elements and the spare capacity, then
/// clears the vector, so that nothing of the old contents remains in it. The
/// call does not panic.
#[verifier::external_body]
pub(crate) fn erase_chars(v: &mut Vec<char>)
    ensures
        final(v)@ == Seq::<char>::empty(),
    opens_invariants none
    no_unwind
{
    v.zeroize();
}

/// Overwrites every byte of `v` with zero and leaves `v` empty, through
/// `zeroize`'s implementation for `Vec`.
///
/// Trusted: as for [`erase_chars`].
#[verifier::external_body]
pub(crate) fn erase_bytes(v: &mut Vec<u8>)
    ensures
        final(v)@ == Seq::<u8>::empty(),
    opens_invariants none
    no_unwind
{
    v.zeroize();
}

/// Overwrites the bytes of `s` with zero and leaves `s` empty, through
/// `zeroize`'s implementation for `String`.
///
/// Trusted: `zeroize` treats the string as its byte vector, see
/// [`erase_bytes`].
#[verifier::external_body]
pub(crate) fn erase_string(s: &mut String)
    ensures
        final(s)@ == Seq::<char>::empty(),
    opens_invariants none
    no_unwind
{
    s.zeroize();
}

/// Erases every entry of `v` as [`erase_chars`] does, then leaves `v` empty,
/// through `zeroize`'s implementation for a `Vec` of erasable elements.
///
/// Trusted: `zeroize` erases each element in turn before it clears the
/// outer vector. The call does not panic.
#[verifier::external_body]
pub(crate) fn erase_entries(v: &mut Vec<Vec<char>>)
    ensures
        final(v)@ == Seq::<Vec<char>>::empty(),
    opens_invariants none
    no_unwind
{
    v.zeroize();
}

} // verus!
