//! Clearing secrets from memory with the `zeroize` crate.

use vstd::prelude::*;
use zeroize::Zeroize;

verus! {

/// `Zeroize::zeroize` on a `String`: the bytes are overwritten with zeros and
/// the string is left empty.
#[verifier::external_body]
pub(crate) fn zeroize_string(s: &mut String)
    ensures
        final(s)@ == Seq::<char>::empty(),
{
    s.zeroize();
}

/// `Zeroize::zeroize` on a `Vec<u8>`: the bytes are overwritten with zeros and
/// the vector is left empty.
#[verifier::external_body]
pub(crate) fn zeroize_bytes(v: &mut Vec<u8>)
    ensures
        final(v)@ == Seq::<u8>::empty(),
{
    v.zeroize();
}

/// `Zeroize::zeroize` on a `Vec<u16>`: the units are overwritten with zeros and
/// the vector is left empty.
#[verifier::external_body]
pub(crate) fn zeroize_units(v: &mut Vec<u16>)
    ensures
        final(v)@ == Seq::<u16>::empty(),
{
    v.zeroize();
}

/// `Zeroize::zeroize` on a `[u16]` slice: every unit becomes zero and the
/// length is kept.
#[verifier::external_body]
pub(crate) fn zeroize_unit_slice(v: &mut [u16])
    ensures
        final(v)@ == Seq::new(old(v)@.len(), |i: int| 0u16),
{
    v.zeroize();
}

/// Overwrites a UTF-16 buffer with zeros.
pub fn secure_zero_u16(value: &mut [u16])
    ensures
        final(value)@.len() == old(value)@.len(),
        forall|i: int| 0 <= i < final(value)@.len() ==> #[trigger] final(value)@[i] == 0,
{
    zeroize_unit_slice(value);
}

} // verus!
