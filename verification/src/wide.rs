//! UTF-16 ("wide") strings as Windows APIs take them.

use vstd::prelude::*;

use crate::text::chars_of;

verus! {

/// The UTF-16 code units of one character.
pub open spec fn utf16_units(c: char) -> Seq<u16> {
    let u = c as u32;
    if u < 0x10000 {
        seq![u as u16]
    } else {
        seq![(0xD800 + (u - 0x10000) / 0x400) as u16, (0xDC00 + (u - 0x10000) % 0x400) as u16]
    }
}

/// The UTF-16 encoding of a character sequence.
pub open spec fn utf16_encode(s: Seq<char>) -> Seq<u16>
    decreases s.len(),
{
    if s.len() == 0 {
        Seq::empty()
    } else {
        utf16_encode(s.drop_last()) + utf16_units(s.last())
    }
}

/// A leading (high) surrogate code unit.
pub open spec fn is_high_surrogate(u: u16) -> bool {
    0xD800 <= u <= 0xDBFF
}

/// A trailing (low) surrogate code unit.
pub open spec fn is_low_surrogate(u: u16) -> bool {
    0xDC00 <= u <= 0xDFFF
}

/// Lossy UTF-16 decoding, as `String::from_utf16_lossy` does it: a unit that
/// is no surrogate is its own character, a high surrogate followed by a low
/// one is the character they encode, and any other surrogate becomes U+FFFD
/// (the unit after an unpaired high surrogate is decoded on its own).
pub open spec fn utf16_lossy_decode(units: Seq<u16>) -> Seq<char>
    decreases units.len(),
{
    if units.len() == 0 {
        Seq::empty()
    } else if units.len() >= 2 && is_high_surrogate(units[0]) && is_low_surrogate(units[1]) {
        seq![
            ((0x10000 + (units[0] - 0xD800) * 0x400 + (units[1] - 0xDC00)) as u32) as char,
        ] + utf16_lossy_decode(units.skip(2))
    } else if is_high_surrogate(units[0]) || is_low_surrogate(units[0]) {
        seq!['\u{FFFD}'] + utf16_lossy_decode(units.skip(1))
    } else {
        seq![(units[0] as u32) as char] + utf16_lossy_decode(units.skip(1))
    }
}

/// `String::from_utf16_lossy(value)` (see `utf16_lossy_decode`).
#[verifier::external_body]
fn from_utf16_lossy(value: &[u16]) -> (r: String)
    ensures
        r@ == utf16_lossy_decode(value@),
{
    String::from_utf16_lossy(value)
}

/// The UTF-16 encoding of `value` followed by a terminating zero.
pub fn wide_null(value: &str) -> (r: Vec<u16>)
    ensures
        r@ == utf16_encode(value@).push(0u16),
{
    let cs = chars_of(value);
    let mut out: Vec<u16> = Vec::new();
    let mut i: usize = 0;
    while i < cs.len()
        invariant
            i <= cs@.len(),
            cs@ == value@,
            out@ == utf16_encode(cs@.take(i as int)),
        decreases cs@.len() - i,
    {
        let c = cs[i];
        let u = c as u32;
        assert(cs@.take(i + 1).drop_last() == cs@.take(i as int));
        if u < 0x10000 {
            out.push(u as u16);
        } else {
            let v = u - 0x10000;
            out.push((0xD800 + v / 0x400) as u16);
            out.push((0xDC00 + v % 0x400) as u16);
        }
        i = i + 1;
    }
    assert(cs@.take(cs@.len() as int) == cs@);
    out.push(0);
    out
}

/// Text from UTF-16 code units, with invalid units replaced.
pub fn wide_vec_to_string(value: &[u16]) -> (r: String)
    ensures
        r@ == utf16_lossy_decode(value@),
{
    from_utf16_lossy(value)
}

/// `k` is where a UTF-16 string stored in `units` ends when at most `max`
/// units may be read: the first zero unit, or the reading limit.
pub open spec fn is_wide_end(units: Seq<u16>, max: int, k: int) -> bool {
    &&& 0 <= k <= max
    &&& k <= units.len()
    &&& forall|j: int| 0 <= j < k ==> units[j] != 0u16
    &&& (k == max || k == units.len() || units[k] == 0u16)
}

fn wide_end(value: &[u16], max_chars: usize) -> (k: usize)
    ensures
        is_wide_end(value@, max_chars as int, k as int),
{
    let mut len: usize = 0;
    while len < max_chars && len < value.len() && value[len] != 0
        invariant
            len <= max_chars,
            len <= value@.len(),
            forall|j: int| 0 <= j < len ==> value@[j] != 0u16,
        decreases value@.len() - len,
    {
        len = len + 1;
    }
    len
}

/// The code units of a zero-terminated UTF-16 string held in `value`, reading
/// at most `max_chars` units and never past the end of `value`; the terminating
/// zero is not included.
pub fn wide_ptr_to_vec(value: &[u16], max_chars: usize) -> (r: Vec<u16>)
    ensures
        is_wide_end(value@, max_chars as int, r@.len() as int),
        r@ == value@.take(r@.len() as int),
{
    let k = wide_end(value, max_chars);
    let mut out: Vec<u16> = Vec::new();
    let mut i: usize = 0;
    while i < k
        invariant
            i <= k <= value@.len(),
            out@ == value@.take(i as int),
        decreases k - i,
    {
        out.push(value[i]);
        assert(value@.take(i + 1) == value@.take(i as int).push(value@[i as int]));
        i = i + 1;
    }
    out
}

/// The text of the zero-terminated UTF-16 string at the start of `value`.
pub fn string_from_wide_ptr(value: &[u16]) -> (r: String)
    requires
        exists|j: int| 0 <= j < value@.len() && value@[j] == 0u16,
    ensures
        exists|k: int|
            is_wide_end(value@, value@.len() as int, k) && k < value@.len() && r@
                == utf16_lossy_decode(value@.take(k)),
{
    let units = wide_ptr_to_vec(value, value.len());
    let ghost k = units@.len() as int;
    proof {
        let j = choose|j: int| 0 <= j < value@.len() && value@[j] == 0u16;
        assert(j >= k);
    }
    from_utf16_lossy(units.as_slice())
}

} // verus!
