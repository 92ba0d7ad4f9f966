//! In-place ASCII case normalisation of byte buffers.
//!
//! Protocol keywords are compared case-insensitively, so a buffer is brought to
//! one case before it is looked up. Only the 26 ASCII letters are touched; every
//! other byte, including bytes above 0x7f, passes through unchanged.

use vstd::prelude::*;

verus! {

/// First ASCII lowercase letter, `a`.
pub const LOWER_BEGIN: u8 = 0x61;

/// Last ASCII lowercase letter, `z`.
pub const LOWER_END: u8 = 0x7a;

/// First ASCII uppercase letter, `A`.
pub const UPPER_BEGIN: u8 = 0x41;

/// Last ASCII uppercase letter, `Z`.
pub const UPPER_END: u8 = 0x5a;

/// Distance from an uppercase letter to its lowercase form.
pub const UPPER_TO_LOWER: u8 = 32;

/// `v` is one of `a..=z`.
pub open spec fn is_lower(v: u8) -> bool {
    LOWER_BEGIN <= v <= LOWER_END
}

/// `v` is one of `A..=Z`.
pub open spec fn is_upper(v: u8) -> bool {
    UPPER_BEGIN <= v <= UPPER_END
}

/// The uppercase form of one byte: letters `a..=z` move down by the case
/// distance, everything else stays.
pub open spec fn upper_byte(v: u8) -> u8 {
    if is_lower(v) {
        (v - UPPER_TO_LOWER) as u8
    } else {
        v
    }
}

/// The lowercase form of one byte: letters `A..=Z` move up by the case
/// distance, everything else stays.
pub open spec fn lower_byte(v: u8) -> u8 {
    if is_upper(v) {
        (v + UPPER_TO_LOWER) as u8
    } else {
        v
    }
}

/// The uppercase form of a buffer: same length, each byte replaced by its
/// uppercase form.
pub open spec fn to_upper(b: Seq<u8>) -> Seq<u8> {
    Seq::new(b.len(), |i: int| upper_byte(b[i]))
}

/// The lowercase form of a buffer: same length, each byte replaced by its
/// lowercase form.
pub open spec fn to_lower(b: Seq<u8>) -> Seq<u8> {
    Seq::new(b.len(), |i: int| lower_byte(b[i]))
}

/// Brings `src` to its uppercase form, in place.
pub fn update_to_upper(src: &mut [u8])
    ensures
        final(src)@ == to_upper(old(src)@),
{
    let n: usize = src.len();
    let mut i: usize = 0;
    while i < n
        invariant
            i <= n,
            src@.len() == n,
            old(src)@.len() == n,
            forall|j: int| 0 <= j < i ==> src@[j] == upper_byte(old(src)@[j]),
            forall|j: int| i <= j < n ==> src@[j] == old(src)@[j],
        decreases n - i,
    {
        let b: u8 = src[i];
        if LOWER_BEGIN <= b && b <= LOWER_END {
            src[i] = b - UPPER_TO_LOWER;
        }
        i += 1;
    }
}

/// Brings `src` to its lowercase form, in place.
pub fn update_to_lower(src: &mut [u8])
    ensures
        final(src)@ == to_lower(old(src)@),
{
    let n: usize = src.len();
    let mut i: usize = 0;
    while i < n
        invariant
            i <= n,
            src@.len() == n,
            old(src)@.len() == n,
            forall|j: int| 0 <= j < i ==> src@[j] == lower_byte(old(src)@[j]),
            forall|j: int| i <= j < n ==> src@[j] == old(src)@[j],
        decreases n - i,
    {
        let b: u8 = src[i];
        if UPPER_BEGIN <= b && b <= UPPER_END {
            src[i] = b + UPPER_TO_LOWER;
        }
        i += 1;
    }
}

/// Uppercasing is idempotent: a buffer that has been uppercased is left as it
/// is by uppercasing it again.
pub proof fn to_upper_idempotent(b: Seq<u8>)
    ensures
        to_upper(to_upper(b)) == to_upper(b),
{
}

/// Lowercasing is idempotent: a buffer that has been lowercased is left as it
/// is by lowercasing it again.
pub proof fn to_lower_idempotent(b: Seq<u8>)
    ensures
        to_lower(to_lower(b)) == to_lower(b),
{
}

/// Uppercasing keeps the length and decides each byte by itself: a byte of
/// `a..=z` becomes that byte minus 32, any other byte stays as it is.
pub proof fn to_upper_bytewise(b: Seq<u8>)
    ensures
        to_upper(b).len() == b.len(),
        forall|i: int|
            0 <= i < b.len() && 0x61 <= b[i] <= 0x7a ==> #[trigger] to_upper(b)[i] == b[i] - 32,
        forall|i: int|
            0 <= i < b.len() && !(0x61 <= b[i] <= 0x7a) ==> #[trigger] to_upper(b)[i] == b[i],
{
}

/// Lowercasing keeps the length and decides each byte by itself: a byte of
/// `A..=Z` becomes that byte plus 32, any other byte stays as it is.
pub proof fn to_lower_bytewise(b: Seq<u8>)
    ensures
        to_lower(b).len() == b.len(),
        forall|i: int|
            0 <= i < b.len() && 0x41 <= b[i] <= 0x5a ==> #[trigger] to_lower(b)[i] == b[i] + 32,
        forall|i: int|
            0 <= i < b.len() && !(0x41 <= b[i] <= 0x5a) ==> #[trigger] to_lower(b)[i] == b[i],
{
}

/// On a buffer of uppercase letters only, lowercasing and then uppercasing
/// gives the buffer back.
pub proof fn lower_then_upper_restores(b: Seq<u8>)
    requires
        forall|i: int| 0 <= i < b.len() ==> is_upper(#[trigger] b[i]),
    ensures
        to_upper(to_lower(b)) == b,
{
}

/// On a buffer of lowercase letters only, uppercasing and then lowercasing
/// gives the buffer back.
pub proof fn upper_then_lower_restores(b: Seq<u8>)
    requires
        forall|i: int| 0 <= i < b.len() ==> is_lower(#[trigger] b[i]),
    ensures
        to_lower(to_upper(b)) == b,
{
}

} // verus!
