use vstd::prelude::*;

verus! {

/// The sign bit of a 64-bit IEEE-754 pattern.
pub const SIGN_BIT: u64 = 0x8000_0000_0000_0000;

/// Whether the pattern `b` has its sign bit set.
pub open spec fn is_negative(b: u64) -> bool {
    b >= SIGN_BIT
}

/// The order of two doubles, NaN aside, read from their bit patterns: a
/// negative value precedes a non-negative one; among negative values the one
/// of larger magnitude comes first; among non-negative ones the one of
/// smaller magnitude. Negative zero precedes positive zero.
pub open spec fn bits_leq(a: u64, b: u64) -> bool {
    if is_negative(a) && is_negative(b) {
        b <= a
    } else if is_negative(a) {
        true
    } else if is_negative(b) {
        false
    } else {
        a <= b
    }
}

/// The key of the pattern `b`.
pub open spec fn key_spec(b: u64) -> u64 {
    if is_negative(b) {
        (u64::MAX - b) as u64
    } else {
        (b + SIGN_BIT) as u64
    }
}

/// The pattern whose key is `k`.
pub open spec fn bits_spec(k: u64) -> u64 {
    if k >= SIGN_BIT {
        (k - SIGN_BIT) as u64
    } else {
        (u64::MAX - k) as u64
    }
}

/// A key for the double whose bit pattern is `bits`: keys compare as
/// unsigned integers in the order of the values they stand for.
pub fn ordered_key(bits: u64) -> (k: u64)
    ensures
        k == key_spec(bits),
{
    if bits >= SIGN_BIT {
        u64::MAX - bits
    } else {
        bits + SIGN_BIT
    }
}

/// The bit pattern of the double that the key `key` stands for.
pub fn bits_of_key(key: u64) -> (b: u64)
    ensures
        b == bits_spec(key),
{
    if key >= SIGN_BIT {
        key - SIGN_BIT
    } else {
        u64::MAX - key
    }
}

/// Keys order values as the values themselves are ordered.
pub proof fn lemma_key_order(a: u64, b: u64)
    ensures
        bits_leq(a, b) <==> key_spec(a) <= key_spec(b),
{
}

/// Decoding a key gives back the pattern it was made from, and every key is
/// the key of the pattern it decodes to.
pub proof fn lemma_key_round_trip(b: u64, k: u64)
    ensures
        bits_spec(key_spec(b)) == b,
        key_spec(bits_spec(k)) == k,
{
}

} // verus!
