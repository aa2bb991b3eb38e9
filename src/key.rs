use vstd::prelude::*;

verus! {

// Distances, brightnesses and other real quantities reach the library as
// order keys: 64-bit integers whose order is the order of the values they
// stand for, with zero standing for the value zero. All the decisions that
// the renderer makes on such quantities are comparisons, so they are taken
// here on the keys alone.

/// The key of the value zero. Keys below it stand for negative values.
pub const ZERO_KEY: u64 = 0x8000_0000_0000_0000;

/// The key stands for a value that is zero or more.
pub open spec fn non_negative(k: u64) -> bool {
    k >= ZERO_KEY
}

/// The key stands for a value that is more than zero.
pub open spec fn positive(k: u64) -> bool {
    k > ZERO_KEY
}

/// The key of an IEEE 754 double given by its bit pattern `bits`: a pattern
/// with the sign bit clear (zero or more) gets the sign bit set; one with the
/// sign bit set (negative) gets all its bits flipped. The negative zero
/// pattern has a key just below `ZERO_KEY`; callers hand in positive zero
/// for either zero.
pub open spec fn key_of_bits_spec(bits: u64) -> u64 {
    if bits >= ZERO_KEY {
        (u64::MAX - bits) as u64
    } else {
        (bits + ZERO_KEY) as u64
    }
}

/// Order key of the double whose bit pattern is `bits`.
pub fn key_of_bits(bits: u64) -> (r: u64)
    ensures
        r == key_of_bits_spec(bits),
        bits < ZERO_KEY <==> non_negative(r),
        bits == 0 ==> r == ZERO_KEY,
{
    if bits >= ZERO_KEY {
        u64::MAX - bits
    } else {
        bits + ZERO_KEY
    }
}

/// Keys keep the order of doubles: among patterns with the sign bit clear a
/// larger pattern is a larger value, among those with it set a larger pattern
/// is a smaller value, and every negative pattern lies below every other.
pub proof fn lemma_key_of_bits_order(a: u64, b: u64)
    ensures
        a < ZERO_KEY && b < ZERO_KEY ==> (a <= b <==> key_of_bits_spec(a) <= key_of_bits_spec(b)),
        a >= ZERO_KEY && b >= ZERO_KEY ==> (a <= b <==> key_of_bits_spec(b) <= key_of_bits_spec(a)),
        a >= ZERO_KEY && b < ZERO_KEY ==> key_of_bits_spec(a) < key_of_bits_spec(b),
{
}

} // verus!
