//! Bit-level helpers: 8-bit bit reversal and odd-parity support.

use vstd::prelude::*;

verus! {

/// Mathematical 8-bit reversal: bit `i` of the result is bit `7 - i` of
/// the argument.
pub open spec fn rev8(b: u8) -> u8 {
    ((b >> 7) & 1) | (((b >> 6) & 1) << 1) | (((b >> 5) & 1) << 2) | (((b >> 4) & 1) << 3) | (((b
        >> 3) & 1) << 4) | (((b >> 2) & 1) << 5) | (((b >> 1) & 1) << 6) | ((b & 1) << 7)
}

/// Number of set bits among the low `k` bits of `b`.
pub open spec fn popcount_low(b: u8, k: nat) -> nat
    decreases k,
{
    if k == 0 {
        0
    } else {
        popcount_low(b, (k - 1) as nat) + (((b >> ((k - 1) as u8)) & 1) as nat)
    }
}

/// Number of set bits of `b`.
pub open spec fn popcount(b: u8) -> nat {
    popcount_low(b, 8)
}

/// True when `b` has an even number of set bits, so that odd parity asks
/// for an extra one.
pub open spec fn even_parity(b: u8) -> bool {
    popcount(b) % 2 == 0
}

/// Reverse the bit order of a byte.
///
/// Relies on `bit_reverse::ParallelReverse::swap_bits` for `u8`: its
/// pair/nibble swaps put bit `i` of the argument at bit `7 - i` of the
/// result, which is exactly `rev8`.
#[verifier::external_body]
pub fn reverse_bits(sin: u8) -> (r: u8)
    ensures
        r == rev8(sin),
{
    bit_reverse::ParallelReverse::swap_bits(sin)
}

/// Count the set bits of `sout` and report whether the count is even,
/// i.e. whether an odd-parity frame needs its parity bit set.
pub fn compute_parity(sout: u8) -> (r: bool)
    ensures
        r == even_parity(sout),
{
    let mut num_ones: u8 = 0;
    let mut i: u8 = 0;
    while i < 8
        invariant
            i <= 8,
            num_ones == popcount_low(sout, i as nat),
            num_ones <= i,
        decreases 8 - i,
    {
        let bit: u8 = (sout >> i) & 1;
        assert(((sout >> i) & 1) <= 1) by (bit_vector);
        num_ones = num_ones + bit;
        i = i + 1;
    }
    num_ones % 2 == 0
}

} // verus!
