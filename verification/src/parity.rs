//! Even-parity computation for 16-bit command frames.
//!
//! The device detects single-bit transmission errors on a command frame by
//! requiring the frame's total count of set bits to be even. Bit 15 of the
//! frame is reserved for the parity bit: it is set exactly when the count of
//! set bits in the remaining 15 bits is odd.

use vstd::prelude::*;

verus! {

/// Number of set bits in a 16-bit value.
pub open spec fn count_ones(x: u16) -> int {
    ((x >> 0) & 1) + ((x >> 1) & 1) + ((x >> 2) & 1) + ((x >> 3) & 1)
        + ((x >> 4) & 1) + ((x >> 5) & 1) + ((x >> 6) & 1) + ((x >> 7) & 1)
        + ((x >> 8) & 1) + ((x >> 9) & 1) + ((x >> 10) & 1) + ((x >> 11) & 1)
        + ((x >> 12) & 1) + ((x >> 13) & 1) + ((x >> 14) & 1) + ((x >> 15) & 1)
}

/// XOR-reduction of all 16 bits of `x`, by successive halving folds
/// (16 -> 8 -> 4 -> 2 -> 1 bits). The result is `1` when `x` has an odd
/// number of set bits, `0` otherwise.
pub open spec fn xor_fold(x: u16) -> u16 {
    let a = (x & 0x00FF) ^ (x >> 8);
    let b = (a & 0x000F) ^ (a >> 4);
    let c = (b & 0x0003) ^ (b >> 2);
    (c & 0x0001) ^ (c >> 1)
}

/// What `set_parity` returns: the input, with bit 15 set when the
/// XOR-reduction of the input's bits is odd.
pub open spec fn set_parity_spec(par: u16) -> u16 {
    if xor_fold(par) == 1 {
        par | 0x8000
    } else {
        par
    }
}

/// The XOR-reduction computes the parity of the count of set bits.
pub proof fn lemma_xor_fold_is_parity(x: u16)
    ensures
        xor_fold(x) == 1 <==> count_ones(x) % 2 == 1,
        xor_fold(x) == 0 || xor_fold(x) == 1,
{
    assert(xor_fold(x) == 1 <==> count_ones(x) % 2 == 1) by (bit_vector);
    assert(xor_fold(x) == 0 || xor_fold(x) == 1) by (bit_vector);
}

/// Choose bit 15 of `par` so that the result's total count of set bits is
/// even. Bits 14..0 are returned unchanged; callers pass a value whose
/// bit 15 is clear.
pub fn set_parity(par: u16) -> (r: u16)
    ensures
        r == set_parity_spec(par),
        count_ones(par) % 2 == 1 ==> r == (par | 0x8000),
        count_ones(par) % 2 == 0 ==> r == par,
        r & 0x7FFF == par & 0x7FFF,
        par & 0x8000 == 0 ==> count_ones(r) % 2 == 0,
{
    let mut x = par;

    x = (x & 0x00FF) ^ (x >> 8);
    x = (x & 0x000F) ^ (x >> 4);
    x = (x & 0x0003) ^ (x >> 2);
    x = (x & 0x0001) ^ (x >> 1);

    proof {
        lemma_xor_fold_is_parity(par);
        assert(x == xor_fold(par));
    }

    let r = if x == 0x0001 {
        par | 0x8000
    } else {
        par
    };

    proof {
        assert(r & 0x7FFF == par & 0x7FFF) by (bit_vector)
            requires r == par || r == (par | 0x8000);
        if par & 0x8000 == 0 && count_ones(par) % 2 == 1 {
            assert(par & 0x8000 == 0 ==> count_ones(par | 0x8000) == count_ones(par) + 1)
                by (bit_vector);
        }
    }

    r
}

} // verus!
