//! Numbers as the ledger stores them: as bytes, low byte first.

use vstd::prelude::*;
use vstd::arithmetic::div_mod::lemma_div_denominator;
use vstd::arithmetic::power::{lemma_pow0, lemma_pow_positive, pow};

verus! {

/// The byte of `x` at place `i`, counted from the low end.
pub open spec fn le_byte(x: nat, i: nat) -> u8 {
    ((x as int / pow(256, i)) % 256) as u8
}

/// The `n` low bytes of `x`, low byte first.
pub open spec fn le_bytes(x: nat, n: nat) -> Seq<u8> {
    Seq::new(n, |i: int| le_byte(x, i as nat))
}

/// Taking one more byte off the low end divides by one more power of 256.
proof fn lemma_next_place(x: int, i: nat)
    requires
        0 <= x,
    ensures
        (x / pow(256, i)) / 256 == x / pow(256, i + 1),
        0 < pow(256, i),
{
    lemma_pow_positive(256, i);
    lemma_div_denominator(x, pow(256, i), 256);
    assert(pow(256, i + 1) == 256 * pow(256, i)) by {
        reveal(pow);
    }
    assert(pow(256, i) * 256 == 256 * pow(256, i)) by (nonlinear_arith);
}

/// The sixteen bytes of `x`, low byte first.
pub fn u128_le_bytes(x: u128) -> (r: [u8; 16])
    ensures
        r@ == le_bytes(x as nat, 16),
{
    let mut out = [0u8; 16];
    let mut rest: u128 = x;
    let mut i: usize = 0;
    proof {
        lemma_pow0(256);
    }
    while i < 16
        invariant
            i <= 16,
            out@.len() == 16,
            rest as int == x as int / pow(256, i as nat),
            forall|j: int| 0 <= j < i ==> out@[j] == le_byte(x as nat, j as nat),
        decreases 16 - i,
    {
        out[i] = (rest % 256) as u8;
        proof {
            lemma_next_place(x as int, i as nat);
        }
        rest = rest / 256;
        i += 1;
    }
    assert(out@ =~= le_bytes(x as nat, 16));
    out
}

/// The eight bytes of `x`, low byte first.
pub fn u64_le_bytes(x: u64) -> (r: [u8; 8])
    ensures
        r@ == le_bytes(x as nat, 8),
{
    let wide = u128_le_bytes(x as u128);
    let mut out = [0u8; 8];
    let mut i: usize = 0;
    while i < 8
        invariant
            i <= 8,
            out@.len() == 8,
            wide@ == le_bytes(x as nat, 16),
            forall|j: int| 0 <= j < i ==> out@[j] == le_byte(x as nat, j as nat),
        decreases 8 - i,
    {
        out[i] = wide[i];
        i += 1;
    }
    assert(out@ =~= le_bytes(x as nat, 8));
    out
}

} // verus!
