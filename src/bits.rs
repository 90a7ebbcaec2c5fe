//! Bit-level facts about 64-bit occupancy masks.
use vstd::arithmetic::div_mod::{
    lemma_div_denominator,
    lemma_fundamental_div_mod_converse,
    lemma_mod_breakdown,
    lemma_mod_mod,
};
use vstd::arithmetic::power2::{lemma_pow2_pos, lemma_pow2_unfold, pow2};
use vstd::prelude::*;

verus! {

/// Whether square `i` is set in mask `m` (bit `i`, counting from the least
/// significant bit).
pub open spec fn has_bit(m: u64, i: u64) -> bool {
    (m >> i) & 1 == 1
}

/// The number of set bits in the binary representation of `m`.
pub open spec fn popcount(m: nat) -> nat
    decreases m,
{
    if m == 0 {
        0
    } else {
        (m % 2) as nat + popcount(m / 2)
    }
}

/// A bit of an intersection is set exactly when it is set in both operands.
pub proof fn lemma_has_bit_and(a: u64, b: u64, i: u64)
    requires
        i < 64,
    ensures
        has_bit(a & b, i) == (has_bit(a, i) && has_bit(b, i)),
{
    assert(((a & b) >> i) & 1 == 1 <==> ((a >> i) & 1 == 1 && (b >> i) & 1 == 1)) by (bit_vector)
        requires
            i < 64,
    ;
}

/// Two masks with an empty intersection never share a set bit.
pub proof fn lemma_disjoint_bits(a: u64, b: u64, i: u64)
    requires
        i < 64,
        a & b == 0,
    ensures
        !(has_bit(a, i) && has_bit(b, i)),
{
    assert(((a >> i) & 1 == 1 && (b >> i) & 1 == 1) ==> (a & b) != 0) by (bit_vector)
        requires
            i < 64,
    ;
}

/// Testing a bit against a one-bit mask agrees with `has_bit`.
pub proof fn lemma_test_bit(m: u64, i: u64)
    requires
        i < 64,
    ensures
        (m & (1u64 << i) != 0) == has_bit(m, i),
{
    assert((m & (1u64 << i) != 0) <==> ((m >> i) & 1 == 1)) by (bit_vector)
        requires
            i < 64,
    ;
}

/// Splitting a number at bit `k` splits its set bits: those below `k` and
/// those at or above it.
pub proof fn lemma_popcount_split(x: nat, k: nat)
    ensures
        pow2(k) > 0,
        popcount(x) == popcount(x % pow2(k)) + popcount(x / pow2(k)),
    decreases k,
{
    lemma_pow2_pos(k);
    if k == 0 {
        assert(pow2(0) == 1) by {
            lemma_pow2_unfold(1);
            vstd::arithmetic::power2::lemma2_to64();
        }
        assert(x % 1 == 0 && x / 1 == x);
    } else {
        let p = pow2((k - 1) as nat);
        lemma_pow2_pos((k - 1) as nat);
        lemma_pow2_unfold(k);
        let h = x / 2;
        lemma_popcount_split(h, (k - 1) as nat);
        // the high part: x / 2^k == (x / 2) / 2^(k-1)
        lemma_div_denominator(x as int, 2, p as int);
        // the low part: x % 2^k == 2 * ((x / 2) % 2^(k-1)) + x % 2
        lemma_mod_breakdown(x as int, 2, p as int);
        let y = x % pow2(k);
        lemma_fundamental_div_mod_converse(y as int, 2, (h % p) as int, (x % 2) as int);
        assert(popcount(y) == (x % 2) as nat + popcount(h % p));
        assert(popcount(x) == (x % 2) as nat + popcount(h));
    }
}

/// The set bits of a number are those of its 16-bit pieces, lowest first.
pub proof fn lemma_popcount_pieces(x: nat)
    ensures
        popcount(x) == popcount(x % 0x1_0000) + popcount((x / 0x1_0000) % 0x1_0000)
            + popcount((x / 0x1_0000_0000) % 0x1_0000) + popcount(x / 0x1_0000_0000_0000),
{
    vstd::arithmetic::power2::lemma2_to64();
    let a = x / 0x1_0000;
    let b = a / 0x1_0000;
    lemma_popcount_split(x, 16);
    lemma_popcount_split(a, 16);
    lemma_popcount_split(b, 16);
    lemma_div_denominator(x as int, 0x1_0000, 0x1_0000);
    lemma_div_denominator(a as int, 0x1_0000, 0x1_0000);
    lemma_div_denominator(x as int, 0x1_0000_0000, 0x1_0000);
}

/// Bit counts of the 16-bit pieces that make up the masks of the standard
/// starting layout.
pub(crate) proof fn lemma_popcount_pieces_of_start()
    ensures
        popcount(0) == 0,
        popcount(0xffff) == 16,
        popcount(0xff00) == 8,
        popcount(0xff) == 8,
        popcount(0x2400) == 2,
        popcount(0x24) == 2,
        popcount(0x4200) == 2,
        popcount(0x42) == 2,
        popcount(0x8100) == 2,
        popcount(0x81) == 2,
        popcount(0x1000) == 1,
        popcount(0x10) == 1,
        popcount(0x0800) == 1,
        popcount(0x08) == 1,
{
    reveal_with_fuel(popcount, 17);
}

} // verus!
