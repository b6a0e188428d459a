//! Bit vectors as numbers, and what a chain of full adders computes.
//!
//! A vector is a sequence of bits with bit 0 first. The ripple-carry chain is
//! defined bit by bit; the lemmas here show that it adds, and that feeding it
//! an inverted operand with the carry forced high subtracts.

use vstd::prelude::*;
use vstd::arithmetic::div_mod::lemma_fundamental_div_mod_converse;
use vstd::arithmetic::power2::{lemma_pow2_pos, lemma_pow2_unfold, pow2};

verus! {

/// A line as a number: 1 when high, 0 when low.
pub open spec fn bit(level: bool) -> nat {
    if level {
        1
    } else {
        0
    }
}

/// The number held by the lowest `n` bits of a vector.
pub open spec fn low_bits_value(bits: Seq<bool>, n: nat) -> nat
    decreases n,
{
    if n == 0 {
        0
    } else {
        low_bits_value(bits, (n - 1) as nat) + bit(bits[n - 1]) * pow2((n - 1) as nat)
    }
}

/// The number held by a whole vector.
pub open spec fn bits_value(bits: Seq<bool>) -> nat {
    low_bits_value(bits, bits.len())
}

/// The sum output of a full adder: high for an odd number of high inputs.
pub open spec fn sum_bit(a: bool, b: bool, carry_in: bool) -> bool {
    (a != b) != carry_in
}

/// The carry output of a full adder: high when at least two inputs are high.
pub open spec fn carry_bit(a: bool, b: bool, carry_in: bool) -> bool {
    (a && b) || ((a != b) && carry_in)
}

/// The carry that enters position `i` of a chain of full adders.
pub open spec fn carry_into(a: Seq<bool>, b: Seq<bool>, carry_in: bool, i: nat) -> bool
    decreases i,
{
    if i == 0 {
        carry_in
    } else {
        carry_bit(a[i - 1], b[i - 1], carry_into(a, b, carry_in, (i - 1) as nat))
    }
}

/// The sum bits of a chain of full adders over two vectors of one length.
pub open spec fn ripple_sum(a: Seq<bool>, b: Seq<bool>, carry_in: bool) -> Seq<bool> {
    Seq::new(a.len(), |i: int| sum_bit(a[i], b[i], carry_into(a, b, carry_in, i as nat)))
}

/// The carry that leaves the last position of the chain.
pub open spec fn ripple_carry(a: Seq<bool>, b: Seq<bool>, carry_in: bool) -> bool {
    carry_into(a, b, carry_in, a.len())
}

/// A vector with every bit flipped.
pub open spec fn inverted(bits: Seq<bool>) -> Seq<bool> {
    Seq::new(bits.len(), |i: int| !bits[i])
}

/// A full adder counts its high inputs in binary.
pub proof fn lemma_full_adder_counts(a: bool, b: bool, carry_in: bool)
    ensures
        bit(sum_bit(a, b, carry_in)) + 2 * bit(carry_bit(a, b, carry_in)) == bit(a) + bit(b) + bit(
            carry_in,
        ),
{
}

/// `n` bits hold a number below `2^n`.
pub proof fn lemma_low_bits_value_bound(bits: Seq<bool>, n: nat)
    ensures
        low_bits_value(bits, n) < pow2(n),
    decreases n,
{
    lemma_pow2_pos(n);
    if n > 0 {
        lemma_low_bits_value_bound(bits, (n - 1) as nat);
        lemma_pow2_unfold(n);
    }
}

/// The lowest `n` sum bits, with the carry into position `n` as bit `n`,
/// hold the sum of the lowest `n` bits of both operands and the carry-in.
pub proof fn lemma_ripple_prefix(a: Seq<bool>, b: Seq<bool>, carry_in: bool, n: nat)
    requires
        a.len() == b.len(),
        n <= a.len(),
    ensures
        low_bits_value(ripple_sum(a, b, carry_in), n) + bit(carry_into(a, b, carry_in, n)) * pow2(n)
            == low_bits_value(a, n) + low_bits_value(b, n) + bit(carry_in),
    decreases n,
{
    if n == 0 {
        lemma_pow2_pos(0);
        assert(pow2(0) == 1) by {
            vstd::arithmetic::power2::lemma2_to64();
        }
    } else {
        let m = (n - 1) as nat;
        let c = carry_into(a, b, carry_in, m);
        let p = pow2(m);
        lemma_ripple_prefix(a, b, carry_in, m);
        lemma_full_adder_counts(a[m as int], b[m as int], c);
        lemma_pow2_unfold(n);
        assert(pow2(n) == 2 * p);
        assert(ripple_sum(a, b, carry_in)[m as int] == sum_bit(a[m as int], b[m as int], c));
        let s = bit(sum_bit(a[m as int], b[m as int], c));
        let k = bit(carry_bit(a[m as int], b[m as int], c));
        assert(s * p + k * (2 * p) == (bit(a[m as int]) + bit(b[m as int]) + bit(c)) * p)
            by (nonlinear_arith)
            requires
                s + 2 * k == bit(a[m as int]) + bit(b[m as int]) + bit(c),
        ;
        assert((bit(a[m as int]) + bit(b[m as int]) + bit(c)) * p == bit(a[m as int]) * p + bit(
            b[m as int],
        ) * p + bit(c) * p) by (nonlinear_arith);
    }
}

/// The chain adds. The sum bits together with the carry-out as the top bit
/// hold `A + B + carry_in`; so the sum bits alone hold that number modulo
/// `2^N`, and the carry-out is high exactly when it does not fit in `N` bits.
pub proof fn lemma_ripple_adds(a: Seq<bool>, b: Seq<bool>, carry_in: bool)
    requires
        a.len() == b.len(),
    ensures
        bits_value(ripple_sum(a, b, carry_in)) + bit(ripple_carry(a, b, carry_in)) * pow2(a.len())
            == bits_value(a) + bits_value(b) + bit(carry_in),
        bits_value(ripple_sum(a, b, carry_in)) == (bits_value(a) + bits_value(b) + bit(carry_in))
            % pow2(a.len()),
        ripple_carry(a, b, carry_in) <==> bits_value(a) + bits_value(b) + bit(carry_in) >= pow2(
            a.len(),
        ),
{
    let n = a.len();
    let sum = ripple_sum(a, b, carry_in);
    lemma_ripple_prefix(a, b, carry_in, n);
    lemma_low_bits_value_bound(sum, n);
    lemma_pow2_pos(n);
    let total = (bits_value(a) + bits_value(b) + bit(carry_in)) as int;
    let k = bit(ripple_carry(a, b, carry_in)) as int;
    lemma_fundamental_div_mod_converse(total, pow2(n) as int, k, bits_value(sum) as int);
}

/// A vector and its inverse add up to all ones.
pub proof fn lemma_inverted_value(bits: Seq<bool>, n: nat)
    requires
        n <= bits.len(),
    ensures
        low_bits_value(inverted(bits), n) + low_bits_value(bits, n) + 1 == pow2(n),
    decreases n,
{
    if n == 0 {
        assert(pow2(0) == 1) by {
            vstd::arithmetic::power2::lemma2_to64();
        }
    } else {
        let p = pow2((n - 1) as nat);
        lemma_inverted_value(bits, (n - 1) as nat);
        lemma_pow2_unfold(n);
        assert(inverted(bits)[n - 1] == !bits[n - 1]);
        assert(bit(!bits[n - 1]) * p + bit(bits[n - 1]) * p == p) by {
            assert(1 * p == p && 0 * p == 0);
        }
    }
}

/// The chain subtracts when it is fed the inverted subtrahend with the
/// carry-in forced high. The result bits hold `A - B` modulo `2^N`, and the
/// carry-out is high exactly when no borrow was needed, that is when
/// `A >= B`.
pub proof fn lemma_ripple_subtracts(a: Seq<bool>, b: Seq<bool>)
    requires
        a.len() == b.len(),
    ensures
        bits_value(ripple_sum(a, inverted(b), true)) + bit(ripple_carry(a, inverted(b), true))
            * pow2(a.len()) == bits_value(a) - bits_value(b) + pow2(a.len()),
        bits_value(ripple_sum(a, inverted(b), true)) == (bits_value(a) - bits_value(b)) % (pow2(
            a.len(),
        ) as int),
        ripple_carry(a, inverted(b), true) <==> bits_value(a) >= bits_value(b),
{
    let n = a.len();
    let diff = ripple_sum(a, inverted(b), true);
    let k = bit(ripple_carry(a, inverted(b), true)) as int;
    lemma_ripple_adds(a, inverted(b), true);
    lemma_inverted_value(b, n);
    lemma_low_bits_value_bound(diff, n);
    lemma_low_bits_value_bound(a, n);
    lemma_low_bits_value_bound(b, n);
    lemma_pow2_pos(n);
    lemma_fundamental_div_mod_converse(
        bits_value(a) - bits_value(b),
        pow2(n) as int,
        k - 1,
        bits_value(diff) as int,
    );
}

} // verus!
