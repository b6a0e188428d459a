//! The N-bit subtractor: the adder chain fed with the inverted subtrahend
//! and a carry forced high.

use vstd::prelude::*;
use vstd::arithmetic::power2::pow2;
use crate::adder::{FullAdder, Operands};
use crate::binary::{
    bit, bits_value, carry_into, inverted, lemma_ripple_subtracts, ripple_carry, ripple_sum,
    sum_bit,
};
use crate::gate::NotGate;

verus! {

/// Subtracts one `N`-bit number from another, bit 0 first.
pub struct NBitFullSubtractor<const N: usize> {
    a: [bool; N],
    b: [bool; N],
}

impl<const N: usize> View for NBitFullSubtractor<N> {
    type V = Operands;

    closed spec fn view(&self) -> Operands {
        Operands { a: self.a@, b: self.b@ }
    }
}

impl<const N: usize> NBitFullSubtractor<N> {
    pub fn new(a: [bool; N], b: [bool; N]) -> (subtractor: Self)
        ensures
            subtractor@ == (Operands { a: a@, b: b@ }),
    {
        Self { a, b }
    }

    /// The result bits and the carry-out of a chain of `N` full adders that
    /// adds `A`, the inverse of `B`, and a carry of one. The result bits hold
    /// `A - B` modulo `2^N`. The carry-out is high exactly when `A >= B`: a
    /// low carry-out signals a borrow.
    pub fn output(&self) -> (out: ([bool; N], bool))
        ensures
            out.0@ == ripple_sum(self@.a, inverted(self@.b), true),
            out.1 == ripple_carry(self@.a, inverted(self@.b), true),
            bits_value(out.0@) + bit(out.1) * pow2(N as nat) == bits_value(self@.a) - bits_value(
                self@.b,
            ) + pow2(N as nat),
            bits_value(out.0@) == (bits_value(self@.a) - bits_value(self@.b)) % (pow2(
                N as nat,
            ) as int),
            out.1 <==> bits_value(self@.a) >= bits_value(self@.b),
    {
        let mut carry = true;
        let mut result = [false; N];
        for i in 0..N
            invariant
                carry == carry_into(self.a@, inverted(self.b@), true, i as nat),
                forall|j: int|
                    0 <= j < i ==> result@[j] == sum_bit(
                        self.a@[j],
                        !self.b@[j],
                        carry_into(self.a@, inverted(self.b@), true, j as nat),
                    ),
        {
            let not = NotGate::new(self.b[i]);
            let full_adder = FullAdder::new(self.a[i], not.output(), carry);
            let full_adder_output = full_adder.output();
            result[i] = full_adder_output.0;
            carry = full_adder_output.1;
        }
        proof {
            assert(result@ =~= ripple_sum(self.a@, inverted(self.b@), true));
            lemma_ripple_subtracts(self.a@, self.b@);
        }
        (result, carry)
    }
}

} // verus!
