//! Arithmetic circuits: the half adder, the full adder, and the N-bit
//! ripple-carry adder chained from full adders.

use vstd::prelude::*;
use vstd::arithmetic::power2::pow2;
use crate::binary::{
    bit, bits_value, carry_bit, carry_into, lemma_ripple_adds, ripple_carry, ripple_sum, sum_bit,
};
use crate::gate::{AndGate, Inputs, OrGate, XorGate};

verus! {

/// Adds two bits.
pub struct HalfAdder {
    a: bool,
    b: bool,
}

impl View for HalfAdder {
    type V = Inputs;

    closed spec fn view(&self) -> Inputs {
        Inputs { a: self.a, b: self.b }
    }
}

impl HalfAdder {
    pub fn new(a: bool, b: bool) -> (adder: Self)
        ensures
            adder@ == (Inputs { a, b }),
    {
        Self { a, b }
    }

    /// The pair `(sum, carry)`, which holds `a + b` in binary.
    pub fn output(&self) -> (out: (bool, bool))
        ensures
            out == (self@.a != self@.b, self@.a && self@.b),
            bit(out.0) + 2 * bit(out.1) == bit(self@.a) + bit(self@.b),
    {
        let xor = XorGate::new(self.a, self.b);
        let and = AndGate::new(self.a, self.b);
        (xor.output(), and.output())
    }
}

/// The input lines of a full adder.
pub struct AdderLines {
    pub a: bool,
    pub b: bool,
    pub carry_in: bool,
}

/// Adds two bits and a carry.
pub struct FullAdder {
    a: bool,
    b: bool,
    carry_in: bool,
}

impl View for FullAdder {
    type V = AdderLines;

    closed spec fn view(&self) -> AdderLines {
        AdderLines { a: self.a, b: self.b, carry_in: self.carry_in }
    }
}

impl FullAdder {
    pub fn new(a: bool, b: bool, carry_in: bool) -> (adder: Self)
        ensures
            adder@ == (AdderLines { a, b, carry_in }),
    {
        Self { a, b, carry_in }
    }

    /// The pair `(sum, carry)`, which holds `a + b + carry_in` in binary.
    pub fn output(&self) -> (out: (bool, bool))
        ensures
            out == (
                sum_bit(self@.a, self@.b, self@.carry_in),
                carry_bit(self@.a, self@.b, self@.carry_in),
            ),
            bit(out.0) + 2 * bit(out.1) == bit(self@.a) + bit(self@.b) + bit(self@.carry_in),
    {
        let half_adder1 = HalfAdder::new(self.a, self.b);
        let half_adder1_output = half_adder1.output();
        let half_adder2 = HalfAdder::new(half_adder1_output.0, self.carry_in);
        let half_adder2_output = half_adder2.output();
        let or = OrGate::new(half_adder1_output.1, half_adder2_output.1);
        (half_adder2_output.0, or.output())
    }
}

/// Two bit vectors of one width, bit 0 first.
pub struct Operands {
    pub a: Seq<bool>,
    pub b: Seq<bool>,
}

/// Adds two `N`-bit numbers, bit 0 first.
pub struct NBitFullAdder<const N: usize> {
    a: [bool; N],
    b: [bool; N],
}

impl<const N: usize> View for NBitFullAdder<N> {
    type V = Operands;

    closed spec fn view(&self) -> Operands {
        Operands { a: self.a@, b: self.b@ }
    }
}

impl<const N: usize> NBitFullAdder<N> {
    pub fn new(a: [bool; N], b: [bool; N]) -> (adder: Self)
        ensures
            adder@ == (Operands { a: a@, b: b@ }),
    {
        Self { a, b }
    }

    /// The sum bits and the carry-out of a chain of `N` full adders with no
    /// carry entering it. The sum bits hold `A + B` modulo `2^N`, and the
    /// carry-out is high exactly when `A + B` does not fit in `N` bits.
    pub fn output(&self) -> (out: ([bool; N], bool))
        ensures
            out.0@ == ripple_sum(self@.a, self@.b, false),
            out.1 == ripple_carry(self@.a, self@.b, false),
            bits_value(out.0@) + bit(out.1) * pow2(N as nat) == bits_value(self@.a) + bits_value(
                self@.b,
            ),
            bits_value(out.0@) == (bits_value(self@.a) + bits_value(self@.b)) % pow2(N as nat),
            out.1 <==> bits_value(self@.a) + bits_value(self@.b) >= pow2(N as nat),
    {
        let mut carry = false;
        let mut result = [false; N];
        for i in 0..N
            invariant
                carry == carry_into(self.a@, self.b@, false, i as nat),
                forall|j: int|
                    0 <= j < i ==> result@[j] == sum_bit(
                        self.a@[j],
                        self.b@[j],
                        carry_into(self.a@, self.b@, false, j as nat),
                    ),
        {
            let full_adder = FullAdder::new(self.a[i], self.b[i], carry);
            let full_adder_output = full_adder.output();
            result[i] = full_adder_output.0;
            carry = full_adder_output.1;
        }
        proof {
            assert(result@ =~= ripple_sum(self.a@, self.b@, false));
            lemma_ripple_adds(self.a@, self.b@, false);
        }
        (result, carry)
    }
}

} // verus!
