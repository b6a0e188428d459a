//! The boolean gate library. Every gate is derived from NAND.

use vstd::prelude::*;

verus! {

/// The NAND function, from which every other gate is built.
pub open spec fn nand(a: bool, b: bool) -> bool {
    !(a && b)
}

/// The two input lines of a binary gate.
pub struct Inputs {
    pub a: bool,
    pub b: bool,
}

/// The primitive gate: its output is low only when both inputs are high.
pub struct NandGate {
    a: bool,
    b: bool,
}

impl View for NandGate {
    type V = Inputs;

    closed spec fn view(&self) -> Inputs {
        Inputs { a: self.a, b: self.b }
    }
}

impl NandGate {
    pub fn new(a: bool, b: bool) -> (gate: NandGate)
        ensures
            gate@ == (Inputs { a, b }),
    {
        NandGate { a, b }
    }

    pub fn set_a(&mut self, a: bool)
        ensures
            final(self)@ == (Inputs { a, b: old(self)@.b }),
    {
        self.a = a;
    }

    pub fn set_b(&mut self, b: bool)
        ensures
            final(self)@ == (Inputs { a: old(self)@.a, b }),
    {
        self.b = b;
    }

    pub fn output(&self) -> (out: bool)
        ensures
            out == nand(self@.a, self@.b),
    {
        !(self.a && self.b)
    }
}


/// An inverter: one NAND with both inputs tied together.
pub struct NotGate {
    a: bool,
}

impl View for NotGate {
    type V = bool;

    closed spec fn view(&self) -> bool {
        self.a
    }
}

impl NotGate {
    pub fn new(a: bool) -> (gate: NotGate)
        ensures
            gate@ == a,
    {
        NotGate { a }
    }

    pub fn set_a(&mut self, a: bool)
        ensures
            final(self)@ == a,
    {
        self.a = a;
    }

    pub fn output(&self) -> (out: bool)
        ensures
            out == !self@,
    {
        let nand = NandGate::new(self.a, self.a);
        nand.output()
    }
}

/// Conjunction: a NAND followed by an inverter.
pub struct AndGate {
    a: bool,
    b: bool,
}

impl View for AndGate {
    type V = Inputs;

    closed spec fn view(&self) -> Inputs {
        Inputs { a: self.a, b: self.b }
    }
}

impl AndGate {
    pub fn new(a: bool, b: bool) -> (gate: AndGate)
        ensures
            gate@ == (Inputs { a, b }),
    {
        AndGate { a, b }
    }

    pub fn set_a(&mut self, a: bool)
        ensures
            final(self)@ == (Inputs { a, b: old(self)@.b }),
    {
        self.a = a;
    }

    pub fn set_b(&mut self, b: bool)
        ensures
            final(self)@ == (Inputs { a: old(self)@.a, b }),
    {
        self.b = b;
    }

    pub fn output(&self) -> (out: bool)
        ensures
            out == (self@.a && self@.b),
    {
        let nand = NandGate::new(self.a, self.b);
        let not = NotGate::new(nand.output());
        not.output()
    }
}

/// Disjunction: a NAND of the two inverted inputs.
pub struct OrGate {
    a: bool,
    b: bool,
}

impl View for OrGate {
    type V = Inputs;

    closed spec fn view(&self) -> Inputs {
        Inputs { a: self.a, b: self.b }
    }
}

impl OrGate {
    pub fn new(a: bool, b: bool) -> (gate: OrGate)
        ensures
            gate@ == (Inputs { a, b }),
    {
        OrGate { a, b }
    }

    pub fn set_a(&mut self, a: bool)
        ensures
            final(self)@ == (Inputs { a, b: old(self)@.b }),
    {
        self.a = a;
    }

    pub fn set_b(&mut self, b: bool)
        ensures
            final(self)@ == (Inputs { a: old(self)@.a, b }),
    {
        self.b = b;
    }

    pub fn output(&self) -> (out: bool)
        ensures
            out == (self@.a || self@.b),
    {
        let not1 = NotGate::new(self.a);
        let not2 = NotGate::new(self.b);
        let nand = NandGate::new(not1.output(), not2.output());
        nand.output()
    }
}

/// Negated disjunction: an OR followed by an inverter.
pub struct NorGate {
    a: bool,
    b: bool,
}

impl View for NorGate {
    type V = Inputs;

    closed spec fn view(&self) -> Inputs {
        Inputs { a: self.a, b: self.b }
    }
}

impl NorGate {
    pub fn new(a: bool, b: bool) -> (gate: NorGate)
        ensures
            gate@ == (Inputs { a, b }),
    {
        NorGate { a, b }
    }

    pub fn set_a(&mut self, a: bool)
        ensures
            final(self)@ == (Inputs { a, b: old(self)@.b }),
    {
        self.a = a;
    }

    pub fn set_b(&mut self, b: bool)
        ensures
            final(self)@ == (Inputs { a: old(self)@.a, b }),
    {
        self.b = b;
    }

    pub fn output(&self) -> (out: bool)
        ensures
            out == (!(self@.a || self@.b)),
    {
        let or = OrGate::new(self.a, self.b);
        let not = NotGate::new(or.output());
        not.output()
    }
}

/// Exclusive or, from four NANDs.
pub struct XorGate {
    a: bool,
    b: bool,
}

impl View for XorGate {
    type V = Inputs;

    closed spec fn view(&self) -> Inputs {
        Inputs { a: self.a, b: self.b }
    }
}

impl XorGate {
    pub fn new(a: bool, b: bool) -> (gate: XorGate)
        ensures
            gate@ == (Inputs { a, b }),
    {
        XorGate { a, b }
    }

    pub fn set_a(&mut self, a: bool)
        ensures
            final(self)@ == (Inputs { a, b: old(self)@.b }),
    {
        self.a = a;
    }

    pub fn set_b(&mut self, b: bool)
        ensures
            final(self)@ == (Inputs { a: old(self)@.a, b }),
    {
        self.b = b;
    }

    pub fn output(&self) -> (out: bool)
        ensures
            out == (self@.a != self@.b),
    {
        let nand1 = NandGate::new(self.a, self.b);
        let output1 = nand1.output();
        let nand2 = NandGate::new(self.a, output1);
        let nand3 = NandGate::new(output1, self.b);
        let nand4 = NandGate::new(nand2.output(), nand3.output());
        nand4.output()
    }
}

} // verus!
