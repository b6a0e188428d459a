//! Routing circuits: multiplexers pick one of several data lines, the
//! demultiplexer decodes a selector into one enable line per target.

use vstd::prelude::*;
use crate::gate::{AndGate, NorGate, NotGate, OrGate};

verus! {

/// The number a two-line selector stands for; the first line is the low bit.
pub open spec fn selector_index(sel: (bool, bool)) -> int {
    (if sel.0 { 1int } else { 0int }) + (if sel.1 { 2int } else { 0int })
}

/// Every two-line selector addresses one of four lines.
pub proof fn lemma_selector_index_range(sel: (bool, bool))
    ensures
        0 <= selector_index(sel) < 4,
{
}

/// The lines of a two-way multiplexer.
pub struct MuxLines {
    pub a: bool,
    pub b: bool,
    pub sel: bool,
}

impl MuxLines {
    /// The selected line: `a` while `sel` is low, `b` while it is high.
    pub open spec fn selected(self) -> bool {
        if self.sel {
            self.b
        } else {
            self.a
        }
    }
}

/// A two-way multiplexer.
pub struct OneBitMultiplexer {
    a: bool,
    b: bool,
    sel: bool,
}

impl View for OneBitMultiplexer {
    type V = MuxLines;

    closed spec fn view(&self) -> MuxLines {
        MuxLines { a: self.a, b: self.b, sel: self.sel }
    }
}

impl OneBitMultiplexer {
    pub fn new(a: bool, b: bool, sel: bool) -> (mux: OneBitMultiplexer)
        ensures
            mux@ == (MuxLines { a, b, sel }),
    {
        OneBitMultiplexer { a, b, sel }
    }

    pub fn set_a(&mut self, a: bool)
        ensures
            final(self)@ == (MuxLines { a, b: old(self)@.b, sel: old(self)@.sel }),
    {
        self.a = a;
    }

    pub fn set_b(&mut self, b: bool)
        ensures
            final(self)@ == (MuxLines { a: old(self)@.a, b, sel: old(self)@.sel }),
    {
        self.b = b;
    }

    pub fn set_sel(&mut self, sel: bool)
        ensures
            final(self)@ == (MuxLines { a: old(self)@.a, b: old(self)@.b, sel }),
    {
        self.sel = sel;
    }

    pub fn output(&self) -> (out: bool)
        ensures
            out == self@.selected(),
    {
        let not = NotGate::new(self.sel);
        let and1 = AndGate::new(self.a, not.output());
        let and2 = AndGate::new(self.b, self.sel);
        let or = OrGate::new(and1.output(), and2.output());
        or.output()
    }
}

/// The lines of a four-way multiplexer.
pub struct Mux4Lines {
    pub a: bool,
    pub b: bool,
    pub c: bool,
    pub d: bool,
    pub sel: (bool, bool),
}

impl Mux4Lines {
    /// The four data lines in address order.
    pub open spec fn data(self) -> Seq<bool> {
        seq![self.a, self.b, self.c, self.d]
    }

    /// The data line that the selector addresses.
    pub open spec fn selected(self) -> bool {
        self.data()[selector_index(self.sel)]
    }
}

/// A four-way multiplexer, cascaded from three two-way stages.
pub struct TwoBitMultiplexer {
    a: bool,
    b: bool,
    c: bool,
    d: bool,
    sel: (bool, bool),
}

impl View for TwoBitMultiplexer {
    type V = Mux4Lines;

    closed spec fn view(&self) -> Mux4Lines {
        Mux4Lines { a: self.a, b: self.b, c: self.c, d: self.d, sel: self.sel }
    }
}

impl TwoBitMultiplexer {
    pub fn new(a: bool, b: bool, c: bool, d: bool, sel: (bool, bool)) -> (mux: TwoBitMultiplexer)
        ensures
            mux@ == (Mux4Lines { a, b, c, d, sel }),
    {
        TwoBitMultiplexer { a, b, c, d, sel }
    }

    pub fn set_a(&mut self, a: bool)
        ensures
            final(self)@ == (Mux4Lines { a, ..old(self)@ }),
    {
        self.a = a;
    }

    pub fn set_b(&mut self, b: bool)
        ensures
            final(self)@ == (Mux4Lines { b, ..old(self)@ }),
    {
        self.b = b;
    }

    pub fn set_c(&mut self, c: bool)
        ensures
            final(self)@ == (Mux4Lines { c, ..old(self)@ }),
    {
        self.c = c;
    }

    pub fn set_d(&mut self, d: bool)
        ensures
            final(self)@ == (Mux4Lines { d, ..old(self)@ }),
    {
        self.d = d;
    }

    pub fn set_sel(&mut self, sel: (bool, bool))
        ensures
            final(self)@ == (Mux4Lines { sel, ..old(self)@ }),
    {
        self.sel = sel;
    }

    pub fn output(&self) -> (out: bool)
        ensures
            out == self@.selected(),
    {
        let mux1 = OneBitMultiplexer::new(self.a, self.b, self.sel.0);
        let mux2 = OneBitMultiplexer::new(self.c, self.d, self.sel.0);
        let mux3 = OneBitMultiplexer::new(mux1.output(), mux2.output(), self.sel.1);
        mux3.output()
    }
}

/// The four enable lines for a selector: line `i` is high exactly when the
/// selector addresses `i`.
pub open spec fn one_hot(sel: (bool, bool)) -> (bool, bool, bool, bool) {
    (
        selector_index(sel) == 0,
        selector_index(sel) == 1,
        selector_index(sel) == 2,
        selector_index(sel) == 3,
    )
}

/// Exactly one enable line is high.
pub proof fn lemma_one_hot_exactly_one(sel: (bool, bool))
    ensures
        ({
            let e = one_hot(sel);
            (if e.0 { 1int } else { 0int }) + (if e.1 { 1int } else { 0int })
                + (if e.2 { 1int } else { 0int }) + (if e.3 { 1int } else { 0int }) == 1
        }),
{
}

/// A one-to-four decoder.
pub struct TwoBitDemultiplexer {
    sel: (bool, bool),
}

impl View for TwoBitDemultiplexer {
    type V = (bool, bool);

    closed spec fn view(&self) -> (bool, bool) {
        self.sel
    }
}

impl TwoBitDemultiplexer {
    pub fn new(sel: (bool, bool)) -> (demux: TwoBitDemultiplexer)
        ensures
            demux@ == sel,
    {
        TwoBitDemultiplexer { sel }
    }

    pub fn set_sel(&mut self, sel: (bool, bool))
        ensures
            final(self)@ == sel,
    {
        self.sel = sel;
    }

    pub fn output(&self) -> (out: (bool, bool, bool, bool))
        ensures
            out == one_hot(self@),
    {
        let not1 = NotGate::new(self.sel.0);
        let not2 = NotGate::new(self.sel.1);
        let not3 = NotGate::new(not1.output());
        let not4 = NotGate::new(not2.output());
        let nor1 = NorGate::new(not4.output(), not3.output());
        let nor2 = NorGate::new(not4.output(), not1.output());
        let nor3 = NorGate::new(not2.output(), not3.output());
        let nor4 = NorGate::new(not2.output(), not1.output());
        (nor1.output(), nor2.output(), nor3.output(), nor4.output())
    }
}

} // verus!
