//! Sequential logic: a cross-coupled NAND latch and the master-slave
//! flip-flop built from two of them.
//!
//! Both cells are modelled by a plain record of their lines. A mutator's
//! contract is the exact next record; what makes the cells useful (the latch
//! settles, the flip-flop only moves on a rising clock) is proved from those
//! transition functions.

use vstd::prelude::*;
use crate::gate::{nand, NandGate, NotGate};

verus! {

/// The lines of a latch: the two inputs last applied and the two outputs.
pub struct LatchState {
    pub s: bool,
    pub r: bool,
    pub q: bool,
    pub nq: bool,
}

impl LatchState {
    /// The state a latch is built in: `q` follows the set line and `nq` is
    /// its complement.
    pub open spec fn initial(s: bool, r: bool) -> LatchState {
        LatchState { s, r, q: s, nq: !s }
    }

    /// Drive the set line. The `nq` half is resolved first, from the `q`
    /// half as it reacts to the new input, and is then fed back into `q`.
    pub open spec fn apply_set(self, s: bool) -> LatchState {
        let nq = nand(nand(s, self.nq), self.r);
        LatchState { s, r: self.r, q: nand(s, nq), nq }
    }

    /// Drive the reset line: the mirror image of `apply_set`.
    pub open spec fn apply_reset(self, r: bool) -> LatchState {
        let q = nand(self.s, nand(self.q, r));
        LatchState { s: self.s, r, q, nq: nand(q, r) }
    }

    /// Drive both lines, set first.
    pub open spec fn drive(self, s: bool, r: bool) -> LatchState {
        self.apply_set(s).apply_reset(r)
    }

    /// Exactly one of the two outputs is high.
    pub open spec fn complementary(self) -> bool {
        self.q != self.nq
    }

    /// Each output agrees with the NAND that produces it, so evaluating the
    /// two gates once more would change nothing.
    pub open spec fn settled(self) -> bool {
        &&& self.q == nand(self.s, self.nq)
        &&& self.nq == nand(self.q, self.r)
    }

    /// The outputs are complementary and `q` is not high against a low reset
    /// line. A latch in this condition keeps its bit when both lines are
    /// driven high.
    pub open spec fn retentive(self) -> bool {
        &&& self.q != self.nq
        &&& self.q ==> self.r
    }
}

/// Whatever the latch held, it is settled after either line is driven, and
/// its outputs are complementary unless both lines are now low.
pub proof fn lemma_latch_settles(st: LatchState, level: bool)
    ensures
        st.apply_set(level).settled(),
        st.apply_reset(level).settled(),
        st.apply_set(level).complementary() <==> (level || st.r),
        st.apply_reset(level).complementary() <==> (level || st.s),
{
}

/// What driving one line does. Pulling a line low forces the output on its
/// side high and leaves the other output to the opposite line. Raising a
/// line while the opposite line is high changes neither output of a latch
/// whose outputs are complementary.
pub proof fn lemma_latch_line(st: LatchState)
    ensures
        st.apply_set(false).q && st.apply_set(false).nq == !st.r,
        st.apply_reset(false).nq && st.apply_reset(false).q == !st.s,
        st.r && st.complementary() ==> st.apply_set(true).q == st.q && st.apply_set(true).nq
            == st.nq,
        st.s && st.complementary() ==> st.apply_reset(true).q == st.q && st.apply_reset(true).nq
            == st.nq,
{
}

/// What driving both lines does. A low set line alone raises `q`, a low
/// reset line alone clears it, and both lines low force both outputs high,
/// all three whatever was stored. Both lines high keep the bit of a
/// retentive latch.
pub proof fn lemma_latch_drive(st: LatchState, s: bool, r: bool)
    ensures
        !s && r ==> st.drive(s, r).q && !st.drive(s, r).nq,
        s && !r ==> !st.drive(s, r).q && st.drive(s, r).nq,
        !s && !r ==> st.drive(s, r).q && st.drive(s, r).nq,
        s && r && st.retentive() ==> st.drive(s, r).q == st.q && st.drive(s, r).nq == st.nq,
        s || r ==> st.drive(s, r).retentive(),
{
}

/// A bistable cell made of two cross-coupled NAND gates.
pub struct RSLatch {
    s: bool,
    r: bool,
    q: bool,
    nq: bool,
}

impl View for RSLatch {
    type V = LatchState;

    closed spec fn view(&self) -> LatchState {
        LatchState { s: self.s, r: self.r, q: self.q, nq: self.nq }
    }
}

impl RSLatch {
    /// Builds a latch from a pair of lines of which exactly one is high.
    pub fn new(s: bool, r: bool) -> (latch: RSLatch)
        requires
            s != r,
        ensures
            latch@ == LatchState::initial(s, r),
            latch@.complementary(),
    {
        if s {
            RSLatch { s, r, q: true, nq: false }
        } else {
            RSLatch { s, r, q: false, nq: true }
        }
    }

    pub fn set_s(&mut self, s: bool)
        ensures
            final(self)@ == old(self)@.apply_set(s),
            final(self)@.settled(),
            final(self)@.complementary() <==> (s || old(self)@.r),
    {
        self.s = s;
        let mut nand1 = NandGate::new(self.s, self.nq);
        let nand2 = NandGate::new(nand1.output(), self.r);
        nand1.set_b(nand2.output());
        self.q = nand1.output();
        self.nq = nand2.output();
    }

    pub fn set_r(&mut self, r: bool)
        ensures
            final(self)@ == old(self)@.apply_reset(r),
            final(self)@.settled(),
            final(self)@.complementary() <==> (r || old(self)@.s),
    {
        self.r = r;
        let mut nand2 = NandGate::new(self.q, self.r);
        let nand1 = NandGate::new(self.s, nand2.output());
        nand2.set_a(nand1.output());
        self.q = nand1.output();
        self.nq = nand2.output();
    }

    /// The pair `(q, nq)`.
    pub fn output(&self) -> (out: (bool, bool))
        ensures
            out == (self@.q, self@.nq),
    {
        (self.q, self.nq)
    }
}

/// The lines of a flip-flop: data, clock, and the two latches.
pub struct FlipFlopState {
    pub d: bool,
    pub clk: bool,
    pub master: LatchState,
    pub slave: LatchState,
}

impl FlipFlopState {
    /// A fresh flip-flop: data and clock low, both latches holding 0.
    pub open spec fn initial() -> FlipFlopState {
        FlipFlopState {
            d: false,
            clk: false,
            master: LatchState::initial(false, true),
            slave: LatchState::initial(false, true),
        }
    }

    /// The visible bit: the slave's `q`.
    pub open spec fn output(self) -> bool {
        self.slave.q
    }

    /// Re-evaluate the circuit for the current data and clock. The master is
    /// excited by the data gated with the inverted clock, then the slave by
    /// the master's new outputs gated with the true clock.
    pub open spec fn update(self) -> FlipFlopState {
        let not_clk = !self.clk;
        let master = self.master.drive(nand(self.d, not_clk), nand(!self.d, not_clk));
        let slave = self.slave.drive(nand(master.q, !not_clk), nand(master.nq, !not_clk));
        FlipFlopState { d: self.d, clk: self.clk, master, slave }
    }

    pub open spec fn set_data(self, d: bool) -> FlipFlopState {
        (FlipFlopState { d, clk: self.clk, master: self.master, slave: self.slave }).update()
    }

    pub open spec fn set_clock(self, clk: bool) -> FlipFlopState {
        (FlipFlopState { d: self.d, clk, master: self.master, slave: self.slave }).update()
    }

    /// Apply a series of data changes, first to last, with the clock untouched.
    pub open spec fn set_data_all(self, data: Seq<bool>) -> FlipFlopState
        decreases data.len(),
    {
        if data.len() == 0 {
            self
        } else {
            self.set_data_all(data.drop_last()).set_data(data.last())
        }
    }

    /// The condition every flip-flop is in. Both latches are retentive;
    /// while the clock is low the master tracks the data line, and while it
    /// is high the slave shows the master's bit.
    pub open spec fn wf(self) -> bool {
        &&& self.master.retentive()
        &&& self.slave.retentive()
        &&& !self.clk ==> self.master.q == self.d
        &&& self.clk ==> self.slave.q == self.master.q
    }
}

/// Changing the data line never changes the visible bit, whatever the clock
/// level; it only reaches the master, and only while the clock is low.
pub proof fn lemma_data_keeps_output(st: FlipFlopState, d: bool)
    requires
        st.wf(),
    ensures
        st.set_data(d).wf(),
        st.set_data(d).output() == st.output(),
        st.set_data(d).clk == st.clk,
        st.set_data(d).d == d,
{
}

/// The visible bit is the same after any series of data changes made while
/// the clock is left alone.
pub proof fn lemma_data_series_keeps_output(st: FlipFlopState, data: Seq<bool>)
    requires
        st.wf(),
    ensures
        st.set_data_all(data).wf(),
        st.set_data_all(data).output() == st.output(),
        st.set_data_all(data).clk == st.clk,
    decreases data.len(),
{
    if data.len() > 0 {
        lemma_data_series_keeps_output(st, data.drop_last());
        lemma_data_keeps_output(st.set_data_all(data.drop_last()), data.last());
    }
}

/// Edge triggering. Driving the clock changes the visible bit only on a
/// rising transition, and then it becomes the data value that was on the
/// line while the clock was low. Holding the level, or a falling transition,
/// leaves the bit as it was.
pub proof fn lemma_clock_edge(st: FlipFlopState, clk: bool)
    requires
        st.wf(),
    ensures
        st.set_clock(clk).wf(),
        st.set_clock(clk).output() == if clk && !st.clk {
            st.d
        } else {
            st.output()
        },
        st.set_clock(clk).clk == clk,
        st.set_clock(clk).d == st.d,
{
}

/// Reading is repeatable. Two reads of one state, each returning what
/// `DFlipFlop::output` promises for it, return the same bit.
pub proof fn lemma_output_repeatable(st: FlipFlopState, first: bool, second: bool)
    requires
        first == st.output(),
        second == st.output(),
    ensures
        first == second,
{
}

/// An edge-triggered D flip-flop: a master latch open while the clock is
/// low, feeding a slave latch open while the clock is high.
pub struct DFlipFlop {
    d: bool,
    clk: bool,
    rs1: RSLatch,
    rs2: RSLatch,
}

impl View for DFlipFlop {
    type V = FlipFlopState;

    closed spec fn view(&self) -> FlipFlopState {
        FlipFlopState { d: self.d, clk: self.clk, master: self.rs1@, slave: self.rs2@ }
    }
}

impl DFlipFlop {
    pub fn new() -> (ff: DFlipFlop)
        ensures
            ff@ == FlipFlopState::initial(),
            ff@.wf(),
            !ff@.output(),
    {
        DFlipFlop {
            d: false,
            clk: false,
            rs1: RSLatch::new(false, true),
            rs2: RSLatch::new(false, true),
        }
    }

    /// Drives the data line. The visible bit of a well-formed flip-flop
    /// stays as it was.
    pub fn set_d(&mut self, d: bool)
        ensures
            final(self)@ == old(self)@.set_data(d),
            old(self)@.wf() ==> final(self)@.wf(),
            old(self)@.wf() ==> final(self)@.output() == old(self)@.output(),
    {
        self.d = d;
        self.update();
        proof {
            if old(self)@.wf() {
                lemma_data_keeps_output(old(self)@, d);
            }
        }
    }

    /// Drives the clock line. The visible bit of a well-formed flip-flop
    /// takes the data value on a rising transition and stays as it was
    /// otherwise.
    pub fn set_clk(&mut self, clk: bool)
        ensures
            final(self)@ == old(self)@.set_clock(clk),
            old(self)@.wf() ==> final(self)@.wf(),
            old(self)@.wf() ==> final(self)@.output() == if clk && !old(self)@.clk {
                old(self)@.d
            } else {
                old(self)@.output()
            },
    {
        self.clk = clk;
        self.update();
        proof {
            if old(self)@.wf() {
                lemma_clock_edge(old(self)@, clk);
            }
        }
    }

    /// The visible bit. It depends on the state alone.
    pub fn output(&self) -> (out: bool)
        ensures
            out == self@.output(),
    {
        self.rs2.output().0
    }

    fn update(&mut self)
        ensures
            final(self)@ == old(self)@.update(),
    {
        let clock_not1 = NotGate::new(self.clk);
        let clock_not2 = NotGate::new(clock_not1.output());
        let d_not = NotGate::new(self.d);
        let nand1 = NandGate::new(self.d, clock_not1.output());
        let nand2 = NandGate::new(d_not.output(), clock_not1.output());
        self.rs1.set_s(nand1.output());
        self.rs1.set_r(nand2.output());
        let nand3 = NandGate::new(self.rs1.output().0, clock_not2.output());
        let nand4 = NandGate::new(self.rs1.output().1, clock_not2.output());
        self.rs2.set_s(nand3.output());
        self.rs2.set_r(nand4.output());
    }
}

} // verus!
