//! Clocked register machines built from flip-flops.
//!
//! `OneBitCPU` is a single register fed with its own complement.
//! `OneBitFourRegisterCPU` is a bank of four registers with a read selector
//! and a write selector: each clock cycle copies the selected register into
//! the targeted one and leaves the others alone.

use vstd::prelude::*;
use crate::flip_flop::{lemma_clock_edge, lemma_data_keeps_output, DFlipFlop, FlipFlopState};
use crate::gate::NotGate;
use crate::multiplexer::{
    one_hot, selector_index, OneBitMultiplexer, TwoBitDemultiplexer, TwoBitMultiplexer,
};

verus! {

/// One step of the single-register machine: clock the register, then feed
/// the complement of what it shows back into its data line.
pub open spec fn toggle_tick(st: FlipFlopState, clk: bool) -> FlipFlopState {
    let clocked = st.set_clock(clk);
    clocked.set_data(!clocked.output())
}

/// After a step the data line carries the complement of the visible bit,
/// and the visible bit has moved only on a rising clock.
pub proof fn lemma_toggle_tick(st: FlipFlopState, clk: bool)
    requires
        st.wf(),
    ensures
        toggle_tick(st, clk).wf(),
        toggle_tick(st, clk).clk == clk,
        toggle_tick(st, clk).output() == if clk && !st.clk {
            st.d
        } else {
            st.output()
        },
        toggle_tick(st, clk).d == !toggle_tick(st, clk).output(),
{
    lemma_clock_edge(st, clk);
    lemma_data_keeps_output(st.set_clock(clk), !st.set_clock(clk).output());
}

/// A full clock cycle, low then high, inverts the visible bit.
pub proof fn lemma_toggle_cycle(st: FlipFlopState)
    requires
        st.wf(),
    ensures
        toggle_tick(toggle_tick(st, false), true).output() == !st.output(),
{
    lemma_toggle_tick(st, false);
    lemma_toggle_tick(toggle_tick(st, false), true);
}

/// A one-register machine that inverts its bit on every clock cycle.
pub struct OneBitCPU {
    dff: DFlipFlop,
}

impl View for OneBitCPU {
    type V = FlipFlopState;

    closed spec fn view(&self) -> FlipFlopState {
        self.dff@
    }
}

impl OneBitCPU {
    pub fn new() -> (cpu: OneBitCPU)
        ensures
            cpu@ == FlipFlopState::initial(),
            cpu@.wf(),
    {
        OneBitCPU { dff: DFlipFlop::new() }
    }

    /// Raises the data line ahead of the first clock edge.
    pub fn on(&mut self)
        ensures
            final(self)@ == old(self)@.set_data(true),
            old(self)@.wf() ==> final(self)@.wf(),
            old(self)@.wf() ==> final(self)@.output() == old(self)@.output(),
    {
        self.dff.set_d(true);
    }

    pub fn tick(&mut self, clk: bool)
        ensures
            final(self)@ == toggle_tick(old(self)@, clk),
            old(self)@.wf() ==> final(self)@.wf(),
            old(self)@.wf() ==> final(self)@.output() == if clk && !old(self)@.clk {
                old(self)@.d
            } else {
                old(self)@.output()
            },
    {
        self.dff.set_clk(clk);
        let output = self.dff.output();
        let not = NotGate::new(output);
        self.dff.set_d(not.output());
        proof {
            if old(self)@.wf() {
                lemma_toggle_tick(old(self)@, clk);
            }
        }
    }

    /// The register's visible bit. It depends on the state alone.
    pub fn dump(&self) -> (out: bool)
        ensures
            out == self@.output(),
    {
        self.dff.output()
    }
}

/// The state of the four-register machine: the registers in address order,
/// the read selector `sy` and the write selector `sx`.
pub struct RegisterFileState {
    pub regs: Seq<FlipFlopState>,
    pub sy: (bool, bool),
    pub sx: (bool, bool),
}

impl RegisterFileState {
    /// Four fresh registers, both selectors addressing register 0.
    pub open spec fn initial() -> RegisterFileState {
        RegisterFileState {
            regs: Seq::new(4, |i: int| FlipFlopState::initial()),
            sy: (false, false),
            sx: (false, false),
        }
    }

    /// The visible bit of every register, in address order.
    pub open spec fn outputs(self) -> Seq<bool> {
        Seq::new(4, |i: int| self.regs[i].output())
    }

    /// The address the read selector stands for.
    pub open spec fn source(self) -> int {
        selector_index(self.sy)
    }

    /// The address the write selector stands for.
    pub open spec fn target(self) -> int {
        selector_index(self.sx)
    }

    /// The clock level the registers were last driven with.
    pub open spec fn clock(self) -> bool {
        self.regs[0].clk
    }

    /// There are four registers, each well formed, all on one clock level.
    pub open spec fn wf(self) -> bool {
        &&& self.regs.len() == 4
        &&& forall|i: int| 0 <= i < 4 ==> (#[trigger] self.regs[i]).wf()
        &&& forall|i: int| 0 <= i < 4 ==> (#[trigger] self.regs[i]).clk == self.clock()
    }

    /// Raise the data line of register 0.
    pub open spec fn power_on(self) -> RegisterFileState {
        RegisterFileState {
            regs: self.regs.update(0, self.regs[0].set_data(true)),
            sy: self.sy,
            sx: self.sx,
        }
    }

    pub open spec fn set_selectors(self, sy: (bool, bool), sx: (bool, bool)) -> RegisterFileState {
        RegisterFileState { regs: self.regs, sy, sx }
    }

    /// Drive every register's clock line.
    pub open spec fn clocked(self, clk: bool) -> RegisterFileState {
        RegisterFileState {
            regs: Seq::new(4, |i: int| self.regs[i].set_clock(clk)),
            sy: self.sy,
            sx: self.sx,
        }
    }

    /// The bit on the shared bus: the visible bit of the source register.
    pub open spec fn routed(self) -> bool {
        self.outputs()[self.source()]
    }

    /// What register `i` is fed next: the bus if it is the target, its own
    /// visible bit otherwise.
    pub open spec fn next_data(self, i: int) -> bool {
        if i == self.target() {
            self.routed()
        } else {
            self.outputs()[i]
        }
    }

    /// Feed every register its next data bit. Every bit is taken from the
    /// state as it is now, before any data line moves.
    pub open spec fn latched(self) -> RegisterFileState {
        RegisterFileState {
            regs: Seq::new(4, |i: int| self.regs[i].set_data(self.next_data(i))),
            sy: self.sy,
            sx: self.sx,
        }
    }

    /// One step: clock every register, then feed every register.
    pub open spec fn tick(self, clk: bool) -> RegisterFileState {
        self.clocked(clk).latched()
    }

    /// Every data line carries what the selectors ask for, so the next
    /// rising clock performs the move.
    pub open spec fn primed(self) -> bool {
        forall|i: int| 0 <= i < 4 ==> (#[trigger] self.regs[i]).d == self.next_data(i)
    }

    /// The visible bits after a move from `source` to `target`.
    pub open spec fn moved(self) -> Seq<bool> {
        self.outputs().update(self.target(), self.routed())
    }
}

/// A fresh machine is well formed and shows 0 in every register.
pub proof fn lemma_initial_register_file()
    ensures
        RegisterFileState::initial().wf(),
        RegisterFileState::initial().outputs() == seq![false, false, false, false],
{
    assert(RegisterFileState::initial().outputs() =~= seq![false, false, false, false]);
}

/// Powering on changes no visible bit; it only raises register 0's data line.
pub proof fn lemma_power_on(st: RegisterFileState)
    requires
        st.wf(),
    ensures
        st.power_on().wf(),
        st.power_on().outputs() == st.outputs(),
        st.power_on().regs[0].d,
        forall|i: int| 1 <= i < 4 ==> st.power_on().regs[i] == st.regs[i],
{
    lemma_data_keeps_output(st.regs[0], true);
    assert(st.power_on().outputs() =~= st.outputs());
}

/// What one step does to a well-formed machine. On a rising clock every
/// register shows what was on its data line; on any other step every visible
/// bit stays. Either way the machine is left primed: the target's data line
/// carries the bit now shown by the source, every other data line the bit
/// its own register shows.
pub proof fn lemma_tick(st: RegisterFileState, clk: bool)
    requires
        st.wf(),
    ensures
        st.tick(clk).wf(),
        st.tick(clk).clock() == clk,
        st.tick(clk).sy == st.sy,
        st.tick(clk).sx == st.sx,
        forall|i: int|
            0 <= i < 4 ==> #[trigger] st.tick(clk).outputs()[i] == if clk && !st.clock() {
                st.regs[i].d
            } else {
                st.outputs()[i]
            },
        st.tick(clk).primed(),
{
    let c = st.clocked(clk);
    let t = st.tick(clk);
    assert forall|i: int| 0 <= i < 4 implies (#[trigger] t.regs[i]).wf() && t.regs[i].clk == clk
        && t.regs[i].output() == c.regs[i].output() && t.regs[i].d == c.next_data(i)
        && c.regs[i].output() == (if clk && !st.clock() {
        st.regs[i].d
    } else {
        st.regs[i].output()
    }) by {
        lemma_clock_edge(st.regs[i], clk);
        lemma_data_keeps_output(c.regs[i], c.next_data(i));
    }
    assert(t.outputs() =~= c.outputs());
}

/// A step that is not a rising clock leaves every visible bit as it was.
pub proof fn lemma_tick_without_edge(st: RegisterFileState, clk: bool)
    requires
        st.wf(),
        !clk || st.clock(),
    ensures
        st.tick(clk).outputs() == st.outputs(),
{
    lemma_tick(st, clk);
    assert(st.tick(clk).outputs() =~= st.outputs());
}

/// A rising clock on a primed machine performs the move: the target shows
/// the bit the source showed before the step, and every other register
/// shows what it showed before.
pub proof fn lemma_rising_tick_moves(st: RegisterFileState)
    requires
        st.wf(),
        !st.clock(),
        st.primed(),
    ensures
        st.tick(true).outputs() == st.moved(),
        forall|i: int|
            0 <= i < 4 && i != st.target() ==> st.tick(true).outputs()[i] == st.outputs()[i],
        st.tick(true).outputs()[st.target()] == st.outputs()[st.source()],
{
    lemma_tick(st, true);
    assert(st.tick(true).outputs() =~= st.moved());
}

/// A full clock cycle, low then high with the selectors left alone, is one
/// atomic move. Every register that is not the target shows afterwards what
/// it showed before the cycle, and the target shows what the source showed
/// before the cycle, also when source and target are the same register or
/// the source is overwritten.
pub proof fn lemma_clock_cycle_moves(st: RegisterFileState)
    requires
        st.wf(),
    ensures
        st.tick(false).tick(true).wf(),
        st.tick(false).tick(true).outputs() == st.moved(),
        forall|i: int|
            0 <= i < 4 && i != st.target() ==> st.tick(false).tick(true).outputs()[i]
                == st.outputs()[i],
        st.tick(false).tick(true).outputs()[st.target()] == st.outputs()[st.source()],
{
    let low = st.tick(false);
    lemma_tick(st, false);
    lemma_tick_without_edge(st, false);
    lemma_tick(low, true);
    lemma_rising_tick_moves(low);
    assert(low.moved() =~= st.moved());
}

/// Reading is repeatable. Two reports of one state, each returning what
/// `OneBitFourRegisterCPU::dump` promises for it, are the same.
pub proof fn lemma_dump_repeatable(st: RegisterFileState, first: Seq<bool>, second: Seq<bool>)
    requires
        first == st.outputs(),
        second == st.outputs(),
    ensures
        first == second,
{
}

/// Four one-bit registers with a shared bus.
pub struct OneBitFourRegisterCPU {
    dff: [DFlipFlop; 4],
    sy: (bool, bool),
    sx: (bool, bool),
}

impl View for OneBitFourRegisterCPU {
    type V = RegisterFileState;

    closed spec fn view(&self) -> RegisterFileState {
        RegisterFileState { regs: Seq::new(4, |i: int| self.dff[i]@), sy: self.sy, sx: self.sx }
    }
}

impl OneBitFourRegisterCPU {
    pub fn new() -> (cpu: OneBitFourRegisterCPU)
        ensures
            cpu@ == RegisterFileState::initial(),
            cpu@.wf(),
    {
        let cpu = OneBitFourRegisterCPU {
            dff: [DFlipFlop::new(), DFlipFlop::new(), DFlipFlop::new(), DFlipFlop::new()],
            sy: (false, false),
            sx: (false, false),
        };
        proof {
            assert(cpu@.regs =~= RegisterFileState::initial().regs);
            lemma_initial_register_file();
        }
        cpu
    }

    /// Raises register 0's data line ahead of the first clock edge.
    pub fn on(&mut self)
        ensures
            final(self)@ == old(self)@.power_on(),
            old(self)@.wf() ==> final(self)@.wf(),
            old(self)@.wf() ==> final(self)@.outputs() == old(self)@.outputs(),
    {
        self.dff[0].set_d(true);
        proof {
            assert(self@.regs =~= old(self)@.power_on().regs);
            if old(self)@.wf() {
                lemma_power_on(old(self)@);
            }
        }
    }

    /// Sets the read selector `sy` and the write selector `sx`. No register
    /// moves until the next step.
    pub fn set_sel(&mut self, sy: (bool, bool), sx: (bool, bool))
        ensures
            final(self)@ == old(self)@.set_selectors(sy, sx),
    {
        self.sy = sy;
        self.sx = sx;
    }

    /// One step with the given clock level.
    pub fn tick(&mut self, clk: bool)
        ensures
            final(self)@ == old(self)@.tick(clk),
            old(self)@.wf() ==> final(self)@.wf() && final(self)@.primed(),
            old(self)@.wf() ==> forall|i: int|
                0 <= i < 4 ==> #[trigger] final(self)@.outputs()[i] == if clk && !old(
                    self,
                )@.clock() {
                    old(self)@.regs[i].d
                } else {
                    old(self)@.outputs()[i]
                },
    {
        for i in 0..4
            invariant
                self.sy == old(self).sy,
                self.sx == old(self).sx,
                forall|j: int| 0 <= j < i ==> self.dff[j]@ == old(self).dff[j]@.set_clock(clk),
                forall|j: int| i <= j < 4 ==> self.dff[j]@ == old(self).dff[j]@,
        {
            self.dff[i].set_clk(clk);
        }
        proof {
            assert(self@.regs =~= old(self)@.clocked(clk).regs);
        }
        let ghost clocked = self@;
        let two_bit_mux = TwoBitMultiplexer::new(
            self.dff[0].output(),
            self.dff[1].output(),
            self.dff[2].output(),
            self.dff[3].output(),
            self.sy,
        );
        let demux = TwoBitDemultiplexer::new(self.sx);
        let one_bit_mux0 = OneBitMultiplexer::new(
            self.dff[0].output(),
            two_bit_mux.output(),
            demux.output().0,
        );
        let one_bit_mux1 = OneBitMultiplexer::new(
            self.dff[1].output(),
            two_bit_mux.output(),
            demux.output().1,
        );
        let one_bit_mux2 = OneBitMultiplexer::new(
            self.dff[2].output(),
            two_bit_mux.output(),
            demux.output().2,
        );
        let one_bit_mux3 = OneBitMultiplexer::new(
            self.dff[3].output(),
            two_bit_mux.output(),
            demux.output().3,
        );
        let next0 = one_bit_mux0.output();
        let next1 = one_bit_mux1.output();
        let next2 = one_bit_mux2.output();
        let next3 = one_bit_mux3.output();
        proof {
            assert(one_hot(self.sx).0 == (clocked.target() == 0));
            assert(next0 == clocked.next_data(0));
            assert(next1 == clocked.next_data(1));
            assert(next2 == clocked.next_data(2));
            assert(next3 == clocked.next_data(3));
        }
        self.dff[0].set_d(next0);
        self.dff[1].set_d(next1);
        self.dff[2].set_d(next2);
        self.dff[3].set_d(next3);
        proof {
            assert(self@.regs =~= clocked.latched().regs);
            if old(self)@.wf() {
                lemma_tick(old(self)@, clk);
            }
        }
    }

    /// The visible bit of every register, in address order. It depends on
    /// the state alone.
    pub fn dump(&self) -> (out: [bool; 4])
        ensures
            out@ == self@.outputs(),
    {
        let out = [
            self.dff[0].output(),
            self.dff[1].output(),
            self.dff[2].output(),
            self.dff[3].output(),
        ];
        proof {
            assert(out@ =~= self@.outputs());
        }
        out
    }
}

} // verus!
