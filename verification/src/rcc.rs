//! The reset and clock control, as far as the timers use it.
//!
//! Like a timer, the clock tree keeps its registers as a value and records
//! the writes to them, so that they can be carried out on the device in
//! their order.

use vstd::prelude::*;
use crate::time::Hertz;

verus! {

/// The frequencies of the clock tree.
#[derive(Clone, Copy, Debug, PartialEq, Eq, Structural)]
pub struct Clocks {
    /// The clock of the first peripheral bus, which drives the timers.
    pub apb1_clk: Hertz,
}

/// A timer, as the reset and clock control knows it.
#[derive(Clone, Copy, Debug, PartialEq, Eq, Structural)]
pub enum TimerLine {
    /// Timer 2.
    Tim2,
    /// Timer 3.
    Tim3,
}

/// One write to a register of the reset and clock control, by the bit it changes.
#[derive(Clone, Copy, Debug, PartialEq, Eq, Structural)]
pub enum RccWrite {
    /// Sets the clock-enable bit of a timer (`TIMxEN`).
    ClockEnable(TimerLine),
    /// Sets or clears the reset bit of a timer (`TIMxRST`).
    Reset(TimerLine, bool),
}

/// The bits of the reset and clock control that belong to the timers.
#[derive(Clone, Copy, Debug, PartialEq, Eq, Structural)]
pub struct RccRegisters {
    /// Whether the clock of timer 2 is on.
    pub tim2en: bool,
    /// Whether timer 2 is held in reset.
    pub tim2rst: bool,
    /// Whether the clock of timer 3 is on.
    pub tim3en: bool,
    /// Whether timer 3 is held in reset.
    pub tim3rst: bool,
}

impl RccRegisters {
    /// The bits after a reset of the device: every clock off, no timer in reset.
    pub open spec fn spec_reset_value() -> RccRegisters {
        RccRegisters { tim2en: false, tim2rst: false, tim3en: false, tim3rst: false }
    }

    /// The bits after a reset of the device: every clock off, no timer in reset.
    #[verifier::when_used_as_spec(spec_reset_value)]
    pub fn reset_value() -> (registers: RccRegisters)
        ensures
            registers == RccRegisters::spec_reset_value(),
    {
        RccRegisters { tim2en: false, tim2rst: false, tim3en: false, tim3rst: false }
    }

    /// The bits after one write.
    pub open spec fn written(self, write: RccWrite) -> RccRegisters {
        match write {
            RccWrite::ClockEnable(TimerLine::Tim2) => RccRegisters { tim2en: true, ..self },
            RccWrite::ClockEnable(TimerLine::Tim3) => RccRegisters { tim3en: true, ..self },
            RccWrite::Reset(TimerLine::Tim2, on) => RccRegisters { tim2rst: on, ..self },
            RccWrite::Reset(TimerLine::Tim3, on) => RccRegisters { tim3rst: on, ..self },
        }
    }

    /// The bits after a sequence of writes, oldest first.
    pub open spec fn written_all(self, writes: Seq<RccWrite>) -> RccRegisters
        decreases writes.len(),
    {
        if writes.len() == 0 {
            self
        } else {
            self.written_all(writes.drop_last()).written(writes.last())
        }
    }

    /// One more write at the end of a sequence is made after all of the sequence.
    pub proof fn lemma_written_all_push(self, writes: Seq<RccWrite>, write: RccWrite)
        ensures
            self.written_all(writes.push(write)) == self.written_all(writes).written(write),
    {
        assert(writes.push(write).drop_last() == writes);
    }

    /// The bits once a timer's clock is on and its reset line was pulsed:
    /// asserted, then released.
    pub open spec fn enabled(self, line: TimerLine) -> RccRegisters {
        self.written(RccWrite::ClockEnable(line)).written(RccWrite::Reset(line, true)).written(
            RccWrite::Reset(line, false),
        )
    }

    /// Makes one write.
    pub fn apply(&mut self, write: RccWrite)
        ensures
            *final(self) == old(self).written(write),
    {
        match write {
            RccWrite::ClockEnable(TimerLine::Tim2) => {
                self.tim2en = true;
            },
            RccWrite::ClockEnable(TimerLine::Tim3) => {
                self.tim3en = true;
            },
            RccWrite::Reset(TimerLine::Tim2, on) => {
                self.tim2rst = on;
            },
            RccWrite::Reset(TimerLine::Tim3, on) => {
                self.tim3rst = on;
            },
        }
    }
}

/// The clock tree, the clock-enable and reset bits of the timers, and the
/// writes to those bits that were made and not yet taken out.
///
/// Whoever drives the device takes the writes out and carries them out in
/// their order: the bits of the device then are what the bits here were when
/// the writes were taken.
pub struct Rcc {
    clocks: Clocks,
    registers: RccRegisters,
    pending: Vec<RccWrite>,
    carried_out: Ghost<RccRegisters>,
}

impl Rcc {
    /// The bits are those of the device with the pending writes made.
    #[verifier::type_invariant]
    spec fn in_step(&self) -> bool {
        self.registers == self.carried_out@.written_all(self.pending@)
    }

    /// The frequencies of the clock tree.
    pub closed spec fn spec_clocks(&self) -> Clocks {
        self.clocks
    }

    /// The clock-enable and reset bits of the timers.
    pub closed spec fn registers(&self) -> RccRegisters {
        self.registers
    }

    /// The writes that were made and not yet taken out, oldest first.
    pub closed spec fn pending(&self) -> Seq<RccWrite> {
        self.pending@
    }

    /// The bits as they are on a device on which every write that was taken
    /// out has been carried out.
    pub closed spec fn on_device(&self) -> RccRegisters {
        self.carried_out@
    }

    /// A clock tree whose first peripheral bus runs at `apb1_clk`, with the
    /// clocks of the timers off and no timer in reset.
    pub fn new(apb1_clk: Hertz) -> (rcc: Rcc)
        ensures
            rcc.spec_clocks() == (Clocks { apb1_clk }),
            rcc.registers() == RccRegisters::spec_reset_value(),
            rcc.pending() == Seq::<RccWrite>::empty(),
            rcc.on_device() == RccRegisters::spec_reset_value(),
    {
        let registers: RccRegisters = RccRegisters::reset_value();
        Rcc {
            clocks: Clocks { apb1_clk },
            registers,
            pending: Vec::new(),
            carried_out: Ghost(registers),
        }
    }

    /// The frequencies of the clock tree.
    #[verifier::when_used_as_spec(spec_clocks)]
    pub fn clocks(&self) -> (clocks: Clocks)
        ensures
            clocks == self.spec_clocks(),
    {
        self.clocks
    }

    /// Reads the clock-enable and reset bits of the timers. They are those of
    /// the device with the pending writes made.
    pub fn load(&self) -> (registers: RccRegisters)
        ensures
            registers == self.registers(),
            registers == self.on_device().written_all(self.pending()),
    {
        proof {
            use_type_invariant(self);
        }
        self.registers
    }

    /// Makes one write.
    pub fn store(&mut self, write: RccWrite)
        ensures
            final(self).registers() == old(self).registers().written(write),
            final(self).pending() == old(self).pending().push(write),
            final(self).on_device() == old(self).on_device(),
            final(self).spec_clocks() == old(self).spec_clocks(),
    {
        let mut taken: Rcc = Rcc::new(self.clocks.apb1_clk);
        core::mem::swap(self, &mut taken);
        proof {
            use_type_invariant(&taken);
        }
        let Rcc { clocks, registers, pending, carried_out } = taken;
        let mut registers: RccRegisters = registers;
        let mut pending: Vec<RccWrite> = pending;
        proof {
            carried_out@.lemma_written_all_push(pending@, write);
        }
        registers.apply(write);
        pending.push(write);
        *self = Rcc { clocks, registers, pending, carried_out };
    }

    /// Takes out the writes that were made since the last call, oldest first.
    /// Once they are carried out, the device has the bits that are here.
    pub fn take_writes(&mut self) -> (writes: Vec<RccWrite>)
        ensures
            writes@ == old(self).pending(),
            final(self).pending() == Seq::<RccWrite>::empty(),
            final(self).registers() == old(self).registers(),
            final(self).on_device() == old(self).on_device().written_all(writes@),
            final(self).on_device() == final(self).registers(),
            final(self).spec_clocks() == old(self).spec_clocks(),
    {
        let mut taken: Rcc = Rcc::new(self.clocks.apb1_clk);
        core::mem::swap(self, &mut taken);
        proof {
            use_type_invariant(&taken);
        }
        let Rcc { clocks, registers, pending, carried_out } = taken;
        *self = Rcc { clocks, registers, pending: Vec::new(), carried_out: Ghost(registers) };
        pending
    }
}

} // verus!
