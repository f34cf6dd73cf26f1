//! The registers of a general-purpose timer, as far as pulse-width modulation
//! uses them.
//!
//! A register block is a plain value with one field for each field of the
//! hardware's registers that the driver reads or writes. Where a field lies in
//! its register is not modelled.

use vstd::prelude::*;
use core::marker::PhantomData;

verus! {

/// The values of an output-compare mode field (`OCxM`).
#[derive(Clone, Copy, Debug, PartialEq, Eq, Structural)]
pub enum OutputCompareMode {
    /// The output does not follow the comparison.
    Frozen,
    /// The output goes high when the counter matches the compare value.
    ActiveOnMatch,
    /// The output goes low when the counter matches the compare value.
    InactiveOnMatch,
    /// The output toggles when the counter matches the compare value.
    Toggle,
    /// The output is held low.
    ForceInactive,
    /// The output is held high.
    ForceActive,
    /// The output is high while the counter is below the compare value.
    PwmMode1,
    /// The output is low while the counter is below the compare value.
    PwmMode2,
}

impl OutputCompareMode {
    /// The three bits that stand for the mode in its register field.
    pub open spec fn spec_bits(self) -> u8 {
        match self {
            OutputCompareMode::Frozen => 0b000,
            OutputCompareMode::ActiveOnMatch => 0b001,
            OutputCompareMode::InactiveOnMatch => 0b010,
            OutputCompareMode::Toggle => 0b011,
            OutputCompareMode::ForceInactive => 0b100,
            OutputCompareMode::ForceActive => 0b101,
            OutputCompareMode::PwmMode1 => 0b110,
            OutputCompareMode::PwmMode2 => 0b111,
        }
    }

    /// The three bits that stand for the mode in its register field.
    #[verifier::when_used_as_spec(spec_bits)]
    pub fn bits(self) -> (b: u8)
        ensures
            b == self.spec_bits(),
            b < 8,
    {
        match self {
            OutputCompareMode::Frozen => 0b000,
            OutputCompareMode::ActiveOnMatch => 0b001,
            OutputCompareMode::InactiveOnMatch => 0b010,
            OutputCompareMode::Toggle => 0b011,
            OutputCompareMode::ForceInactive => 0b100,
            OutputCompareMode::ForceActive => 0b101,
            OutputCompareMode::PwmMode1 => 0b110,
            OutputCompareMode::PwmMode2 => 0b111,
        }
    }
}

/// One of the four channels of a timer.
#[derive(Clone, Copy, Debug, PartialEq, Eq, Structural)]
pub enum ChannelIndex {
    /// Channel 1.
    Ch1,
    /// Channel 2.
    Ch2,
    /// Channel 3.
    Ch3,
    /// Channel 4.
    Ch4,
}

/// The register fields of one channel.
#[derive(Clone, Copy, Debug, PartialEq, Eq, Structural)]
pub struct ChannelRegisters {
    /// The output-compare mode (`OCxM`).
    pub mode: OutputCompareMode,
    /// Whether the compare value is preloaded (`OCxPE`).
    pub preload: bool,
    /// Whether the output is enabled (`CCxE`).
    pub output: bool,
    /// The compare value (`CCRx`): the duty, in counter steps.
    pub compare: u16,
}

impl ChannelRegisters {
    /// The fields of a channel after a reset of the timer.
    pub open spec fn spec_reset_value() -> ChannelRegisters {
        ChannelRegisters {
            mode: OutputCompareMode::Frozen,
            preload: false,
            output: false,
            compare: 0,
        }
    }

    /// The fields of a channel after a reset of the timer.
    #[verifier::when_used_as_spec(spec_reset_value)]
    pub fn reset_value() -> (c: ChannelRegisters)
        ensures
            c == ChannelRegisters::spec_reset_value(),
    {
        ChannelRegisters {
            mode: OutputCompareMode::Frozen,
            preload: false,
            output: false,
            compare: 0,
        }
    }

    /// The channel is set up for pulse-width modulation: mode 1, with preload.
    pub open spec fn is_pwm(self) -> bool {
        self.mode == OutputCompareMode::PwmMode1 && self.preload
    }

    /// The channel with mode 1 and preload selected.
    pub open spec fn with_pwm(self) -> ChannelRegisters {
        ChannelRegisters { mode: OutputCompareMode::PwmMode1, preload: true, ..self }
    }

    /// The channel with its output switched on or off.
    pub open spec fn with_output(self, on: bool) -> ChannelRegisters {
        ChannelRegisters { output: on, ..self }
    }

    /// The channel with another compare value.
    pub open spec fn with_compare(self, compare: u16) -> ChannelRegisters {
        ChannelRegisters { compare, ..self }
    }
}

/// One write to a register of a timer, by the fields that it sets.
#[derive(Clone, Copy, Debug, PartialEq, Eq, Structural)]
pub enum RegisterWrite {
    /// Writes the prescaler (`PSC`).
    Prescaler(u16),
    /// Writes the reload value (`ARR`).
    Reload(u16),
    /// Lets the counter run, or stops it (`CEN`).
    CounterEnable(bool),
    /// Writes the output-compare mode and the preload bit of a channel in
    /// one access (`OCxM` and `OCxPE`).
    OutputCompare(ChannelIndex, OutputCompareMode, bool),
    /// Switches the output of a channel on or off (`CCxE`).
    OutputEnable(ChannelIndex, bool),
    /// Writes the compare value of a channel (`CCRx`).
    Compare(ChannelIndex, u16),
}

/// The registers of one timer.
#[derive(Clone, Copy, Debug, PartialEq, Eq, Structural)]
pub struct RegisterBlock {
    /// Whether the counter runs (`CEN`).
    pub counter_enabled: bool,
    /// The prescaler (`PSC`): the counter advances every `prescaler + 1` clock cycles.
    pub prescaler: u16,
    /// The reload value (`ARR`): the counter's period.
    pub reload: u16,
    /// The fields of channel 1.
    pub channel1: ChannelRegisters,
    /// The fields of channel 2.
    pub channel2: ChannelRegisters,
    /// The fields of channel 3.
    pub channel3: ChannelRegisters,
    /// The fields of channel 4.
    pub channel4: ChannelRegisters,
}

impl RegisterBlock {
    /// The registers after a reset of the timer.
    pub open spec fn spec_reset_value() -> RegisterBlock {
        RegisterBlock {
            counter_enabled: false,
            prescaler: 0,
            reload: 0,
            channel1: ChannelRegisters::spec_reset_value(),
            channel2: ChannelRegisters::spec_reset_value(),
            channel3: ChannelRegisters::spec_reset_value(),
            channel4: ChannelRegisters::spec_reset_value(),
        }
    }

    /// The registers after a reset of the timer.
    #[verifier::when_used_as_spec(spec_reset_value)]
    pub fn reset_value() -> (block: RegisterBlock)
        ensures
            block == RegisterBlock::spec_reset_value(),
    {
        RegisterBlock {
            counter_enabled: false,
            prescaler: 0,
            reload: 0,
            channel1: ChannelRegisters::reset_value(),
            channel2: ChannelRegisters::reset_value(),
            channel3: ChannelRegisters::reset_value(),
            channel4: ChannelRegisters::reset_value(),
        }
    }

    /// The fields of one channel.
    pub open spec fn spec_channel(&self, index: ChannelIndex) -> ChannelRegisters {
        match index {
            ChannelIndex::Ch1 => self.channel1,
            ChannelIndex::Ch2 => self.channel2,
            ChannelIndex::Ch3 => self.channel3,
            ChannelIndex::Ch4 => self.channel4,
        }
    }

    /// The registers with other fields for one channel.
    pub open spec fn with_channel(self, index: ChannelIndex, channel: ChannelRegisters) -> RegisterBlock {
        match index {
            ChannelIndex::Ch1 => RegisterBlock { channel1: channel, ..self },
            ChannelIndex::Ch2 => RegisterBlock { channel2: channel, ..self },
            ChannelIndex::Ch3 => RegisterBlock { channel3: channel, ..self },
            ChannelIndex::Ch4 => RegisterBlock { channel4: channel, ..self },
        }
    }

    /// The registers after one write.
    pub open spec fn written(self, write: RegisterWrite) -> RegisterBlock {
        match write {
            RegisterWrite::Prescaler(psc) => RegisterBlock { prescaler: psc, ..self },
            RegisterWrite::Reload(arr) => RegisterBlock { reload: arr, ..self },
            RegisterWrite::CounterEnable(on) => RegisterBlock { counter_enabled: on, ..self },
            RegisterWrite::OutputCompare(index, mode, preload) => self.with_channel(
                index,
                ChannelRegisters { mode, preload, ..self.spec_channel(index) },
            ),
            RegisterWrite::OutputEnable(index, on) => self.with_channel(
                index,
                self.spec_channel(index).with_output(on),
            ),
            RegisterWrite::Compare(index, compare) => self.with_channel(
                index,
                self.spec_channel(index).with_compare(compare),
            ),
        }
    }

    /// Whether the driver may make a write: it switches an output on only
    /// once the channel is set up for pulse-width modulation, so that the pin
    /// never carries the signal of another mode.
    pub open spec fn permits(self, write: RegisterWrite) -> bool {
        write matches RegisterWrite::OutputEnable(index, true) ==> self.spec_channel(index).is_pwm()
    }

    /// The registers after a sequence of writes, oldest first.
    pub open spec fn written_all(self, writes: Seq<RegisterWrite>) -> RegisterBlock
        decreases writes.len(),
    {
        if writes.len() == 0 {
            self
        } else {
            self.written_all(writes.drop_last()).written(writes.last())
        }
    }

    /// The registers once the counter runs with the given prescaler and reload value.
    pub open spec fn started(self, psc: u16, arr: u16) -> RegisterBlock {
        RegisterBlock { prescaler: psc, reload: arr, counter_enabled: true, ..self }
    }

    /// The registers once a channel is set up for pulse-width modulation and
    /// its output is on.
    pub open spec fn enabled(self, index: ChannelIndex) -> RegisterBlock {
        self.with_channel(index, self.spec_channel(index).with_pwm().with_output(true))
    }

    /// The registers once the output of a channel is off.
    pub open spec fn disabled(self, index: ChannelIndex) -> RegisterBlock {
        self.with_channel(index, self.spec_channel(index).with_output(false))
    }

    /// The registers with another duty for a channel.
    pub open spec fn with_duty(self, index: ChannelIndex, duty: u16) -> RegisterBlock {
        self.with_channel(index, self.spec_channel(index).with_compare(duty))
    }

    /// The fields of one channel.
    #[verifier::when_used_as_spec(spec_channel)]
    pub fn channel(&self, index: ChannelIndex) -> (channel: ChannelRegisters)
        ensures
            channel == self.spec_channel(index),
    {
        match index {
            ChannelIndex::Ch1 => self.channel1,
            ChannelIndex::Ch2 => self.channel2,
            ChannelIndex::Ch3 => self.channel3,
            ChannelIndex::Ch4 => self.channel4,
        }
    }

    /// Makes one write to a register.
    pub fn apply(&mut self, write: RegisterWrite)
        ensures
            *final(self) == old(self).written(write),
    {
        match write {
            RegisterWrite::Prescaler(psc) => {
                self.prescaler = psc;
            },
            RegisterWrite::Reload(arr) => {
                self.reload = arr;
            },
            RegisterWrite::CounterEnable(on) => {
                self.counter_enabled = on;
            },
            RegisterWrite::OutputCompare(index, mode, preload) => {
                let channel: ChannelRegisters = self.channel(index);
                self.set_channel(index, ChannelRegisters { mode, preload, ..channel });
            },
            RegisterWrite::OutputEnable(index, on) => {
                let channel: ChannelRegisters = self.channel(index);
                self.set_channel(index, ChannelRegisters { output: on, ..channel });
            },
            RegisterWrite::Compare(index, compare) => {
                let channel: ChannelRegisters = self.channel(index);
                self.set_channel(index, ChannelRegisters { compare, ..channel });
            },
        }
    }

    fn set_channel(&mut self, index: ChannelIndex, channel: ChannelRegisters)
        ensures
            *final(self) == old(self).with_channel(index, channel),
    {
        match index {
            ChannelIndex::Ch1 => {
                self.channel1 = channel;
            },
            ChannelIndex::Ch2 => {
                self.channel2 = channel;
            },
            ChannelIndex::Ch3 => {
                self.channel3 = channel;
            },
            ChannelIndex::Ch4 => {
                self.channel4 = channel;
            },
        }
    }
}

impl RegisterBlock {
    /// A duty that was written is the duty that is read, whatever it is.
    pub proof fn lemma_duty_round_trip(self, index: ChannelIndex, duty: u16)
        ensures
            self.with_duty(index, duty).spec_channel(index).compare == duty,
    {
    }

    /// The reload value, which is the largest duty, stays what it is when a
    /// duty is written or an output is switched on or off.
    pub proof fn lemma_reload_kept(self, index: ChannelIndex, duty: u16)
        ensures
            self.with_duty(index, duty).reload == self.reload,
            self.enabled(index).reload == self.reload,
            self.disabled(index).reload == self.reload,
    {
    }

    /// Enabling a channel, disabling it and enabling it again leaves the
    /// registers as the first enabling did: the output is on, and the channel
    /// is in mode 1 with preload.
    pub proof fn lemma_enable_converges(self, index: ChannelIndex)
        ensures
            self.enabled(index).disabled(index).enabled(index) == self.enabled(index),
            self.enabled(index).spec_channel(index).output,
            self.enabled(index).spec_channel(index).is_pwm(),
            self.enabled(index).disabled(index).spec_channel(index).is_pwm(),
    {
    }

    /// Enabling twice is enabling once, and disabling twice is disabling once.
    pub proof fn lemma_idempotent(self, index: ChannelIndex)
        ensures
            self.enabled(index).enabled(index) == self.enabled(index),
            self.disabled(index).disabled(index) == self.disabled(index),
    {
    }

    /// What is done to one channel leaves the fields of every other channel,
    /// the prescaler and the counter's enable bit as they are.
    pub proof fn lemma_channels_apart(self, index: ChannelIndex, other: ChannelIndex, duty: u16)
        requires
            index != other,
        ensures
            self.enabled(index).spec_channel(other) == self.spec_channel(other),
            self.disabled(index).spec_channel(other) == self.spec_channel(other),
            self.with_duty(index, duty).spec_channel(other) == self.spec_channel(other),
            self.enabled(index).prescaler == self.prescaler,
            self.disabled(index).prescaler == self.prescaler,
            self.with_duty(index, duty).prescaler == self.prescaler,
            self.enabled(index).counter_enabled == self.counter_enabled,
            self.disabled(index).counter_enabled == self.counter_enabled,
            self.with_duty(index, duty).counter_enabled == self.counter_enabled,
    {
    }

    /// One more write at the end of a sequence is made after all of the sequence.
    pub proof fn lemma_written_all_push(self, writes: Seq<RegisterWrite>, write: RegisterWrite)
        ensures
            self.written_all(writes.push(write)) == self.written_all(writes).written(write),
    {
        assert(writes.push(write).drop_last() == writes);
    }

    /// Enabling is two writes in this order: the mode and the preload bit
    /// first, the output after them. Disabling and a new duty are one write each.
    pub proof fn lemma_as_writes(self, index: ChannelIndex, duty: u16)
        ensures
            self.enabled(index) == self.written(
                RegisterWrite::OutputCompare(index, OutputCompareMode::PwmMode1, true),
            ).written(RegisterWrite::OutputEnable(index, true)),
            self.written(
                RegisterWrite::OutputCompare(index, OutputCompareMode::PwmMode1, true),
            ).permits(RegisterWrite::OutputEnable(index, true)),
            self.disabled(index) == self.written(RegisterWrite::OutputEnable(index, false)),
            self.with_duty(index, duty) == self.written(RegisterWrite::Compare(index, duty)),
    {
    }
}

/// Timer `N` of a device of line `D`: its registers, and the writes to them
/// that were made and not yet taken out.
///
/// Whoever drives the device takes the writes out and carries them out in
/// their order: the registers of the device then are what the registers here
/// were when the writes were taken. A reset is not among the writes: it is
/// made through the reset and clock control.
pub struct Tim<D, const N: u8> {
    block: RegisterBlock,
    pending: Vec<RegisterWrite>,
    carried_out: Ghost<RegisterBlock>,
    device: PhantomData<D>,
}

/// Timer 2.
pub type TIM2<D> = Tim<D, 2>;

/// Timer 3.
pub type TIM3<D> = Tim<D, 3>;

impl<D, const N: u8> Tim<D, N> {
    /// The registers are those of the device with the pending writes made.
    #[verifier::type_invariant]
    spec fn in_step(&self) -> bool {
        self.block == self.carried_out@.written_all(self.pending@)
    }

    /// The registers of the timer.
    pub closed spec fn block(&self) -> RegisterBlock {
        self.block
    }

    /// The writes that were made and not yet taken out, oldest first.
    pub closed spec fn pending(&self) -> Seq<RegisterWrite> {
        self.pending@
    }

    /// The registers as they are on a device on which every write that was
    /// taken out has been carried out.
    pub closed spec fn on_device(&self) -> RegisterBlock {
        self.carried_out@
    }

    /// The timer as it is after a reset.
    pub fn new() -> (tim: Self)
        ensures
            tim.block() == RegisterBlock::spec_reset_value(),
            tim.pending() == Seq::<RegisterWrite>::empty(),
            tim.on_device() == RegisterBlock::spec_reset_value(),
    {
        let block: RegisterBlock = RegisterBlock::reset_value();
        Tim { block, pending: Vec::new(), carried_out: Ghost(block), device: PhantomData }
    }

    /// Reads the registers. They are those of the device with the pending
    /// writes made.
    pub fn load(&self) -> (block: RegisterBlock)
        ensures
            block == self.block(),
            block == self.on_device().written_all(self.pending()),
    {
        proof {
            use_type_invariant(self);
        }
        self.block
    }

    /// Puts the registers into the state they have after a reset. Writes that
    /// were not taken out are dropped: the reset undoes them.
    pub fn reset(&mut self)
        ensures
            final(self).block() == RegisterBlock::spec_reset_value(),
            final(self).pending() == Seq::<RegisterWrite>::empty(),
            final(self).on_device() == RegisterBlock::spec_reset_value(),
    {
        *self = Tim::new();
    }

    /// Makes one write to a register.
    pub fn store(&mut self, write: RegisterWrite)
        ensures
            final(self).block() == old(self).block().written(write),
            final(self).pending() == old(self).pending().push(write),
            final(self).on_device() == old(self).on_device(),
    {
        let mut taken: Self = Tim::new();
        core::mem::swap(self, &mut taken);
        proof {
            use_type_invariant(&taken);
        }
        let Tim { block, pending, carried_out, device } = taken;
        let mut block: RegisterBlock = block;
        let mut pending: Vec<RegisterWrite> = pending;
        proof {
            carried_out@.lemma_written_all_push(pending@, write);
        }
        block.apply(write);
        pending.push(write);
        *self = Tim { block, pending, carried_out, device };
    }

    /// Takes out the writes that were made since the last call, oldest first.
    /// Once they are carried out, the device has the registers that are here.
    pub fn take_writes(&mut self) -> (writes: Vec<RegisterWrite>)
        ensures
            writes@ == old(self).pending(),
            final(self).pending() == Seq::<RegisterWrite>::empty(),
            final(self).block() == old(self).block(),
            final(self).on_device() == old(self).on_device().written_all(writes@),
            final(self).on_device() == final(self).block(),
    {
        let mut taken: Self = Tim::new();
        core::mem::swap(self, &mut taken);
        proof {
            use_type_invariant(&taken);
        }
        let Tim { block, pending, carried_out, device } = taken;
        *self = Tim { block, pending: Vec::new(), carried_out: Ghost(block), device };
        pending
    }
}

} // verus!
