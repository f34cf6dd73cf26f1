//! Pulse-width modulation: the timer, its four channels, and the pins that a
//! channel can drive.

use vstd::prelude::*;
use core::marker::PhantomData;
use crate::gpio::AltMode;
use crate::prescale::{configure, reload, spec_configure, ticks, ConfigError};
use crate::rcc::{Clocks, Rcc, RccWrite, TimerLine};
use crate::registers::{
    ChannelIndex, OutputCompareMode, RegisterBlock, RegisterWrite, Tim, TIM2, TIM3,
};
use crate::time::Hertz;

verus! {

/// A timer that runs at the frequency it was made with, and its four channels.
pub struct Timer<I> {
    /// The timer itself. The channels reach their registers through it.
    pub instance: I,
    /// Channel 1, not yet bound to a pin.
    pub channel1: Pwm<I, C1, Unassigned>,
    /// Channel 2, not yet bound to a pin.
    pub channel2: Pwm<I, C2, Unassigned>,
    /// Channel 3, not yet bound to a pin.
    pub channel3: Pwm<I, C3, Unassigned>,
    /// Channel 4, not yet bound to a pin.
    pub channel4: Pwm<I, C4, Unassigned>,
}

impl<I> Timer<I> where I: Instance {
    /// Switches the timer on, resets it, and lets it count with a period of
    /// `1 / frequency`.
    ///
    /// The timer's clock is switched on and its reset line pulsed whatever is
    /// returned. The timer is started where the prescaler and the reload value
    /// for `frequency` fit their registers.
    pub fn new(timer: I, frequency: Hertz, rcc: &mut Rcc) -> (r: Result<Timer<I>, ConfigError>)
        ensures
            final(rcc).clocks() == old(rcc).clocks(),
            final(rcc).registers() == old(rcc).registers().enabled(I::line()),
            final(rcc).pending() == old(rcc).pending().push(RccWrite::ClockEnable(I::line())).push(
                RccWrite::Reset(I::line(), true),
            ).push(RccWrite::Reset(I::line(), false)),
            match spec_configure(I::input_clock(old(rcc).clocks()), frequency.0) {
                Ok(p) => {
                    &&& r matches Ok(t)
                    &&& t.instance.registers() == RegisterBlock::spec_reset_value().started(
                        p.psc,
                        p.arr,
                    )
                    &&& t.instance.pending() == seq![
                        RegisterWrite::Prescaler(p.psc),
                        RegisterWrite::Reload(p.arr),
                        RegisterWrite::CounterEnable(true),
                    ]
                    &&& t.channel1 == Pwm::<I, C1, Unassigned>::unassigned()
                    &&& t.channel2 == Pwm::<I, C2, Unassigned>::unassigned()
                    &&& t.channel3 == Pwm::<I, C3, Unassigned>::unassigned()
                    &&& t.channel4 == Pwm::<I, C4, Unassigned>::unassigned()
                },
                Err(e) => r == Err::<Timer<I>, ConfigError>(e),
            },
    {
        let mut timer = timer;
        timer.enable(rcc);
        let clk: u32 = timer.clock_frequency(rcc);
        match configure(clk, frequency.0) {
            Ok(p) => {
                timer.write(RegisterWrite::Prescaler(p.psc));
                timer.write(RegisterWrite::Reload(p.arr));
                timer.write(RegisterWrite::CounterEnable(true));
                Ok(
                    Timer {
                        instance: timer,
                        channel1: Pwm::new(),
                        channel2: Pwm::new(),
                        channel3: Pwm::new(),
                        channel4: Pwm::new(),
                    },
                )
            },
            Err(e) => Err(e),
        }
    }
}

/// Once a timer is set up for `frequency` from a clock of `clk`, the largest
/// duty is the reload value that belongs to that frequency, and it stays so
/// whatever duty is written to whichever channel.
pub proof fn lemma_max_duty(clk: u32, frequency: u32, index: ChannelIndex, duty: u16)
    requires
        spec_configure(clk, frequency) is Ok,
    ensures
        ({
            let p = spec_configure(clk, frequency)->Ok_0;
            let block = RegisterBlock::spec_reset_value().started(p.psc, p.arr);
            &&& block.reload == reload(ticks(clk, frequency))
            &&& block.with_duty(index, duty).reload == block.reload
            &&& block.with_duty(index, duty).spec_channel(index).compare == duty
        }),
{
}

/// One timer of the device.
pub trait Instance {
    /// The registers of the timer.
    spec fn registers(&self) -> RegisterBlock;

    /// The writes to the registers that were made and not yet carried out
    /// on the device, oldest first.
    spec fn pending(&self) -> Seq<RegisterWrite>;

    /// Which clock-enable and reset bits are the timer's.
    spec fn line() -> TimerLine;

    /// The frequency of the clock that drives the timer.
    spec fn input_clock(clocks: Clocks) -> u32;

    /// Switches the timer's clock on and pulses its reset line: three writes
    /// to the reset and clock control, in this order. The pulse puts the
    /// timer's registers into the state they have after a reset and undoes
    /// every write before it.
    fn enable(&mut self, rcc: &mut Rcc)
        ensures
            final(self).registers() == RegisterBlock::spec_reset_value(),
            final(self).pending() == Seq::<RegisterWrite>::empty(),
            final(rcc).clocks() == old(rcc).clocks(),
            final(rcc).registers() == old(rcc).registers().enabled(Self::line()),
            final(rcc).pending() == old(rcc).pending().push(
                RccWrite::ClockEnable(Self::line()),
            ).push(RccWrite::Reset(Self::line(), true)).push(RccWrite::Reset(Self::line(), false)),
    ;

    /// The frequency of the clock that drives the timer.
    fn clock_frequency(&self, rcc: &mut Rcc) -> (clk: u32)
        ensures
            clk == Self::input_clock(old(rcc).clocks()),
            *final(rcc) == *old(rcc),
    ;

    /// Reads the reload value.
    fn reload(&self) -> (arr: u16)
        ensures
            arr == self.registers().reload,
    ;

    /// Reads the compare value of a channel.
    fn compare(&self, index: ChannelIndex) -> (value: u16)
        ensures
            value == self.registers().spec_channel(index).compare,
    ;

    /// Makes one write to a register.
    fn write(&mut self, write: RegisterWrite)
        requires
            old(self).registers().permits(write),
        ensures
            final(self).registers() == old(self).registers().written(write),
            final(self).pending() == old(self).pending().push(write),
    ;
}

impl<D> Instance for TIM2<D> {
    open spec fn registers(&self) -> RegisterBlock {
        self.block()
    }

    open spec fn pending(&self) -> Seq<RegisterWrite> {
        Tim::pending(self)
    }

    open spec fn line() -> TimerLine {
        TimerLine::Tim2
    }

    open spec fn input_clock(clocks: Clocks) -> u32 {
        clocks.apb1_clk.0
    }

    fn enable(&mut self, rcc: &mut Rcc) {
        rcc.store(RccWrite::ClockEnable(TimerLine::Tim2));
        rcc.store(RccWrite::Reset(TimerLine::Tim2, true));
        self.reset();
        rcc.store(RccWrite::Reset(TimerLine::Tim2, false));
    }

    fn clock_frequency(&self, rcc: &mut Rcc) -> (clk: u32) {
        rcc.clocks().apb1_clk.0
    }

    fn reload(&self) -> (arr: u16) {
        self.load().reload
    }

    fn compare(&self, index: ChannelIndex) -> (value: u16) {
        self.load().channel(index).compare
    }

    fn write(&mut self, write: RegisterWrite) {
        self.store(write);
    }
}

impl<D> Instance for TIM3<D> {
    open spec fn registers(&self) -> RegisterBlock {
        self.block()
    }

    open spec fn pending(&self) -> Seq<RegisterWrite> {
        Tim::pending(self)
    }

    open spec fn line() -> TimerLine {
        TimerLine::Tim3
    }

    open spec fn input_clock(clocks: Clocks) -> u32 {
        clocks.apb1_clk.0
    }

    fn enable(&mut self, rcc: &mut Rcc) {
        rcc.store(RccWrite::ClockEnable(TimerLine::Tim3));
        rcc.store(RccWrite::Reset(TimerLine::Tim3, true));
        self.reset();
        rcc.store(RccWrite::Reset(TimerLine::Tim3, false));
    }

    fn clock_frequency(&self, rcc: &mut Rcc) -> (clk: u32) {
        rcc.clocks().apb1_clk.0
    }

    fn reload(&self) -> (arr: u16) {
        self.load().reload
    }

    fn compare(&self, index: ChannelIndex) -> (value: u16) {
        self.load().channel(index).compare
    }

    fn write(&mut self, write: RegisterWrite) {
        self.store(write);
    }
}

/// One of the four channels of a timer: it knows which fields of the
/// registers are its own.
pub trait Channel {
    /// Which channel this is.
    spec fn index() -> ChannelIndex;

    /// Which channel this is.
    fn id() -> (index: ChannelIndex)
        ensures
            index == Self::index(),
    ;

    /// Switches the channel's output off, in one write.
    fn disable<I: Instance>(tim: &mut I)
        ensures
            final(tim).registers() == old(tim).registers().disabled(Self::index()),
            final(tim).pending() == old(tim).pending().push(
                RegisterWrite::OutputEnable(Self::index(), false),
            ),
    {
        tim.write(RegisterWrite::OutputEnable(Self::id(), false));
    }

    /// Sets the channel up for pulse-width modulation, then switches its
    /// output on: two writes, in this order.
    fn enable<I: Instance>(tim: &mut I)
        ensures
            final(tim).registers() == old(tim).registers().enabled(Self::index()),
            final(tim).pending() == old(tim).pending().push(
                RegisterWrite::OutputCompare(Self::index(), OutputCompareMode::PwmMode1, true),
            ).push(RegisterWrite::OutputEnable(Self::index(), true)),
    {
        tim.write(RegisterWrite::OutputCompare(Self::id(), OutputCompareMode::PwmMode1, true));
        tim.write(RegisterWrite::OutputEnable(Self::id(), true));
    }

    /// The channel's duty.
    fn get_duty<I: Instance>(tim: &I) -> (duty: u16)
        ensures
            duty == tim.registers().spec_channel(Self::index()).compare,
    {
        tim.compare(Self::id())
    }

    /// Writes the channel's duty, in one write.
    fn set_duty<I: Instance>(tim: &mut I, duty: u16)
        ensures
            final(tim).registers() == old(tim).registers().with_duty(Self::index(), duty),
            final(tim).pending() == old(tim).pending().push(
                RegisterWrite::Compare(Self::index(), duty),
            ),
    {
        tim.write(RegisterWrite::Compare(Self::id(), duty));
    }
}

/// Channel 1.
#[derive(Debug)]
pub struct C1;

impl Channel for C1 {
    open spec fn index() -> ChannelIndex {
        ChannelIndex::Ch1
    }

    fn id() -> (index: ChannelIndex) {
        ChannelIndex::Ch1
    }
}

/// Channel 2.
#[derive(Debug)]
pub struct C2;

impl Channel for C2 {
    open spec fn index() -> ChannelIndex {
        ChannelIndex::Ch2
    }

    fn id() -> (index: ChannelIndex) {
        ChannelIndex::Ch2
    }
}

/// Channel 3.
#[derive(Debug)]
pub struct C3;

impl Channel for C3 {
    open spec fn index() -> ChannelIndex {
        ChannelIndex::Ch3
    }

    fn id() -> (index: ChannelIndex) {
        ChannelIndex::Ch3
    }
}

/// Channel 4.
#[derive(Debug)]
pub struct C4;

impl Channel for C4 {
    open spec fn index() -> ChannelIndex {
        ChannelIndex::Ch4
    }

    fn id() -> (index: ChannelIndex) {
        ChannelIndex::Ch4
    }
}

/// The handle of channel `C` of timer `I`, bound to a pin or not.
#[derive(Debug)]
pub struct Pwm<I, C, State> {
    channel: PhantomData<C>,
    timer: PhantomData<I>,
    _state: State,
}

impl<I, C> Pwm<I, C, Unassigned> {
    /// The handle of a channel that is bound to no pin.
    pub closed spec fn unassigned() -> Self {
        Pwm { channel: PhantomData, timer: PhantomData, _state: Unassigned }
    }

    /// The handle of a channel that is bound to no pin. Only a timer makes
    /// one, so that there is one handle for each of its channels.
    fn new() -> (pwm: Self)
        ensures
            pwm == Self::unassigned(),
    {
        Pwm { channel: PhantomData, timer: PhantomData, _state: Unassigned }
    }

    /// Binds the channel to a pin: the pin is switched to the alternate
    /// function that routes it to this channel, and kept in the handle.
    pub fn assign<P>(self, pin: P) -> (pwm: Pwm<I, C, Assigned<P>>) where P: Pin<I, C>
        ensures
            pwm.spec_pin().selected() == Some(P::alternate_function()),
    {
        let mut pin = pin;
        pin.setup();
        Pwm { channel: self.channel, timer: self.timer, _state: Assigned(pin) }
    }
}

impl<I, C, P> Pwm<I, C, Assigned<P>> {
    /// The pin that the channel drives.
    pub closed spec fn spec_pin(&self) -> P {
        self._state.0
    }

    /// The pin that the channel drives.
    pub fn pin(&self) -> (pin: &P)
        ensures
            *pin == self.spec_pin(),
    {
        &self._state.0
    }
}

impl<I, C, P> Pwm<I, C, Assigned<P>> where I: Instance, C: Channel {
    /// Switches the channel's output off, in one write.
    pub fn disable(&mut self, tim: &mut I)
        ensures
            final(tim).registers() == old(tim).registers().disabled(C::index()),
            final(tim).pending() == old(tim).pending().push(
                RegisterWrite::OutputEnable(C::index(), false),
            ),
            *final(self) == *old(self),
    {
        C::disable(tim);
    }

    /// Sets the channel up for pulse-width modulation, then switches its
    /// output on: two writes, in this order.
    pub fn enable(&mut self, tim: &mut I)
        ensures
            final(tim).registers() == old(tim).registers().enabled(C::index()),
            final(tim).pending() == old(tim).pending().push(
                RegisterWrite::OutputCompare(C::index(), OutputCompareMode::PwmMode1, true),
            ).push(RegisterWrite::OutputEnable(C::index(), true)),
            *final(self) == *old(self),
    {
        C::enable(tim);
    }

    /// The channel's duty, in counter steps.
    pub fn get_duty(&self, tim: &I) -> (duty: u16)
        ensures
            duty == tim.registers().spec_channel(C::index()).compare,
    {
        C::get_duty(tim)
    }

    /// The duty that keeps the output high for a whole period: the reload value.
    pub fn get_max_duty(&self, tim: &I) -> (duty: u16)
        ensures
            duty == tim.registers().reload,
    {
        tim.reload()
    }

    /// Writes the channel's duty, in counter steps, in one write.
    pub fn set_duty(&mut self, tim: &mut I, duty: u16)
        ensures
            final(tim).registers() == old(tim).registers().with_duty(C::index(), duty),
            final(tim).pending() == old(tim).pending().push(RegisterWrite::Compare(C::index(), duty)),
            *final(self) == *old(self),
    {
        C::set_duty(tim, duty);
    }
}

/// A pin that can be routed to channel `C` of timer `I`.
pub trait Pin<I, C> {
    /// The alternate function that routes the pin to the channel.
    spec fn alternate_function() -> AltMode;

    /// The alternate function that the pin is switched to, if any.
    spec fn selected(&self) -> Option<AltMode>;

    /// Switches the pin to the alternate function that routes it to the channel.
    fn setup(&mut self)
        ensures
            final(self).selected() == Some(Self::alternate_function()),
    ;
}

/// The state of a channel that is bound to no pin.
#[derive(Debug)]
pub struct Unassigned;

/// The state of a channel that is bound to the pin it holds.
#[derive(Debug)]
pub struct Assigned<P>(P);

} // verus!
