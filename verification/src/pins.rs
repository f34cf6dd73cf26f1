//! Which pin can carry the output of which channel of which timer, and
//! through which alternate function.
//!
//! A pin can be bound to a channel only where the device wires it to that
//! channel: each such wiring is one `impl` of `Pin` below, and `assign` takes no
//! other pin. Where a wiring exists on some lines of the family only, its `impl`
//! is bounded by the line of the timer's device.

use vstd::prelude::*;
use crate::device::{L072, L072OrL082, L0x2};
use crate::gpio::{
    AltMode,
    PA0, PA1, PA2, PA3, PA5, PA6, PA7, PA15, PB0, PB1, PB3, PB4, PB5, PB10, PB11, PC6,
    PC7, PC8, PC9, PE3, PE4, PE5, PE6, PE9, PE10, PE11, PE12,
};
use crate::pwm::{Pin, C1, C2, C3, C4};
use crate::registers::{TIM2, TIM3};

verus! {

/// PA0 carries channel 1 of timer 2, as alternate function 2.
///
/// On every device of the family.
impl<D> Pin<TIM2<D>, C1> for PA0 {
    open spec fn alternate_function() -> AltMode {
        AltMode::AF2
    }

    open spec fn selected(&self) -> Option<AltMode> {
        self.spec_alt_mode()
    }

    fn setup(&mut self) {
        self.set_alt_mode(AltMode::AF2);
    }
}

/// PA1 carries channel 2 of timer 2, as alternate function 2.
///
/// On every device of the family.
impl<D> Pin<TIM2<D>, C2> for PA1 {
    open spec fn alternate_function() -> AltMode {
        AltMode::AF2
    }

    open spec fn selected(&self) -> Option<AltMode> {
        self.spec_alt_mode()
    }

    fn setup(&mut self) {
        self.set_alt_mode(AltMode::AF2);
    }
}

/// PA2 carries channel 3 of timer 2, as alternate function 2.
///
/// On every device of the family.
impl<D> Pin<TIM2<D>, C3> for PA2 {
    open spec fn alternate_function() -> AltMode {
        AltMode::AF2
    }

    open spec fn selected(&self) -> Option<AltMode> {
        self.spec_alt_mode()
    }

    fn setup(&mut self) {
        self.set_alt_mode(AltMode::AF2);
    }
}

/// PA3 carries channel 4 of timer 2, as alternate function 2.
///
/// On every device of the family.
impl<D> Pin<TIM2<D>, C4> for PA3 {
    open spec fn alternate_function() -> AltMode {
        AltMode::AF2
    }

    open spec fn selected(&self) -> Option<AltMode> {
        self.spec_alt_mode()
    }

    fn setup(&mut self) {
        self.set_alt_mode(AltMode::AF2);
    }
}

/// PA5 carries channel 1 of timer 2, as alternate function 5.
///
/// On the devices of the STM32L0x2 line.
impl<D: L0x2> Pin<TIM2<D>, C1> for PA5 {
    open spec fn alternate_function() -> AltMode {
        AltMode::AF5
    }

    open spec fn selected(&self) -> Option<AltMode> {
        self.spec_alt_mode()
    }

    fn setup(&mut self) {
        self.set_alt_mode(AltMode::AF5);
    }
}

/// PA15 carries channel 1 of timer 2, as alternate function 5.
///
/// On the devices of the STM32L0x2 line.
impl<D: L0x2> Pin<TIM2<D>, C1> for PA15 {
    open spec fn alternate_function() -> AltMode {
        AltMode::AF5
    }

    open spec fn selected(&self) -> Option<AltMode> {
        self.spec_alt_mode()
    }

    fn setup(&mut self) {
        self.set_alt_mode(AltMode::AF5);
    }
}

/// PB3 carries channel 2 of timer 2, as alternate function 2.
///
/// On the devices of the STM32L0x2 line.
impl<D: L0x2> Pin<TIM2<D>, C2> for PB3 {
    open spec fn alternate_function() -> AltMode {
        AltMode::AF2
    }

    open spec fn selected(&self) -> Option<AltMode> {
        self.spec_alt_mode()
    }

    fn setup(&mut self) {
        self.set_alt_mode(AltMode::AF2);
    }
}

/// PB10 carries channel 3 of timer 2, as alternate function 2.
///
/// On the devices of the STM32L0x2 line.
impl<D: L0x2> Pin<TIM2<D>, C3> for PB10 {
    open spec fn alternate_function() -> AltMode {
        AltMode::AF2
    }

    open spec fn selected(&self) -> Option<AltMode> {
        self.spec_alt_mode()
    }

    fn setup(&mut self) {
        self.set_alt_mode(AltMode::AF2);
    }
}

/// PB11 carries channel 4 of timer 2, as alternate function 2.
///
/// On the devices of the STM32L0x2 line.
impl<D: L0x2> Pin<TIM2<D>, C4> for PB11 {
    open spec fn alternate_function() -> AltMode {
        AltMode::AF2
    }

    open spec fn selected(&self) -> Option<AltMode> {
        self.spec_alt_mode()
    }

    fn setup(&mut self) {
        self.set_alt_mode(AltMode::AF2);
    }
}

/// PA6 carries channel 1 of timer 3, as alternate function 2.
///
/// On the STM32L072 and the STM32L082.
impl<D: L072OrL082> Pin<TIM3<D>, C1> for PA6 {
    open spec fn alternate_function() -> AltMode {
        AltMode::AF2
    }

    open spec fn selected(&self) -> Option<AltMode> {
        self.spec_alt_mode()
    }

    fn setup(&mut self) {
        self.set_alt_mode(AltMode::AF2);
    }
}

/// PA7 carries channel 2 of timer 3, as alternate function 2.
///
/// On the STM32L072 and the STM32L082.
impl<D: L072OrL082> Pin<TIM3<D>, C2> for PA7 {
    open spec fn alternate_function() -> AltMode {
        AltMode::AF2
    }

    open spec fn selected(&self) -> Option<AltMode> {
        self.spec_alt_mode()
    }

    fn setup(&mut self) {
        self.set_alt_mode(AltMode::AF2);
    }
}

/// PB0 carries channel 3 of timer 3, as alternate function 2.
///
/// On the STM32L072 and the STM32L082.
impl<D: L072OrL082> Pin<TIM3<D>, C3> for PB0 {
    open spec fn alternate_function() -> AltMode {
        AltMode::AF2
    }

    open spec fn selected(&self) -> Option<AltMode> {
        self.spec_alt_mode()
    }

    fn setup(&mut self) {
        self.set_alt_mode(AltMode::AF2);
    }
}

/// PB1 carries channel 4 of timer 3, as alternate function 2.
///
/// On the STM32L072 and the STM32L082.
impl<D: L072OrL082> Pin<TIM3<D>, C4> for PB1 {
    open spec fn alternate_function() -> AltMode {
        AltMode::AF2
    }

    open spec fn selected(&self) -> Option<AltMode> {
        self.spec_alt_mode()
    }

    fn setup(&mut self) {
        self.set_alt_mode(AltMode::AF2);
    }
}

/// PB4 carries channel 1 of timer 3, as alternate function 2.
///
/// On the STM32L072 and the STM32L082.
impl<D: L072OrL082> Pin<TIM3<D>, C1> for PB4 {
    open spec fn alternate_function() -> AltMode {
        AltMode::AF2
    }

    open spec fn selected(&self) -> Option<AltMode> {
        self.spec_alt_mode()
    }

    fn setup(&mut self) {
        self.set_alt_mode(AltMode::AF2);
    }
}

/// PB5 carries channel 2 of timer 3, as alternate function 4.
///
/// On the STM32L072 and the STM32L082.
impl<D: L072OrL082> Pin<TIM3<D>, C2> for PB5 {
    open spec fn alternate_function() -> AltMode {
        AltMode::AF4
    }

    open spec fn selected(&self) -> Option<AltMode> {
        self.spec_alt_mode()
    }

    fn setup(&mut self) {
        self.set_alt_mode(AltMode::AF4);
    }
}

/// PE9 carries channel 1 of timer 2, as alternate function 0.
///
/// On the STM32L072.
impl<D: L072> Pin<TIM2<D>, C1> for PE9 {
    open spec fn alternate_function() -> AltMode {
        AltMode::AF0
    }

    open spec fn selected(&self) -> Option<AltMode> {
        self.spec_alt_mode()
    }

    fn setup(&mut self) {
        self.set_alt_mode(AltMode::AF0);
    }
}

/// PE10 carries channel 2 of timer 2, as alternate function 0.
///
/// On the STM32L072.
impl<D: L072> Pin<TIM2<D>, C2> for PE10 {
    open spec fn alternate_function() -> AltMode {
        AltMode::AF0
    }

    open spec fn selected(&self) -> Option<AltMode> {
        self.spec_alt_mode()
    }

    fn setup(&mut self) {
        self.set_alt_mode(AltMode::AF0);
    }
}

/// PE11 carries channel 3 of timer 2, as alternate function 0.
///
/// On the STM32L072.
impl<D: L072> Pin<TIM2<D>, C3> for PE11 {
    open spec fn alternate_function() -> AltMode {
        AltMode::AF0
    }

    open spec fn selected(&self) -> Option<AltMode> {
        self.spec_alt_mode()
    }

    fn setup(&mut self) {
        self.set_alt_mode(AltMode::AF0);
    }
}

/// PE12 carries channel 4 of timer 2, as alternate function 0.
///
/// On the STM32L072.
impl<D: L072> Pin<TIM2<D>, C4> for PE12 {
    open spec fn alternate_function() -> AltMode {
        AltMode::AF0
    }

    open spec fn selected(&self) -> Option<AltMode> {
        self.spec_alt_mode()
    }

    fn setup(&mut self) {
        self.set_alt_mode(AltMode::AF0);
    }
}

/// PC6 carries channel 1 of timer 3, as alternate function 2.
///
/// On the STM32L072.
impl<D: L072> Pin<TIM3<D>, C1> for PC6 {
    open spec fn alternate_function() -> AltMode {
        AltMode::AF2
    }

    open spec fn selected(&self) -> Option<AltMode> {
        self.spec_alt_mode()
    }

    fn setup(&mut self) {
        self.set_alt_mode(AltMode::AF2);
    }
}

/// PC7 carries channel 2 of timer 3, as alternate function 2.
///
/// On the STM32L072.
impl<D: L072> Pin<TIM3<D>, C2> for PC7 {
    open spec fn alternate_function() -> AltMode {
        AltMode::AF2
    }

    open spec fn selected(&self) -> Option<AltMode> {
        self.spec_alt_mode()
    }

    fn setup(&mut self) {
        self.set_alt_mode(AltMode::AF2);
    }
}

/// PC8 carries channel 3 of timer 3, as alternate function 2.
///
/// On the STM32L072.
impl<D: L072> Pin<TIM3<D>, C3> for PC8 {
    open spec fn alternate_function() -> AltMode {
        AltMode::AF2
    }

    open spec fn selected(&self) -> Option<AltMode> {
        self.spec_alt_mode()
    }

    fn setup(&mut self) {
        self.set_alt_mode(AltMode::AF2);
    }
}

/// PC9 carries channel 4 of timer 3, as alternate function 2.
///
/// On the STM32L072.
impl<D: L072> Pin<TIM3<D>, C4> for PC9 {
    open spec fn alternate_function() -> AltMode {
        AltMode::AF2
    }

    open spec fn selected(&self) -> Option<AltMode> {
        self.spec_alt_mode()
    }

    fn setup(&mut self) {
        self.set_alt_mode(AltMode::AF2);
    }
}

/// PE3 carries channel 1 of timer 3, as alternate function 2.
///
/// On the STM32L072.
impl<D: L072> Pin<TIM3<D>, C1> for PE3 {
    open spec fn alternate_function() -> AltMode {
        AltMode::AF2
    }

    open spec fn selected(&self) -> Option<AltMode> {
        self.spec_alt_mode()
    }

    fn setup(&mut self) {
        self.set_alt_mode(AltMode::AF2);
    }
}

/// PE4 carries channel 2 of timer 3, as alternate function 2.
///
/// On the STM32L072.
impl<D: L072> Pin<TIM3<D>, C2> for PE4 {
    open spec fn alternate_function() -> AltMode {
        AltMode::AF2
    }

    open spec fn selected(&self) -> Option<AltMode> {
        self.spec_alt_mode()
    }

    fn setup(&mut self) {
        self.set_alt_mode(AltMode::AF2);
    }
}

/// PE5 carries channel 3 of timer 3, as alternate function 2.
///
/// On the STM32L072.
impl<D: L072> Pin<TIM3<D>, C3> for PE5 {
    open spec fn alternate_function() -> AltMode {
        AltMode::AF2
    }

    open spec fn selected(&self) -> Option<AltMode> {
        self.spec_alt_mode()
    }

    fn setup(&mut self) {
        self.set_alt_mode(AltMode::AF2);
    }
}

/// PE6 carries channel 4 of timer 3, as alternate function 2.
///
/// On the STM32L072.
impl<D: L072> Pin<TIM3<D>, C4> for PE6 {
    open spec fn alternate_function() -> AltMode {
        AltMode::AF2
    }

    open spec fn selected(&self) -> Option<AltMode> {
        self.spec_alt_mode()
    }

    fn setup(&mut self) {
        self.set_alt_mode(AltMode::AF2);
    }
}

} // verus!
