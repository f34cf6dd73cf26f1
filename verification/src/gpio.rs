//! The pins, as far as their alternate functions go.

use vstd::prelude::*;
use core::marker::PhantomData;

verus! {

/// The alternate functions of a pin.
#[derive(Clone, Copy, Debug, PartialEq, Eq, Structural)]
pub enum AltMode {
    /// Alternate function 0.
    AF0,
    /// Alternate function 1.
    AF1,
    /// Alternate function 2.
    AF2,
    /// Alternate function 3.
    AF3,
    /// Alternate function 4.
    AF4,
    /// Alternate function 5.
    AF5,
    /// Alternate function 6.
    AF6,
    /// Alternate function 7.
    AF7,
}

/// The pins `PA0` to `PA15` (GPIOA).
#[derive(Debug)]
pub struct GpioA;

/// The pins `PB0` to `PB15` (GPIOB).
#[derive(Debug)]
pub struct GpioB;

/// The pins `PC0` to `PC15` (GPIOC).
#[derive(Debug)]
pub struct GpioC;

/// The pins `PE0` to `PE15` (GPIOE).
#[derive(Debug)]
pub struct GpioE;

/// Pin `N` of the sixteen pins `GPIO`.
#[derive(Debug)]
pub struct GpioPin<GPIO, const N: u8> {
    alt_mode: Option<AltMode>,
    gpio: PhantomData<GPIO>,
}

impl<GPIO, const N: u8> GpioPin<GPIO, N> {
    /// The alternate function that the pin is switched to, if any.
    pub closed spec fn spec_alt_mode(&self) -> Option<AltMode> {
        self.alt_mode
    }

    /// The pin as it is after a reset: switched to no alternate function.
    pub fn new() -> (pin: Self)
        ensures
            pin.spec_alt_mode() is None,
    {
        GpioPin { alt_mode: None, gpio: PhantomData }
    }

    /// The alternate function that the pin is switched to, if any.
    #[verifier::when_used_as_spec(spec_alt_mode)]
    pub fn alt_mode(&self) -> (mode: Option<AltMode>)
        ensures
            mode == self.spec_alt_mode(),
    {
        self.alt_mode
    }

    /// Switches the pin to an alternate function.
    pub fn set_alt_mode(&mut self, mode: AltMode)
        ensures
            final(self).spec_alt_mode() == Some(mode),
    {
        self.alt_mode = Some(mode);
    }
}

/// Pin 0 of GPIOA.
pub type PA0 = GpioPin<GpioA, 0>;

/// Pin 1 of GPIOA.
pub type PA1 = GpioPin<GpioA, 1>;

/// Pin 2 of GPIOA.
pub type PA2 = GpioPin<GpioA, 2>;

/// Pin 3 of GPIOA.
pub type PA3 = GpioPin<GpioA, 3>;

/// Pin 5 of GPIOA.
pub type PA5 = GpioPin<GpioA, 5>;

/// Pin 6 of GPIOA.
pub type PA6 = GpioPin<GpioA, 6>;

/// Pin 7 of GPIOA.
pub type PA7 = GpioPin<GpioA, 7>;

/// Pin 15 of GPIOA.
pub type PA15 = GpioPin<GpioA, 15>;

/// Pin 0 of GPIOB.
pub type PB0 = GpioPin<GpioB, 0>;

/// Pin 1 of GPIOB.
pub type PB1 = GpioPin<GpioB, 1>;

/// Pin 3 of GPIOB.
pub type PB3 = GpioPin<GpioB, 3>;

/// Pin 4 of GPIOB.
pub type PB4 = GpioPin<GpioB, 4>;

/// Pin 5 of GPIOB.
pub type PB5 = GpioPin<GpioB, 5>;

/// Pin 10 of GPIOB.
pub type PB10 = GpioPin<GpioB, 10>;

/// Pin 11 of GPIOB.
pub type PB11 = GpioPin<GpioB, 11>;

/// Pin 6 of GPIOC.
pub type PC6 = GpioPin<GpioC, 6>;

/// Pin 7 of GPIOC.
pub type PC7 = GpioPin<GpioC, 7>;

/// Pin 8 of GPIOC.
pub type PC8 = GpioPin<GpioC, 8>;

/// Pin 9 of GPIOC.
pub type PC9 = GpioPin<GpioC, 9>;

/// Pin 3 of GPIOE.
pub type PE3 = GpioPin<GpioE, 3>;

/// Pin 4 of GPIOE.
pub type PE4 = GpioPin<GpioE, 4>;

/// Pin 5 of GPIOE.
pub type PE5 = GpioPin<GpioE, 5>;

/// Pin 6 of GPIOE.
pub type PE6 = GpioPin<GpioE, 6>;

/// Pin 9 of GPIOE.
pub type PE9 = GpioPin<GpioE, 9>;

/// Pin 10 of GPIOE.
pub type PE10 = GpioPin<GpioE, 10>;

/// Pin 11 of GPIOE.
pub type PE11 = GpioPin<GpioE, 11>;

/// Pin 12 of GPIOE.
pub type PE12 = GpioPin<GpioE, 12>;

} // verus!
