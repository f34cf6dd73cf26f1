//! Pulse-width modulation on the general-purpose timers of the STM32L0.
//!
//! A timer is set up for an output frequency: `Timer::new` computes the
//! prescaler and the reload value, starts the counter and hands out the four
//! channels. A channel is bound to one of the pins that the device wires to
//! it, and from then on its output can be switched on and off and its duty
//! read and written.
//!
//! The crate works on a model of the hardware. The registers of a timer, the
//! clock tree and the pins are plain values, every operation of the driver is
//! a function on them, and a timer records each write to its registers, so
//! that they can be carried out on the device in their order.

mod casts;
pub mod device;
pub mod gpio;
pub mod pins;
pub mod prescale;
pub mod pwm;
pub mod rcc;
pub mod registers;
pub mod time;
