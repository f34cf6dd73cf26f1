//! The lines of the device family. Which pins a timer's channels can be routed
//! to depends on the line, so a timer carries the line of its device in its
//! type.

use vstd::prelude::*;

verus! {

/// A device of the STM32L0x2 line.
pub trait L0x2 {

}

/// A device of the STM32L072 or of the STM32L082, which both belong to the
/// STM32L0x2 line.
pub trait L072OrL082: L0x2 {

}

/// A device of the STM32L072.
pub trait L072: L072OrL082 {

}

/// A device of the STM32L0x1 line.
#[derive(Debug)]
pub struct Stm32l0x1;

/// A device of the STM32L0x2 line of which no more is known.
#[derive(Debug)]
pub struct Stm32l0x2;

/// An STM32L072.
#[derive(Debug)]
pub struct Stm32l072;

/// An STM32L082.
#[derive(Debug)]
pub struct Stm32l082;

impl L0x2 for Stm32l0x2 {

}

impl L0x2 for Stm32l072 {

}

impl L0x2 for Stm32l082 {

}

impl L072OrL082 for Stm32l072 {

}

impl L072OrL082 for Stm32l082 {

}

impl L072 for Stm32l072 {

}

} // verus!
