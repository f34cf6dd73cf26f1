use stm32l0_pwm::device::{Stm32l072, Stm32l082, Stm32l0x1, Stm32l0x2};
use stm32l0_pwm::gpio::{
    AltMode, PA0, PA1, PA2, PA3, PA5, PA6, PA7, PA15, PB0, PB1, PB3, PB4, PB5, PB10, PB11, PC6,
    PC7, PC8, PC9, PE3, PE4, PE5, PE6, PE9, PE10, PE11, PE12,
};
use stm32l0_pwm::pwm::{Instance, Pin, Timer, C1, C2};
use stm32l0_pwm::rcc::Rcc;
use stm32l0_pwm::registers::Tim;
use stm32l0_pwm::time::Hertz;

fn timer<D, const N: u8>() -> Timer<Tim<D, N>>
where
    Tim<D, N>: Instance,
{
    let mut rcc = Rcc::new(Hertz(32_000_000));
    Timer::new(Tim::new(), Hertz(1_000), &mut rcc).unwrap()
}

#[test]
fn a_new_pin_is_switched_to_no_alternate_function() {
    assert_eq!(PA0::new().alt_mode(), None);
    assert_eq!(PE12::new().alt_mode(), None);
}

#[test]
fn a_pin_takes_the_alternate_function_it_is_given() {
    let mut pin = PB3::new();
    pin.set_alt_mode(AltMode::AF6);
    assert_eq!(pin.alt_mode(), Some(AltMode::AF6));
    pin.set_alt_mode(AltMode::AF0);
    assert_eq!(pin.alt_mode(), Some(AltMode::AF0));
}

#[test]
fn setting_a_pin_up_selects_the_function_of_its_channel() {
    let mut pin = PB5::new();
    <PB5 as Pin<Tim<Stm32l082, 3>, C2>>::setup(&mut pin);
    assert_eq!(pin.alt_mode(), Some(AltMode::AF4));
    let mut pin = PA15::new();
    pin.set_alt_mode(AltMode::AF1);
    <PA15 as Pin<Tim<Stm32l0x2, 2>, C1>>::setup(&mut pin);
    assert_eq!(pin.alt_mode(), Some(AltMode::AF5));
    let mut pin = PE9::new();
    <PE9 as Pin<Tim<Stm32l072, 2>, C1>>::setup(&mut pin);
    assert_eq!(pin.alt_mode(), Some(AltMode::AF0));
}

#[test]
fn binding_overrides_an_earlier_alternate_function() {
    let mut pin = PA0::new();
    pin.set_alt_mode(AltMode::AF7);
    let pwm = timer::<Stm32l0x1, 2>().channel1.assign(pin);
    assert_eq!(pwm.pin().alt_mode(), Some(AltMode::AF2));
}

#[test]
fn binding_keeps_the_pin_in_the_handle() {
    let pwm = timer::<Stm32l082, 3>().channel2.assign(PB5::new());
    assert_eq!(pwm.pin().alt_mode(), Some(AltMode::AF4));
    let pwm = timer::<Stm32l0x2, 2>().channel1.assign(PA15::new());
    assert_eq!(pwm.pin().alt_mode(), Some(AltMode::AF5));
}

#[test]
fn the_pins_of_timer_2_on_every_line() {
    let pwm = timer::<Stm32l0x1, 2>().channel1.assign(PA0::new());
    assert_eq!(pwm.pin().alt_mode(), Some(AltMode::AF2));
    let pwm = timer::<Stm32l0x1, 2>().channel2.assign(PA1::new());
    assert_eq!(pwm.pin().alt_mode(), Some(AltMode::AF2));
    let pwm = timer::<Stm32l0x1, 2>().channel3.assign(PA2::new());
    assert_eq!(pwm.pin().alt_mode(), Some(AltMode::AF2));
    let pwm = timer::<Stm32l0x1, 2>().channel4.assign(PA3::new());
    assert_eq!(pwm.pin().alt_mode(), Some(AltMode::AF2));
    let pwm = timer::<Stm32l0x2, 2>().channel1.assign(PA0::new());
    assert_eq!(pwm.pin().alt_mode(), Some(AltMode::AF2));
    let pwm = timer::<Stm32l0x2, 2>().channel2.assign(PA1::new());
    assert_eq!(pwm.pin().alt_mode(), Some(AltMode::AF2));
    let pwm = timer::<Stm32l0x2, 2>().channel3.assign(PA2::new());
    assert_eq!(pwm.pin().alt_mode(), Some(AltMode::AF2));
    let pwm = timer::<Stm32l0x2, 2>().channel4.assign(PA3::new());
    assert_eq!(pwm.pin().alt_mode(), Some(AltMode::AF2));
    let pwm = timer::<Stm32l082, 2>().channel1.assign(PA0::new());
    assert_eq!(pwm.pin().alt_mode(), Some(AltMode::AF2));
    let pwm = timer::<Stm32l082, 2>().channel2.assign(PA1::new());
    assert_eq!(pwm.pin().alt_mode(), Some(AltMode::AF2));
    let pwm = timer::<Stm32l082, 2>().channel3.assign(PA2::new());
    assert_eq!(pwm.pin().alt_mode(), Some(AltMode::AF2));
    let pwm = timer::<Stm32l082, 2>().channel4.assign(PA3::new());
    assert_eq!(pwm.pin().alt_mode(), Some(AltMode::AF2));
    let pwm = timer::<Stm32l072, 2>().channel1.assign(PA0::new());
    assert_eq!(pwm.pin().alt_mode(), Some(AltMode::AF2));
    let pwm = timer::<Stm32l072, 2>().channel2.assign(PA1::new());
    assert_eq!(pwm.pin().alt_mode(), Some(AltMode::AF2));
    let pwm = timer::<Stm32l072, 2>().channel3.assign(PA2::new());
    assert_eq!(pwm.pin().alt_mode(), Some(AltMode::AF2));
    let pwm = timer::<Stm32l072, 2>().channel4.assign(PA3::new());
    assert_eq!(pwm.pin().alt_mode(), Some(AltMode::AF2));
}

#[test]
fn the_pins_of_timer_2_from_the_l0x2_on() {
    let pwm = timer::<Stm32l0x2, 2>().channel1.assign(PA5::new());
    assert_eq!(pwm.pin().alt_mode(), Some(AltMode::AF5));
    let pwm = timer::<Stm32l0x2, 2>().channel1.assign(PA15::new());
    assert_eq!(pwm.pin().alt_mode(), Some(AltMode::AF5));
    let pwm = timer::<Stm32l0x2, 2>().channel2.assign(PB3::new());
    assert_eq!(pwm.pin().alt_mode(), Some(AltMode::AF2));
    let pwm = timer::<Stm32l0x2, 2>().channel3.assign(PB10::new());
    assert_eq!(pwm.pin().alt_mode(), Some(AltMode::AF2));
    let pwm = timer::<Stm32l0x2, 2>().channel4.assign(PB11::new());
    assert_eq!(pwm.pin().alt_mode(), Some(AltMode::AF2));
    let pwm = timer::<Stm32l082, 2>().channel1.assign(PA5::new());
    assert_eq!(pwm.pin().alt_mode(), Some(AltMode::AF5));
    let pwm = timer::<Stm32l082, 2>().channel1.assign(PA15::new());
    assert_eq!(pwm.pin().alt_mode(), Some(AltMode::AF5));
    let pwm = timer::<Stm32l082, 2>().channel2.assign(PB3::new());
    assert_eq!(pwm.pin().alt_mode(), Some(AltMode::AF2));
    let pwm = timer::<Stm32l082, 2>().channel3.assign(PB10::new());
    assert_eq!(pwm.pin().alt_mode(), Some(AltMode::AF2));
    let pwm = timer::<Stm32l082, 2>().channel4.assign(PB11::new());
    assert_eq!(pwm.pin().alt_mode(), Some(AltMode::AF2));
    let pwm = timer::<Stm32l072, 2>().channel1.assign(PA5::new());
    assert_eq!(pwm.pin().alt_mode(), Some(AltMode::AF5));
    let pwm = timer::<Stm32l072, 2>().channel1.assign(PA15::new());
    assert_eq!(pwm.pin().alt_mode(), Some(AltMode::AF5));
    let pwm = timer::<Stm32l072, 2>().channel2.assign(PB3::new());
    assert_eq!(pwm.pin().alt_mode(), Some(AltMode::AF2));
    let pwm = timer::<Stm32l072, 2>().channel3.assign(PB10::new());
    assert_eq!(pwm.pin().alt_mode(), Some(AltMode::AF2));
    let pwm = timer::<Stm32l072, 2>().channel4.assign(PB11::new());
    assert_eq!(pwm.pin().alt_mode(), Some(AltMode::AF2));
}

#[test]
fn the_pins_of_timer_3_on_the_l072_and_the_l082() {
    let pwm = timer::<Stm32l082, 3>().channel1.assign(PA6::new());
    assert_eq!(pwm.pin().alt_mode(), Some(AltMode::AF2));
    let pwm = timer::<Stm32l082, 3>().channel2.assign(PA7::new());
    assert_eq!(pwm.pin().alt_mode(), Some(AltMode::AF2));
    let pwm = timer::<Stm32l082, 3>().channel3.assign(PB0::new());
    assert_eq!(pwm.pin().alt_mode(), Some(AltMode::AF2));
    let pwm = timer::<Stm32l082, 3>().channel4.assign(PB1::new());
    assert_eq!(pwm.pin().alt_mode(), Some(AltMode::AF2));
    let pwm = timer::<Stm32l082, 3>().channel1.assign(PB4::new());
    assert_eq!(pwm.pin().alt_mode(), Some(AltMode::AF2));
    let pwm = timer::<Stm32l082, 3>().channel2.assign(PB5::new());
    assert_eq!(pwm.pin().alt_mode(), Some(AltMode::AF4));
    let pwm = timer::<Stm32l072, 3>().channel1.assign(PA6::new());
    assert_eq!(pwm.pin().alt_mode(), Some(AltMode::AF2));
    let pwm = timer::<Stm32l072, 3>().channel2.assign(PA7::new());
    assert_eq!(pwm.pin().alt_mode(), Some(AltMode::AF2));
    let pwm = timer::<Stm32l072, 3>().channel3.assign(PB0::new());
    assert_eq!(pwm.pin().alt_mode(), Some(AltMode::AF2));
    let pwm = timer::<Stm32l072, 3>().channel4.assign(PB1::new());
    assert_eq!(pwm.pin().alt_mode(), Some(AltMode::AF2));
    let pwm = timer::<Stm32l072, 3>().channel1.assign(PB4::new());
    assert_eq!(pwm.pin().alt_mode(), Some(AltMode::AF2));
    let pwm = timer::<Stm32l072, 3>().channel2.assign(PB5::new());
    assert_eq!(pwm.pin().alt_mode(), Some(AltMode::AF4));
}

#[test]
fn the_pins_of_timer_2_on_the_l072() {
    let pwm = timer::<Stm32l072, 2>().channel1.assign(PE9::new());
    assert_eq!(pwm.pin().alt_mode(), Some(AltMode::AF0));
    let pwm = timer::<Stm32l072, 2>().channel2.assign(PE10::new());
    assert_eq!(pwm.pin().alt_mode(), Some(AltMode::AF0));
    let pwm = timer::<Stm32l072, 2>().channel3.assign(PE11::new());
    assert_eq!(pwm.pin().alt_mode(), Some(AltMode::AF0));
    let pwm = timer::<Stm32l072, 2>().channel4.assign(PE12::new());
    assert_eq!(pwm.pin().alt_mode(), Some(AltMode::AF0));
}

#[test]
fn the_pins_of_timer_3_on_the_l072() {
    let pwm = timer::<Stm32l072, 3>().channel1.assign(PC6::new());
    assert_eq!(pwm.pin().alt_mode(), Some(AltMode::AF2));
    let pwm = timer::<Stm32l072, 3>().channel2.assign(PC7::new());
    assert_eq!(pwm.pin().alt_mode(), Some(AltMode::AF2));
    let pwm = timer::<Stm32l072, 3>().channel3.assign(PC8::new());
    assert_eq!(pwm.pin().alt_mode(), Some(AltMode::AF2));
    let pwm = timer::<Stm32l072, 3>().channel4.assign(PC9::new());
    assert_eq!(pwm.pin().alt_mode(), Some(AltMode::AF2));
    let pwm = timer::<Stm32l072, 3>().channel1.assign(PE3::new());
    assert_eq!(pwm.pin().alt_mode(), Some(AltMode::AF2));
    let pwm = timer::<Stm32l072, 3>().channel2.assign(PE4::new());
    assert_eq!(pwm.pin().alt_mode(), Some(AltMode::AF2));
    let pwm = timer::<Stm32l072, 3>().channel3.assign(PE5::new());
    assert_eq!(pwm.pin().alt_mode(), Some(AltMode::AF2));
    let pwm = timer::<Stm32l072, 3>().channel4.assign(PE6::new());
    assert_eq!(pwm.pin().alt_mode(), Some(AltMode::AF2));
}
