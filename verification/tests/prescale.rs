use stm32l0_pwm::prescale::{configure, ConfigError, Prescale};

fn checked(clk: u32, frequency: u32) -> (u64, u64, u64) {
    let p = configure(clk, frequency).unwrap();
    (u64::from(clk / frequency), u64::from(p.psc), u64::from(p.arr))
}

#[test]
fn one_kilohertz_from_thirty_two_megahertz() {
    assert_eq!(32_000_000 / 1_000, 32_000);
    assert_eq!(configure(32_000_000, 1_000), Ok(Prescale { psc: 0, arr: 32_000 }));
}

#[test]
fn one_hertz_from_thirty_two_megahertz() {
    // 32,000,000 cycles need a prescaler of 488: 488 * 65536 < 32,000,000 <= 489 * 65536.
    assert_eq!(configure(32_000_000, 1), Ok(Prescale { psc: 488, arr: 65_439 }));
}

#[test]
fn a_period_of_a_multiple_of_65536_cycles_does_not_fit() {
    assert_eq!(configure(65_536, 1), Err(ConfigError::Unrepresentable));
    assert_eq!(configure(65_536_000, 1_000), Err(ConfigError::Unrepresentable));
    assert_eq!(configure(131_072, 1), Err(ConfigError::Unrepresentable));
    assert_eq!(configure(4_294_901_760, 1), Err(ConfigError::Unrepresentable));
}

#[test]
fn the_neighbours_of_a_multiple_of_65536_fit() {
    assert_eq!(configure(65_535, 1), Ok(Prescale { psc: 0, arr: 65_535 }));
    assert_eq!(configure(65_537, 1), Ok(Prescale { psc: 1, arr: 32_768 }));
    assert_eq!(configure(131_071, 1), Ok(Prescale { psc: 1, arr: 65_535 }));
    assert_eq!(configure(131_073, 1), Ok(Prescale { psc: 2, arr: 43_691 }));
}

#[test]
fn zero_frequency_is_refused() {
    assert_eq!(configure(32_000_000, 0), Err(ConfigError::ZeroFrequency));
    assert_eq!(configure(0, 0), Err(ConfigError::ZeroFrequency));
}

#[test]
fn a_frequency_above_the_clock_does_not_fit() {
    assert_eq!(configure(1_000, 1_001), Err(ConfigError::Unrepresentable));
    assert_eq!(configure(0, 1), Err(ConfigError::Unrepresentable));
}

#[test]
fn a_frequency_equal_to_the_clock_gives_one_tick() {
    assert_eq!(configure(16_000_000, 16_000_000), Ok(Prescale { psc: 0, arr: 1 }));
}

#[test]
fn the_longest_period_fits() {
    assert_eq!(configure(u32::MAX, 1), Ok(Prescale { psc: 65_535, arr: 65_535 }));
}

#[test]
fn the_prescaler_is_widened_before_one_is_added() {
    // With a prescaler above zero the divisor is psc + 1, not psc.
    assert_eq!(configure(2_097_151_900, 100), Ok(Prescale { psc: 319, arr: 65_535 }));
    assert_eq!(configure(1_000_000, 10), Ok(Prescale { psc: 1, arr: 50_000 }));
}

#[test]
fn the_output_is_never_faster_than_asked_for() {
    let pairs: [(u32, u32); 8] = [
        (32_000_000, 1_000),
        (32_000_000, 1),
        (16_000_000, 50),
        (2_097_000, 440),
        (4_194_304, 3),
        (u32::MAX, 1),
        (u32::MAX, 7),
        (1_000_000, 999_999),
    ];
    for (clk, frequency) in pairs {
        let (ticks, psc, arr) = checked(clk, frequency);
        let period = (psc + 1) * (arr + 1);
        // Rounding down in clk / frequency.
        assert!(u64::from(frequency) * ticks <= u64::from(clk));
        assert!(u64::from(clk) < u64::from(frequency) * (ticks + 1));
        // Rounding down in ticks / (psc + 1).
        assert!((psc + 1) * arr <= ticks);
        assert!(ticks < period);
        assert!(period <= ticks + psc + 1);
        assert!(65_536 * (period - ticks) < ticks + 65_536);
        // The smallest prescaler that will do.
        assert!(psc * 65_536 < ticks);
        assert!(ticks <= (psc + 1) * 65_536);
        // The frequency that comes out.
        let out = u64::from(clk) / (psc + 1) / (arr + 1);
        assert_eq!(out, u64::from(clk) / period);
        assert!(out < u64::from(frequency));
        assert!(out >= u64::from(clk) / (ticks + psc + 1));
    }
}

#[test]
fn the_values_fit_unless_the_period_is_a_multiple_of_65536() {
    let clocks: [u32; 10] = [
        0, 1, 65_535, 65_536, 65_537, 196_608, 32_000_000, 2_147_483_648, 4_294_901_760, u32::MAX,
    ];
    for clk in clocks {
        for frequency in [1u32, 2, 3, 1_000, 65_536] {
            let ticks = clk / frequency;
            assert_eq!(configure(clk, frequency).is_ok(), ticks % 65_536 != 0);
        }
    }
}
