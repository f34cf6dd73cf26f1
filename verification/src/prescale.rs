//! From a requested output frequency to the prescaler and the reload value.

use vstd::prelude::*;
use vstd::arithmetic::div_mod::{lemma_div_denominator, lemma_div_is_ordered_by_denominator};
use crate::casts::{u16_of_u32, u32_of_u16};

verus! {

/// Why a timer could not be set up.
#[derive(Clone, Copy, Debug, PartialEq, Eq, Structural)]
pub enum ConfigError {
    /// The requested frequency is zero.
    ZeroFrequency,
    /// The prescaler or the reload value does not fit its 16-bit register.
    Unrepresentable,
}

/// The values of the prescaler and the reload register.
#[derive(Clone, Copy, Debug, PartialEq, Eq, Structural)]
pub struct Prescale {
    /// The prescaler: the counter advances once every `psc + 1` clock cycles.
    pub psc: u16,
    /// The reload value: the counter's period at that rate.
    pub arr: u16,
}

/// Clock cycles per output period: `clk / frequency`, rounded down.
pub open spec fn ticks(clk: u32, frequency: u32) -> int
    recommends
        frequency > 0,
{
    clk as int / frequency as int
}

/// `a / b`, rounded up.
pub open spec fn ceil_div(a: int, b: int) -> int
    recommends
        b > 0,
{
    (a + b - 1) / b
}

/// The smallest prescaler with which `ticks` cycles are counted in 65536 steps.
pub open spec fn prescaler(ticks: int) -> int {
    ceil_div(ticks, 65536) - 1
}

/// The number of counter steps that `ticks` cycles take at that prescaler.
pub open spec fn reload(ticks: int) -> int {
    ticks / (prescaler(ticks) + 1)
}

/// Both values fit their registers.
pub open spec fn fits(ticks: int) -> bool {
    &&& 0 <= prescaler(ticks) <= u16::MAX
    &&& 0 <= reload(ticks) <= u16::MAX
}

/// What `configure` returns.
pub open spec fn spec_configure(clk: u32, frequency: u32) -> Result<Prescale, ConfigError> {
    if frequency == 0 {
        Err(ConfigError::ZeroFrequency)
    } else if !fits(ticks(clk, frequency)) {
        Err(ConfigError::Unrepresentable)
    } else {
        Ok(
            Prescale {
                psc: prescaler(ticks(clk, frequency)) as u16,
                arr: reload(ticks(clk, frequency)) as u16,
            },
        )
    }
}

/// Computes the prescaler and the reload value for an input clock of `clk`
/// hertz and an output of `frequency` hertz.
pub fn configure(clk: u32, frequency: u32) -> (r: Result<Prescale, ConfigError>)
    ensures
        r == spec_configure(clk, frequency),
{
    if frequency == 0 {
        return Err(ConfigError::ZeroFrequency);
    }
    let ticks: u32 = clk / frequency;
    if ticks == 0 {
        return Err(ConfigError::Unrepresentable);
    }
    let psc: u16 = match u16_of_u32((ticks - 1) / 65536) {
        Ok(psc) => psc,
        Err(_) => {
            return Err(ConfigError::Unrepresentable);
        },
    };
    let arr: u16 = match u16_of_u32(ticks / (u32_of_u16(psc) + 1)) {
        Ok(arr) => arr,
        Err(_) => {
            return Err(ConfigError::Unrepresentable);
        },
    };
    Ok(Prescale { psc, arr })
}

/// Clock cycles per output period with the given register values: the counter
/// advances once every `psc + 1` cycles and wraps after `arr + 1` steps.
pub open spec fn period(psc: int, arr: int) -> int {
    (psc + 1) * (arr + 1)
}

/// The register values fit exactly when the number of clock cycles per period
/// is not a multiple of 65536 (zero is one).
pub proof fn lemma_fits_iff_not_multiple(t: int)
    requires
        0 <= t <= u32::MAX,
    ensures
        fits(t) <==> t % 65536 != 0,
{
    if t > 0 {
        let q = prescaler(t) + 1;
        assert(1 <= q <= 65536);
        assert((q - 1) * 65536 < t <= q * 65536);
        if t % 65536 == 0 {
            assert(t == q * 65536);
            assert(t / q == 65536) by (nonlinear_arith)
                requires
                    q > 0,
                    t == q * 65536,
            ;
        } else {
            assert(0 <= t / q < 65536) by (nonlinear_arith)
                requires
                    q > 0,
                    0 <= t < q * 65536,
            ;
        }
    }
}

/// With register values that fit, the prescaler is the smallest with which
/// the period is counted in at most 65536 steps, and the reload value is the
/// number of those steps, rounded down.
pub proof fn lemma_truncation(t: int)
    requires
        fits(t),
    ensures
        prescaler(t) * 65536 < t <= (prescaler(t) + 1) * 65536,
        (prescaler(t) + 1) * reload(t) <= t < period(prescaler(t), reload(t)),
        period(prescaler(t), reload(t)) <= t + prescaler(t) + 1,
{
    let q = prescaler(t) + 1;
    let a = reload(t);
    assert(q * a <= t < q * a + q && q * (a + 1) == q * a + q) by (nonlinear_arith)
        requires
            q > 0,
            a == t / q,
    ;
}

/// The output frequency, `clk / (psc + 1) / (arr + 1)`, is below the requested
/// one, and what it is below by comes from rounding down alone: one output
/// period is longer than `clk / frequency` clock cycles by at most `psc + 1`
/// cycles, which is less than one cycle and a 65536th of the period asked for.
pub proof fn lemma_output_frequency(clk: u32, frequency: u32)
    requires
        frequency > 0,
        fits(ticks(clk, frequency)),
    ensures
        ({
            let t = ticks(clk, frequency);
            let psc = prescaler(t);
            let arr = reload(t);
            &&& frequency * t <= clk < frequency * (t + 1)
            &&& t < period(psc, arr) <= t + psc + 1
            &&& 65536 * (period(psc, arr) - t) < t + 65536
            &&& clk as int / (psc + 1) / (arr + 1) == clk as int / period(psc, arr)
            &&& clk as int / period(psc, arr) < frequency
            &&& clk as int / period(psc, arr) >= clk as int / (t + psc + 1)
        }),
{
    let t = ticks(clk, frequency);
    let psc = prescaler(t);
    let arr = reload(t);
    let p = period(psc, arr);
    let c = clk as int;
    let f = frequency as int;
    lemma_truncation(t);
    assert(f * t <= c < f * (t + 1)) by (nonlinear_arith)
        requires
            f > 0,
            c >= 0,
            t == c / f,
    ;
    lemma_div_denominator(c, psc + 1, arr + 1);
    assert(c / p < f) by (nonlinear_arith)
        requires
            f > 0,
            c >= 0,
            c < f * (t + 1),
            t + 1 <= p,
    ;
    lemma_div_is_ordered_by_denominator(c, p, t + psc + 1);
}

} // verus!
