//! From the timer's input clock and the bit frequency to the timer's
//! prescaler, its period and the two compare values that stand for a
//! zero bit and a one bit.

use vstd::prelude::*;

verus! {

/// Parts of a bit time during which the line is high for a zero bit.
pub const ZERO_HIGH_PARTS: u32 = 35;

/// Parts of a bit time during which the line is high for a one bit.
pub const ONE_HIGH_PARTS: u32 = 60;

/// Parts into which a bit time is divided: 1.25 us in steps of 0.01 us.
pub const BIT_PARTS: u32 = 125;

/// The error of the checked casts of the `cast` crate, carried through
/// as it is: nothing is known of its value.
#[verifier::external_type_specification]
#[verifier::external_body]
pub struct ExCastError(cast::Error);

/// Calls `cast::u16` on a `u32`. The cast gives the same number as a
/// `u16` where it is at most 65535, and an error where it is larger.
#[verifier::external_body]
fn narrow_u16(x: u32) -> (r: Result<u16, cast::Error>)
    ensures
        r is Ok <==> x <= 65535,
        r matches Ok(y) ==> y == x,
{
    cast::u16(x)
}

/// Calls `cast::u32` on a `u16`, which gives the same number as a `u32`.
#[verifier::external_body]
fn widen_u32(x: u16) -> (r: u32)
    ensures
        r == x,
{
    cast::u32(x)
}

/// Why no timer values exist for a clock and a bit frequency.
#[derive(Copy, Clone, Debug, PartialEq, Eq, Structural)]
pub enum ConfigError {
    /// The clock gives less than one tick per bit, so no prescaler
    /// leaves a period that the counter can hold.
    NoValidPeriod,
    /// The period is too short for two compare values with
    /// `0 < duty_zero < duty_one < period`.
    DutyOutOfRange,
}

/// The values programmed into the timer, and the compare values that
/// the encoder writes.
#[derive(Copy, Clone, Debug, PartialEq, Eq, Structural)]
pub struct Timing {
    /// The prescaler: the counter advances every `psc + 1` clock ticks.
    pub psc: u16,
    /// The period: the counter runs from 0 to `period`, so one bit
    /// lasts `period + 1` counter steps.
    pub period: u16,
    /// The compare value of a zero bit.
    pub duty_zero: u16,
    /// The compare value of a one bit.
    pub duty_one: u16,
}

/// Clock ticks that fit into one bit time, rounded down; 0 where the
/// bit frequency is 0.
pub open spec fn ticks_per_bit(clock_hz: u32, bit_hz: u32) -> int {
    if bit_hz == 0 {
        0
    } else {
        clock_hz as int / bit_hz as int
    }
}

/// The period that goes with a prescaler: `ticks / (psc + 1)` counter
/// steps make one bit, and the counter counts them from 0.
pub open spec fn period_at(ticks: int, psc: int) -> int {
    ticks / (psc + 1) - 1
}

/// Whether the prescaler leaves a period that the counter can hold.
pub open spec fn period_fits(ticks: int, psc: int) -> bool {
    0 <= period_at(ticks, psc) <= 65535
}

/// Whether `psc` is the smallest 16-bit prescaler whose period fits.
pub open spec fn is_least_prescaler(ticks: int, psc: int) -> bool {
    &&& 0 <= psc <= 65535
    &&& period_fits(ticks, psc)
    &&& forall|q: int| 0 <= q < psc ==> !period_fits(ticks, q)
}

/// The smallest prescaler whose period fits, for at least one tick per
/// bit (`lemma_prescaler_is_least` shows that it is).
pub open spec fn prescaler_for(ticks: int) -> int {
    ticks / 65537
}

/// The compare value that holds the line high for `parts` of the 125
/// parts of a bit, rounded down.
pub open spec fn duty_for(period: int, parts: int) -> int {
    period * parts / (BIT_PARTS as int)
}

/// Whether two compare values can be told apart and lie inside the
/// period: `0 < duty_zero < duty_one < period`.
pub open spec fn thresholds_ordered(duty_zero: int, duty_one: int, period: int) -> bool {
    0 < duty_zero < duty_one < period
}

/// The period that goes with the smallest prescaler.
pub open spec fn period_for(ticks: int) -> int {
    period_at(ticks, prescaler_for(ticks))
}

/// Whether the compare values derived from a period are ordered.
pub open spec fn duties_fit(period: int) -> bool {
    thresholds_ordered(
        duty_for(period, ZERO_HIGH_PARTS as int),
        duty_for(period, ONE_HIGH_PARTS as int),
        period,
    )
}

/// What `Timing::resolve` gives for a clock and a bit frequency: no
/// period without a whole tick per bit, no compare values where they
/// would not be ordered, else the timer values of the smallest
/// prescaler.
pub open spec fn resolved(clock_hz: u32, bit_hz: u32) -> Result<Timing, ConfigError> {
    let ticks = ticks_per_bit(clock_hz, bit_hz);
    let period = period_for(ticks);
    if ticks == 0 {
        Err(ConfigError::NoValidPeriod)
    } else if !duties_fit(period) {
        Err(ConfigError::DutyOutOfRange)
    } else {
        Ok(
            Timing {
                psc: prescaler_for(ticks) as u16,
                period: period as u16,
                duty_zero: duty_for(period, ZERO_HIGH_PARTS as int) as u16,
                duty_one: duty_for(period, ONE_HIGH_PARTS as int) as u16,
            },
        )
    }
}

impl Timing {
    /// The compare values are ordered: `0 < duty_zero < duty_one <
    /// period`.
    pub open spec fn wf(self) -> bool {
        thresholds_ordered(self.duty_zero as int, self.duty_one as int, self.period as int)
    }

    /// Whether these are the timer values for the given number of clock
    /// ticks per bit: the least prescaler, its period, and the two
    /// compare values derived from the period.
    pub open spec fn resolves(self, ticks: int) -> bool {
        &&& is_least_prescaler(ticks, self.psc as int)
        &&& self.psc == prescaler_for(ticks)
        &&& self.period == period_at(ticks, self.psc as int)
        &&& self.duty_zero == duty_for(self.period as int, ZERO_HIGH_PARTS as int)
        &&& self.duty_one == duty_for(self.period as int, ONE_HIGH_PARTS as int)
    }

    /// The timer values for an input clock and a bit frequency, both in
    /// hertz.
    ///
    /// The prescaler is the smallest one whose period the counter can
    /// hold, the period is `ticks / (psc + 1) - 1`, and the compare
    /// values are 35/125 and 60/125 of the period, rounded down. There is
    /// no period where the clock gives no whole tick per bit or the bit
    /// frequency is 0, and the compare values are refused where they are
    /// not ordered.
    pub fn resolve(clock_hz: u32, bit_hz: u32) -> (r: Result<Timing, ConfigError>)
        ensures
            r == resolved(clock_hz, bit_hz),
            r matches Ok(t) ==> t.resolves(ticks_per_bit(clock_hz, bit_hz)) && t.wf(),
            (r matches Err(ConfigError::NoValidPeriod)) ==> forall|p: int|
                0 <= p ==> !period_fits(ticks_per_bit(clock_hz, bit_hz), p),
    {
        let ticks: u32 = if bit_hz == 0 {
            0
        } else {
            clock_hz / bit_hz
        };
        if ticks == 0 {
            proof {
                lemma_no_tick_no_period();
            }
            return Err(ConfigError::NoValidPeriod);
        }
        proof {
            lemma_prescaler_is_least(ticks as int);
        }
        // Neither cast fails: both numbers are below 65536.
        let psc: u16 = match narrow_u16(ticks / 65537) {
            Ok(p) => p,
            Err(_) => {
                return Err(ConfigError::NoValidPeriod);
            },
        };
        let steps: u32 = ticks / (widen_u32(psc) + 1);
        let period: u16 = match narrow_u16(steps - 1) {
            Ok(p) => p,
            Err(_) => {
                return Err(ConfigError::NoValidPeriod);
            },
        };
        let wide: u32 = widen_u32(period);
        let duty_zero: u16 = (wide * ZERO_HIGH_PARTS / BIT_PARTS) as u16;
        let duty_one: u16 = (wide * ONE_HIGH_PARTS / BIT_PARTS) as u16;
        if 0 < duty_zero && duty_zero < duty_one && duty_one < period {
            Ok(Timing { psc, period, duty_zero, duty_one })
        } else {
            Err(ConfigError::DutyOutOfRange)
        }
    }
}

/// With at least one tick per bit, `prescaler_for` is the smallest
/// prescaler whose period fits, and it is below 65536 for every 32-bit
/// tick count.
pub proof fn lemma_prescaler_is_least(ticks: int)
    requires
        1 <= ticks,
        ticks <= u32::MAX,
    ensures
        is_least_prescaler(ticks, prescaler_for(ticks)),
{
    let p = prescaler_for(ticks);
    assert(0 <= p <= 65535 && 65537 * p <= ticks < 65537 * (p + 1)) by (nonlinear_arith)
        requires
            p == ticks / 65537,
            1 <= ticks <= 0xffff_ffff,
    ;
    let steps = ticks / (p + 1);
    assert(1 <= steps <= 65536) by (nonlinear_arith)
        requires
            steps == ticks / (p + 1),
            0 <= p,
            1 <= ticks,
            65537 * p <= ticks < 65537 * (p + 1),
    ;
    assert forall|q: int| 0 <= q < p implies !period_fits(ticks, q) by {
        let s = ticks / (q + 1);
        assert(s >= 65537) by (nonlinear_arith)
            requires
                s == ticks / (q + 1),
                0 <= q < p,
                65537 * p <= ticks,
        ;
    }
}

/// With no tick per bit, no prescaler leaves a period that fits.
pub proof fn lemma_no_tick_no_period()
    ensures
        forall|psc: int| 0 <= psc ==> !period_fits(0, psc),
{
    assert forall|psc: int| 0 <= psc implies !period_fits(0, psc) by {
        assert(0int / (psc + 1) == 0) by (nonlinear_arith)
            requires
                0 <= psc,
        ;
    }
}

/// The compare values derived from a period are ordered exactly where
/// the period is at least 5.
pub proof fn lemma_duties_fit_from_five(period: int)
    ensures
        duties_fit(period) <==> period >= 5,
{
}

/// Timer values exist exactly where the clock gives at least 6 ticks
/// per bit: with none there is no period, and with 1 to 5 the compare
/// values are not ordered.
pub proof fn lemma_resolved_from_six_ticks(clock_hz: u32, bit_hz: u32)
    ensures
        resolved(clock_hz, bit_hz) is Ok <==> ticks_per_bit(clock_hz, bit_hz) >= 6,
        resolved(clock_hz, bit_hz) == Err::<Timing, ConfigError>(ConfigError::NoValidPeriod)
            <==> ticks_per_bit(clock_hz, bit_hz) == 0,
{
    let ticks = ticks_per_bit(clock_hz, bit_hz);
    if ticks >= 1 {
        assert(ticks <= u32::MAX) by (nonlinear_arith)
            requires
                ticks == clock_hz as int / bit_hz as int,
                bit_hz >= 1,
                clock_hz <= u32::MAX,
        ;
        lemma_prescaler_is_least(ticks);
        let p = prescaler_for(ticks);
        let period = period_for(ticks);
        lemma_duties_fit_from_five(period);
        if p >= 1 {
            assert(ticks / (p + 1) >= 6) by (nonlinear_arith)
                requires
                    p >= 1,
                    p == ticks / 65537,
            ;
        } else {
            assert(p == 0);
            assert(ticks / 1 == ticks);
        }
    }
}

} // verus!
