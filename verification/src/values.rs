//! The values that rows hold, and the arithmetic that turns them into what Arrow columns hold.
use crate::error::{Error, Failure, Fault};
use vstd::arithmetic::power::*;
use vstd::prelude::*;

verus! {

/// Milliseconds in a second.
pub const MILLIS_PER_SECOND: i64 = 1000;

/// Microseconds in a millisecond.
pub const MICROS_PER_MILLI: i64 = 1000;

/// Nanoseconds in a millisecond.
pub const NANOS_PER_MILLI: i64 = 1_000_000;

/// Nanoseconds in a microsecond.
pub const NANOS_PER_MICRO: i64 = 1000;

/// An IEEE 754 single-precision number, as its bit pattern.
#[derive(Clone, Copy, Debug, PartialEq, Eq, Structural)]
pub struct F32 {
    pub bits: u32,
}

/// An IEEE 754 double-precision number, as its bit pattern.
#[derive(Clone, Copy, Debug, PartialEq, Eq, Structural)]
pub struct F64 {
    pub bits: u64,
}

/// A calendar date.
#[derive(Clone, Copy, Debug, PartialEq, Eq, Structural)]
pub struct Date {
    /// Days since 1970-01-01.
    pub days: i32,
}

/// A time of day.
#[derive(Clone, Copy, Debug, PartialEq, Eq, Structural)]
pub struct Time {
    /// Milliseconds since midnight.
    pub millis: i32,
}

/// A timestamp without time zone.
#[derive(Clone, Copy, Debug, PartialEq, Eq, Structural)]
pub struct TimestampNtz {
    pub millisecond: i64,
    pub nano_of_millisecond: i32,
}

/// A timestamp with local time zone: an instant.
#[derive(Clone, Copy, Debug, PartialEq, Eq, Structural)]
pub struct TimestampLtz {
    pub epoch_millisecond: i64,
    pub nano_of_millisecond: i32,
}

/// The number `unscaled / 10^scale`.
#[derive(Clone, Copy, Debug, PartialEq, Eq, Structural)]
pub struct Decimal {
    pub unscaled: i128,
    pub scale: u32,
}

/// Whether `x` is an `i64`.
pub open spec fn in_i64(x: int) -> bool {
    i64::MIN <= x <= i64::MAX
}

/// Whether `x` is an `i128`.
pub open spec fn in_i128(x: int) -> bool {
    i128::MIN <= x <= i128::MAX
}

/// `|x|`.
pub open spec fn magnitude(x: int) -> int {
    if x < 0 {
        -x
    } else {
        x
    }
}

/// The quotient of `x` by the positive `d`, rounded towards zero.
pub open spec fn truncated_quotient(x: int, d: int) -> int {
    if x < 0 {
        -((-x) / d)
    } else {
        x / d
    }
}

/// The quotient of `x` by the positive `d`, rounded to the nearest integer, ties away from zero.
pub open spec fn nearest_quotient(x: int, d: int) -> int {
    if x < 0 {
        -((2 * (-x) + d) / (2 * d))
    } else {
        (2 * x + d) / (2 * d)
    }
}

/// Microseconds since the epoch, of a timestamp in milliseconds and nanoseconds of a millisecond.
pub open spec fn spec_millis_nanos_to_micros(millis: i64, nanos: i32) -> Result<int, Fault> {
    let micros = millis * MICROS_PER_MILLI;
    let sum = micros + truncated_quotient(nanos as int, NANOS_PER_MICRO as int);
    if in_i64(micros) && in_i64(sum) {
        Ok(sum)
    } else {
        Err((Failure::TimestampToMicros { epoch_millis: millis }).fault())
    }
}

/// Nanoseconds since the epoch, of a timestamp in milliseconds and nanoseconds of a millisecond.
pub open spec fn spec_millis_nanos_to_nanos(millis: i64, nanos: i32) -> Result<int, Fault> {
    let whole = millis * NANOS_PER_MILLI;
    let sum = whole + nanos;
    if in_i64(whole) && in_i64(sum) {
        Ok(sum)
    } else {
        Err((Failure::TimestampToNanos { epoch_millis: millis }).fault())
    }
}

/// The whole microseconds of a timestamp in milliseconds and nanoseconds of a millisecond, or an
/// error where they do not fit.
pub fn millis_nanos_to_micros(millis: i64, nanos: i32) -> (r: Result<i64, Error>)
    ensures
        match r {
            Ok(v) => spec_millis_nanos_to_micros(millis, nanos) == Ok::<int, Fault>(v as int),
            Err(e) => spec_millis_nanos_to_micros(millis, nanos) == Err::<int, Fault>(e@),
        },
{
    let rest: i64 = nanos as i64 / NANOS_PER_MICRO;
    match millis.checked_mul(MICROS_PER_MILLI) {
        Some(micros) => match micros.checked_add(rest) {
            Some(sum) => Ok(sum),
            None => Err(Error::timestamp_to_micros(millis)),
        },
        None => Err(Error::timestamp_to_micros(millis)),
    }
}

/// The nanoseconds of a timestamp in milliseconds and nanoseconds of a millisecond, or an error
/// where they do not fit.
pub fn millis_nanos_to_nanos(millis: i64, nanos: i32) -> (r: Result<i64, Error>)
    ensures
        match r {
            Ok(v) => spec_millis_nanos_to_nanos(millis, nanos) == Ok::<int, Fault>(v as int),
            Err(e) => spec_millis_nanos_to_nanos(millis, nanos) == Err::<int, Fault>(e@),
        },
{
    match millis.checked_mul(NANOS_PER_MILLI) {
        Some(whole) => match whole.checked_add(nanos as i64) {
            Some(sum) => Ok(sum),
            None => Err(Error::timestamp_to_nanos(millis)),
        },
        None => Err(Error::timestamp_to_nanos(millis)),
    }
}

/// The number of units of `10^-target` in `unscaled / 10^scale`, rounded to the nearest integer
/// with ties away from zero.
pub open spec fn rescaled(unscaled: int, scale: int, target: int) -> int {
    if target >= scale {
        unscaled * pow(10, (target - scale) as nat)
    } else {
        nearest_quotient(unscaled, pow(10, (scale - target) as nat))
    }
}

/// What a decimal column of the given precision and scale holds for `d`.
pub open spec fn spec_decimal_to_unscaled(
    d: Decimal,
    target_precision: u32,
    target_scale: i64,
) -> Result<int, Fault> {
    let v = rescaled(d.unscaled as int, d.scale as int, target_scale as int);
    if magnitude(v) < pow(10, target_precision as nat) && in_i128(v) {
        Ok(v)
    } else {
        Err((Failure::DecimalOverflow { precision: target_precision }).fault())
    }
}

/// The largest exponent whose power of ten is an `i128`.
const MAX_EXPONENT: u32 = 38;

/// The powers of ten around the largest `i128`.
pub proof fn lemma_largest_power_of_ten()
    ensures
        pow(10, 38) == 100_000_000_000_000_000_000_000_000_000_000_000_000int,
        pow(10, 39) == 1_000_000_000_000_000_000_000_000_000_000_000_000_000int,
{
    reveal_with_fuel(pow, 40);
}

/// `10^k`, where it is an `i128`.
fn power_of_ten(k: u32) -> (r: Option<i128>)
    ensures
        match r {
            Some(p) => k <= MAX_EXPONENT && p == pow(10, k as nat) && p > 0,
            None => k > MAX_EXPONENT && pow(10, k as nat) >= pow(10, 39) > 2 * i128::MAX + 2,
        },
{
    proof {
        lemma_largest_power_of_ten();
    }
    if k > MAX_EXPONENT {
        proof {
            lemma_pow_increases(10, 39, k as nat);
        }
        return None;
    }
    let mut p: i128 = 1;
    let mut i: u32 = 0;
    proof {
        lemma_pow0(10);
    }
    while i < k
        invariant
            i <= k <= MAX_EXPONENT,
            p == pow(10, i as nat),
            p > 0,
        decreases k - i,
    {
        proof {
            lemma_pow_adds(10, i as nat, 1);
            lemma_pow1(10);
            lemma_pow_increases(10, (i + 1) as nat, 38);
            lemma_largest_power_of_ten();
        }
        p = p * 10;
        i = i + 1;
    }
    Some(p)
}

proof fn lemma_nearest_quotient(x: int, d: int)
    requires
        x >= 0,
        d > 0,
    ensures
        (2 * x + d) / (2 * d) == if x % d >= d - x % d {
            x / d + 1
        } else {
            x / d
        },
{
    let q = x / d;
    let r = x % d;
    assert(x == q * d + r) by (nonlinear_arith)
        requires
            d > 0,
            q == x / d,
            r == x % d,
    ;
    let k = if r >= d - r {
        q + 1
    } else {
        q
    };
    let rest = 2 * x + d - k * (2 * d);
    assert(rest == if r >= d - r {
        2 * r - d
    } else {
        2 * r + d
    }) by (nonlinear_arith)
        requires
            x == q * d + r,
            k == if r >= d - r {
                q + 1
            } else {
                q
            },
            rest == 2 * x + d - k * (2 * d),
    ;
    assert(0 <= r < d) by (nonlinear_arith)
        requires
            d > 0,
            r == x % d,
    ;
    assert((2 * x + d) / (2 * d) == k) by (nonlinear_arith)
        requires
            2 * x + d == k * (2 * d) + rest,
            0 <= rest < 2 * d,
            d > 0,
    ;
}

/// `d` at the scale of the column, or an error where it has more digits than the column admits.
pub fn decimal_to_unscaled(d: &Decimal, target_precision: u32, target_scale: i64) -> (r: Result<
    i128,
    Error,
>)
    ensures
        match r {
            Ok(v) => spec_decimal_to_unscaled(*d, target_precision, target_scale) == Ok::<
                int,
                Fault,
            >(v as int),
            Err(e) => spec_decimal_to_unscaled(*d, target_precision, target_scale) == Err::<
                int,
                Fault,
            >(e@),
        },
{
    let overflow = Error::decimal_overflow(target_precision);
    let value = match rescale(d.unscaled, d.scale, target_scale) {
        Some(v) => v,
        None => {
            return Err(overflow);
        },
    };
    match power_of_ten(target_precision) {
        Some(limit) => if -limit < value && value < limit {
            Ok(value)
        } else {
            Err(overflow)
        },
        None => Ok(value),
    }
}

/// `unscaled` units of `10^-scale` in units of `10^-target`, where that is an `i128`.
fn rescale(unscaled: i128, scale: u32, target: i64) -> (r: Option<i128>)
    ensures
        match r {
            Some(v) => v == rescaled(unscaled as int, scale as int, target as int),
            None => !in_i128(rescaled(unscaled as int, scale as int, target as int)),
        },
{
    let shift: i128 = target as i128 - scale as i128;
    if shift >= 0 {
        if unscaled == 0 {
            return Some(0);
        }
        if shift > MAX_EXPONENT as i128 {
            proof {
                lemma_largest_power_of_ten();
                lemma_pow_increases(10, 39, shift as nat);
                let p = pow(10, shift as nat);
                assert(magnitude(unscaled * p) >= p) by (nonlinear_arith)
                    requires
                        unscaled != 0,
                        p > 0,
                ;
            }
            return None;
        }
        match power_of_ten(shift as u32) {
            Some(p) => unscaled.checked_mul(p),
            None => None,
        }
    } else {
        let drop: i128 = -shift;
        let negative = unscaled < 0;
        let size: u128 = if negative {
            (-(unscaled + 1)) as u128 + 1
        } else {
            unscaled as u128
        };
        if drop > MAX_EXPONENT as i128 {
            proof {
                lemma_largest_power_of_ten();
                lemma_pow_increases(10, 39, drop as nat);
                let p = pow(10, drop as nat);
                assert((2 * size + p) / (2 * p) == 0) by (nonlinear_arith)
                    requires
                        0 <= 2 * size < p,
                ;
            }
            return Some(0);
        }
        let p: u128 = match power_of_ten(drop as u32) {
            Some(p) => p as u128,
            None => 1,
        };
        proof {
            lemma_pow_increases(10, 1, drop as nat);
            lemma_pow1(10);
            lemma_nearest_quotient(size as int, p as int);
            assert(size as int / p as int <= size / 10) by (nonlinear_arith)
                requires
                    p >= 10,
            ;
        }
        let quotient: u128 = size / p;
        let rest: u128 = size % p;
        let rounded: u128 = if rest >= p - rest {
            quotient + 1
        } else {
            quotient
        };
        if negative {
            Some(-(rounded as i128))
        } else {
            Some(rounded as i128)
        }
    }
}

} // verus!
