//! Timing-parameter solver.
//!
//! Pure computation that converts a desired bus frequency, a distributed
//! refresh interval and the kernel clock into the integer register fields of
//! the bus controller: the clock divisor, the achieved frequency, the clock
//! period and the refresh cycle count.

use vstd::prelude::*;

verus! {

use crate::Error;
use vstd::arithmetic::div_mod::{
    lemma_basic_div, lemma_div_by_self, lemma_div_is_ordered, lemma_fundamental_div_mod,
    lemma_mod_division_less_than_divisor, lemma_multiply_divide_le,
};

/// Ceiling division of `num` by `den`, for positive `den`.
pub open spec fn ceil_div(num: int, den: int) -> int
    recommends
        den > 0,
{
    (num + den - 1) / den
}

/// The clock divisor: the smallest `d` with `kernel_clock_hz / d <= desired_hz`,
/// which is the ceiling of `kernel_clock_hz / desired_hz`.
pub open spec fn spec_divisor(kernel_clock_hz: int, desired_hz: int) -> int
    recommends
        desired_hz > 0,
{
    ceil_div(kernel_clock_hz, desired_hz)
}

/// The achieved clock period in nanoseconds, truncated to an integer.
pub open spec fn spec_period_ns(kernel_clock_hz: int, divisor: int) -> int
    recommends
        kernel_clock_hz > 0,
{
    (1_000_000_000 * divisor) / kernel_clock_hz
}

/// The number of clock periods that cover the refresh interval, rounded up.
/// A refresh interval of zero disables the distributed-refresh upper bound,
/// and the cycle count is zero.
pub open spec fn spec_refresh_cycles(refresh_interval_us: int, period_ns: int) -> int
    recommends
        refresh_interval_us == 0 || period_ns > 0,
{
    if refresh_interval_us == 0 {
        0
    } else {
        ceil_div(1000 * refresh_interval_us, period_ns)
    }
}

/// The inputs on which [`solve`] succeeds: the divisor must fit the
/// hardware's 8-bit field (values 1..=256), and when a refresh interval is
/// requested, the clock period must be at least a nanosecond and the cycle
/// count must fit the 32-bit refresh field.
pub open spec fn solvable(kernel_clock_hz: int, desired_hz: int, refresh_interval_us: int) -> bool {
    &&& desired_hz > 0
    &&& 1 <= spec_divisor(kernel_clock_hz, desired_hz) <= 256
    &&& refresh_interval_us > 0 ==> {
        let period = spec_period_ns(kernel_clock_hz, spec_divisor(kernel_clock_hz, desired_hz));
        period > 0 && spec_refresh_cycles(refresh_interval_us, period) <= u32::MAX
    }
}

/// The integer register fields derived from a frequency request.
#[derive(Clone, Copy, Debug, PartialEq, Eq, Structural)]
pub struct TimingPlan {
    /// Clock divisor, in 1..=256.
    pub divisor: u32,
    /// The bus frequency actually achieved: never above the requested one.
    pub achieved_frequency: u32,
    /// Achieved clock period in nanoseconds, truncated.
    pub period_ns: u32,
    /// Number of clock periods covering the refresh interval, rounded up;
    /// zero when the refresh interval is zero.
    pub refresh_cycle_count: u32,
}

/// Convert a frequency request into the hardware's integer register fields.
///
/// The divisor is the smallest `d` such that `kernel_clock_hz / d` does not
/// exceed `desired_hz`; it must fit the 8-bit divider field, which represents
/// 1..=256. Requests outside that range are rejected, never silently
/// misprogrammed.
pub fn solve(kernel_clock_hz: u32, desired_hz: u32, refresh_interval_us: u32) -> (r: Result<
    TimingPlan,
    Error,
>)
    ensures
        r is Ok <==> solvable(
            kernel_clock_hz as int,
            desired_hz as int,
            refresh_interval_us as int,
        ),
        r matches Ok(plan) ==> {
            let d = spec_divisor(kernel_clock_hz as int, desired_hz as int);
            &&& plan.divisor == d
            &&& 1 <= d <= 256
            &&& plan.achieved_frequency == kernel_clock_hz as int / d
            &&& plan.achieved_frequency <= desired_hz
            &&& plan.period_ns == spec_period_ns(kernel_clock_hz as int, d)
            &&& plan.refresh_cycle_count == spec_refresh_cycles(
                refresh_interval_us as int,
                plan.period_ns as int,
            )
        },
        r matches Err(e) ==> e == Error::ConfigurationRange,
{
    let ghost ki: int = kernel_clock_hz as int;
    let ghost fi: int = desired_hz as int;
    if desired_hz == 0 {
        return Err(Error::ConfigurationRange);
    }
    if kernel_clock_hz == 0 {
        proof {
            lemma_basic_div(fi - 1, fi);
        }
        return Err(Error::ConfigurationRange);
    }
    let k_wide: u64 = kernel_clock_hz as u64;
    let f_wide: u64 = desired_hz as u64;
    let d64: u64 = (k_wide + f_wide - 1) / f_wide;
    let ghost di: int = spec_divisor(ki, fi);
    proof {
        assert(d64 == di);
        // The divisor is at least one: k >= 1, so k + f - 1 >= f.
        lemma_div_is_ordered(fi, ki + fi - 1, fi);
        lemma_div_by_self(fi);
    }
    if d64 > 256 {
        return Err(Error::ConfigurationRange);
    }
    let divisor: u32 = d64 as u32;
    let achieved_frequency: u32 = kernel_clock_hz / divisor;
    proof {
        // d * f >= k, hence k / d <= f: the achieved frequency never exceeds
        // the requested one.
        lemma_fundamental_div_mod(ki + fi - 1, fi);
        lemma_mod_division_less_than_divisor(ki + fi - 1, fi);
        assert(di * fi >= ki);
        lemma_multiply_divide_le(ki, di, fi);
        // d <= k, hence the period truncates to at most 1e9 ns.
        assert(ki + fi - 1 <= fi * ki) by (nonlinear_arith)
            requires
                ki >= 1,
                fi >= 1,
        ;
        lemma_multiply_divide_le(ki + fi - 1, fi, ki);
        assert(1_000_000_000 * di <= ki * 1_000_000_000) by (nonlinear_arith)
            requires
                di <= ki,
        ;
        lemma_multiply_divide_le(1_000_000_000 * di, ki, 1_000_000_000);
    }
    let period64: u64 = (1_000_000_000u64 * d64) / k_wide;
    let period_ns: u32 = period64 as u32;
    let refresh_cycle_count: u32 = if refresh_interval_us == 0 {
        0
    } else {
        if period_ns == 0 {
            return Err(Error::ConfigurationRange);
        }
        let interval_ns: u64 = 1000u64 * (refresh_interval_us as u64);
        let rc64: u64 = (interval_ns + (period_ns as u64) - 1) / (period_ns as u64);
        if rc64 > 0xFFFF_FFFFu64 {
            return Err(Error::ConfigurationRange);
        }
        rc64 as u32
    };
    Ok(
        TimingPlan {
            divisor,
            achieved_frequency,
            period_ns,
            refresh_cycle_count,
        },
    )
}

/// Doubling the refresh interval, at a fixed clock period, never decreases
/// the refresh cycle count.
pub proof fn lemma_refresh_cycles_monotonic(refresh_interval_us: int, period_ns: int)
    requires
        refresh_interval_us >= 0,
        period_ns > 0,
    ensures
        spec_refresh_cycles(2 * refresh_interval_us, period_ns) >= spec_refresh_cycles(
            refresh_interval_us,
            period_ns,
        ),
{
    if refresh_interval_us > 0 {
        lemma_div_is_ordered(
            1000 * refresh_interval_us + period_ns - 1,
            1000 * (2 * refresh_interval_us) + period_ns - 1,
            period_ns,
        );
    }
}

} // verus!
