use dac_xspi::timing::{solve, TimingPlan};
use dac_xspi::Error;

#[test]
fn solve_280mhz_to_50mhz() {
    // ceil(280e6 / 50e6) = 6; 280e6 / 6 = 46_666_666.
    let plan = solve(280_000_000, 50_000_000, 0).unwrap();
    assert_eq!(plan.divisor, 6);
    assert_eq!(plan.achieved_frequency, 46_666_666);
    assert!(plan.achieved_frequency <= 50_000_000);
    // floor(1e9 * 6 / 280e6) = 21 ns.
    assert_eq!(plan.period_ns, 21);
    assert_eq!(plan.refresh_cycle_count, 0);
}

#[test]
fn solve_refresh_cycles_4us() {
    // ceil(4000 ns / 21 ns) = 191 cycles.
    let plan = solve(280_000_000, 50_000_000, 4).unwrap();
    assert_eq!(plan.period_ns, 21);
    assert_eq!(plan.refresh_cycle_count, 191);
}

#[test]
fn solve_exact_division() {
    let plan = solve(100_000_000, 25_000_000, 0).unwrap();
    assert_eq!(plan.divisor, 4);
    assert_eq!(plan.achieved_frequency, 25_000_000);
}

#[test]
fn solve_divisor_one_when_clock_slow_enough() {
    let plan = solve(100, 200, 0).unwrap();
    assert_eq!(plan.divisor, 1);
    assert_eq!(plan.achieved_frequency, 100);
}

#[test]
fn solve_largest_divisor() {
    let plan = solve(256, 1, 0).unwrap();
    assert_eq!(plan.divisor, 256);
    assert_eq!(plan.achieved_frequency, 1);
}

#[test]
fn solve_divisor_too_large() {
    assert_eq!(solve(257, 1, 0), Err(Error::ConfigurationRange));
    assert_eq!(solve(280_000_000, 1, 0), Err(Error::ConfigurationRange));
}

#[test]
fn solve_zero_desired_frequency() {
    assert_eq!(solve(280_000_000, 0, 0), Err(Error::ConfigurationRange));
}

#[test]
fn solve_zero_kernel_clock() {
    assert_eq!(solve(0, 50_000_000, 0), Err(Error::ConfigurationRange));
}

#[test]
fn solve_refresh_doubling_never_decreases() {
    let four = solve(280_000_000, 50_000_000, 4).unwrap();
    let eight = solve(280_000_000, 50_000_000, 8).unwrap();
    assert!(eight.refresh_cycle_count >= four.refresh_cycle_count);
    // ceil(8000 / 21) = 381.
    assert_eq!(eight.refresh_cycle_count, 381);
}

#[test]
fn solve_plan_is_plain_data() {
    let plan = solve(280_000_000, 50_000_000, 4).unwrap();
    let same = TimingPlan {
        divisor: 6,
        achieved_frequency: 46_666_666,
        period_ns: 21,
        refresh_cycle_count: 191,
    };
    assert_eq!(plan, same);
}
