use dac_xspi::dac::{
    C1, C2, Delay, Disabled, HalDac, HalDisabledDac, HalEnabledDac, HalEnabledUnbufferedDac,
    SETTLE_US, TRIM_MAX,
};
use dac_xspi::Error;

#[test]
fn lifecycle_enable_disable() {
    let c = C1::<Disabled>::new(0);
    let ch = c.read_channel();
    assert!(!ch.en);
    assert!(!ch.cen);
    assert_eq!(ch.trim, 0);

    let e = c.enable();
    let ch = e.read_channel();
    assert!(ch.en);
    assert_eq!(ch.mode, 0);

    let c = e.disable();
    assert!(!c.read_channel().en);

    let u = c.enable_unbuffered();
    let ch = u.read_channel();
    assert!(ch.en);
    assert_eq!(ch.mode, 2);

    let c = u.disable();
    assert!(!c.read_channel().en);
}

#[test]
fn calibration_finds_the_first_converging_trim() {
    let c = C1::<Disabled>::new(5);
    let mut delay = Delay::new();
    let (c, outcome) = c.calibrate_buffer(&mut delay);
    assert_eq!(outcome, Ok(5));
    let ch = c.read_channel();
    assert_eq!(ch.trim, 5);
    assert!(!ch.en);
    assert!(!ch.cen);
    assert_eq!(ch.mode, 0);
    // Six trim values tried (0..=5), one settle time each.
    assert_eq!(delay.elapsed_us, 64 * 6);
}

#[test]
fn calibration_converging_at_zero() {
    let c = C2::<Disabled>::new(0);
    let mut delay = Delay::new();
    let (c, outcome) = c.calibrate_buffer(&mut delay);
    assert_eq!(outcome, Ok(0));
    assert_eq!(c.read_channel().trim, 0);
    assert_eq!(delay.elapsed_us, SETTLE_US as u64);
}

#[test]
fn calibration_times_out_past_the_trim_range() {
    let c = C1::<Disabled>::new(TRIM_MAX + 1);
    let mut delay = Delay::new();
    let (c, outcome) = c.calibrate_buffer(&mut delay);
    assert_eq!(outcome, Err(Error::CalibrationTimeout));
    let ch = c.read_channel();
    // The search stopped at the last representable trim, and the channel
    // was left disabled with calibration off.
    assert_eq!(ch.trim, TRIM_MAX);
    assert!(!ch.en);
    assert!(!ch.cen);
    // Every trim value was tried once.
    assert_eq!(delay.elapsed_us, 64 * (TRIM_MAX as u64 + 1));
}

#[test]
fn calibration_is_idempotent_in_effect() {
    let c = C1::<Disabled>::new(9);
    let mut delay = Delay::new();
    let (c, first) = c.calibrate_buffer(&mut delay);
    assert_eq!(first, Ok(9));
    let after_first = c.read_channel();
    let (c, second) = c.calibrate_buffer(&mut delay);
    assert_eq!(second, Ok(9));
    let after_second = c.read_channel();
    assert_eq!(after_first, after_second);
}

#[test]
fn output_value_programmable_in_any_state() {
    let mut c = C1::<Disabled>::new(0);
    c.set_value(0x123);
    assert_eq!(c.get_value(), 0x123);

    let mut e = c.enable();
    assert_eq!(e.get_value(), 0x123);
    e.set_value(0x456);
    assert_eq!(e.get_value(), 0x456);

    let mut c = e.disable();
    assert_eq!(c.get_value(), 0x456);
    c.set_value(0x789);
    assert_eq!(c.get_value(), 0x789);
}

#[test]
fn output_value_is_twelve_bits() {
    let mut c = C2::<Disabled>::new(0);
    c.set_value(0xFFFF);
    assert_eq!(c.get_value(), 0x0FFF);
    c.set_value(0x1234);
    assert_eq!(c.get_value(), 0x0234);
}

#[test]
fn second_channel_calibrates_independently() {
    let c1 = C1::<Disabled>::new(3);
    let c2 = C2::<Disabled>::new(7);
    let mut delay = Delay::new();
    let (_, r1) = c1.calibrate_buffer(&mut delay);
    let (_, r2) = c2.calibrate_buffer(&mut delay);
    assert_eq!(r1, Ok(3));
    assert_eq!(r2, Ok(7));
    // 4 + 8 settle periods in all.
    assert_eq!(delay.elapsed_us, 64 * 12);
}

#[test]
fn delay_accumulates_waits() {
    let mut delay = Delay::new();
    assert_eq!(delay.elapsed_us, 0);
    delay.delay_us(64);
    delay.delay_us(100);
    assert_eq!(delay.elapsed_us, 164);
}
