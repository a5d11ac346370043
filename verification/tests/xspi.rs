use dac_xspi::xspi::{
    HyperbusConfig, Hyperbus, Octospi, OctospiExt, OctospiRegisters, SamplingEdge, SpiConfig,
    TransferWidth, OCTOSPI1_BASE, OCTOSPI2_BASE,
};
use dac_xspi::Error;

#[test]
fn reset_registers_identify_the_instance() {
    let one = OctospiRegisters::octospi1();
    let two = OctospiRegisters::octospi2();
    assert_eq!(one.base_address, 0x9000_0000);
    assert_eq!(two.base_address, 0x7000_0000);
    assert_eq!(one.base_address, OCTOSPI1_BASE);
    assert_eq!(two.base_address, OCTOSPI2_BASE);
    assert!(!one.en);
    assert_eq!(one.prescaler, 0);
}

#[test]
fn hyperbus_config_defaults() {
    let config = HyperbusConfig::new(50_000_000);
    assert_eq!(config.frequency, 50_000_000);
    assert_eq!(config.size_order, 23);
    assert_eq!(config.refresh_interval_us, 4);
    assert_eq!(config.chip_select_high, 4);
    assert_eq!(config.read_write_recovery, 4);
    assert_eq!(config.access_initial_latency, 6);
}

#[test]
fn hyperbus_config_chained_setters() {
    let config = HyperbusConfig::new(50_000_000)
        .device_size_bytes(24)
        .refresh_interval(8)
        .chip_select_high(2)
        .read_write_recovery(7)
        .access_initial_latency(8);
    assert_eq!(config.size_order, 24);
    assert_eq!(config.refresh_interval_us, 8);
    assert_eq!(config.chip_select_high, 2);
    assert_eq!(config.read_write_recovery, 7);
    assert_eq!(config.access_initial_latency, 8);
    // The frequency given at creation is kept.
    assert_eq!(config.frequency, 50_000_000);
}

#[test]
fn hyperbus_configuration_programs_the_block() {
    let config = HyperbusConfig::new(50_000_000).refresh_interval(4);
    let hyperbus =
        Hyperbus::configure(OctospiRegisters::octospi2(), config, 280_000_000).unwrap();
    assert_eq!(hyperbus.frequency(), 46_666_666);
    assert_eq!(hyperbus.refresh_cycles(), 191);

    let regs = hyperbus.registers();
    assert!(!regs.en);
    assert_eq!(regs.fmode, 3);
    assert_eq!(regs.fthres, 3);
    assert_eq!(regs.mtyp, 4);
    assert_eq!(regs.devsize, 23);
    assert_eq!(regs.csht, 3);
    // Divisor 6 is programmed as prescaler 5.
    assert_eq!(regs.prescaler, 5);
    assert_eq!(regs.csbound, 22);
    assert_eq!(regs.refresh, 191);
    // Eight lines, DDR on address and data, on both paths.
    assert!(regs.ccr.dqse && regs.ccr.ddtr && regs.ccr.addtr);
    assert_eq!(regs.ccr.dmode, 4);
    assert_eq!(regs.ccr.admode, 4);
    assert_eq!(regs.ccr.adsize, 3);
    assert_eq!(regs.ccr.imode, 0);
    assert_eq!(regs.wccr, regs.ccr);
    assert!(regs.dhqc);
    assert!(!regs.sshift);
    assert_eq!(regs.trwr, 4);
    assert_eq!(regs.tacc, 6);
    assert!(!regs.wzl);
    assert!(regs.lm);
}

#[test]
fn hyperbus_sixteen_megabyte_device() {
    let config = HyperbusConfig::new(50_000_000).device_size_bytes(24);
    let hyperbus =
        Hyperbus::configure(OctospiRegisters::octospi1(), config, 280_000_000).unwrap();
    let regs = hyperbus.registers();
    assert_eq!(regs.devsize, 24);
    // The chip-select boundary sits at the device's half-size address.
    assert_eq!(regs.csbound, 23);

    let range = hyperbus.init();
    assert_eq!(range.base_address, 0x9000_0000);
    assert_eq!(range.size_bytes, 16_777_216);
}

#[test]
fn hyperbus_refresh_disabled_bypasses_the_computation() {
    let config = HyperbusConfig::new(50_000_000).refresh_interval(0);
    let hyperbus =
        Hyperbus::configure(OctospiRegisters::octospi1(), config, 280_000_000).unwrap();
    assert_eq!(hyperbus.refresh_cycles(), 0);
    assert_eq!(hyperbus.registers().refresh, 0);
}

#[test]
fn hyperbus_configuration_clears_pending_flags() {
    let mut regs = OctospiRegisters::octospi1();
    regs.flag_ctof = true;
    regs.flag_csmf = true;
    regs.flag_ctcf = true;
    regs.flag_ctef = true;
    let config = HyperbusConfig::new(50_000_000);
    let hyperbus = Hyperbus::configure(regs, config, 280_000_000).unwrap();
    let regs = hyperbus.registers();
    assert!(!regs.flag_ctof && !regs.flag_csmf && !regs.flag_ctcf && !regs.flag_ctef);
}

#[test]
fn hyperbus_rejects_unreachable_frequency() {
    let config = HyperbusConfig::new(1);
    let result = Hyperbus::configure(OctospiRegisters::octospi1(), config, 280_000_000);
    assert_eq!(result.err(), Some(Error::ConfigurationRange));
}

#[test]
fn indirect_configuration_programs_the_block() {
    let config = SpiConfig::new(50_000_000);
    assert_eq!(config.fifo_threshold, 4);
    assert_eq!(config.dummy_cycles, 0);
    assert_eq!(config.sampling_edge, SamplingEdge::Falling);
    assert_eq!(config.mode, TransferWidth::Single);

    let spi = Octospi::configure(OctospiRegisters::octospi1(), config, 280_000_000).unwrap();
    let regs = spi.registers();
    assert!(regs.en);
    assert_eq!(regs.fmode, 0);
    assert_eq!(regs.fthres, 3);
    assert_eq!(regs.mtyp, 2);
    // Device size forced to its maximum in indirect mode.
    assert_eq!(regs.devsize, 0x1F);
    assert_eq!(regs.prescaler, 5);
    assert_eq!(regs.ccr.dmode, 1);
    assert_eq!(regs.ccr.admode, 1);
    assert_eq!(regs.ccr.adsize, 0);
    assert_eq!(regs.ccr.imode, 0);
    assert!(!regs.ccr.ddtr && !regs.ccr.addtr && !regs.ccr.dqse);
    // Falling-edge sampling is programmed as the sample shift.
    assert!(regs.sshift);
    assert_eq!(regs.dcyc, 0);
    assert!(!regs.dhqc);
}

#[test]
fn indirect_configuration_quad_rising_with_dummy_cycles() {
    let config = SpiConfig {
        frequency: 25_000_000,
        mode: TransferWidth::Quad,
        dummy_cycles: 6,
        fifo_threshold: 32,
        sampling_edge: SamplingEdge::Rising,
    };
    let spi = Octospi::configure(OctospiRegisters::octospi2(), config, 100_000_000).unwrap();
    let regs = spi.registers();
    assert_eq!(regs.prescaler, 3);
    assert_eq!(regs.fthres, 31);
    assert_eq!(regs.ccr.dmode, 3);
    assert_eq!(regs.ccr.admode, 3);
    assert!(!regs.sshift);
    assert_eq!(regs.dcyc, 6);
}

#[test]
fn indirect_configuration_rejects_zero_frequency() {
    let config = SpiConfig::new(0);
    let result = Octospi::configure(OctospiRegisters::octospi1(), config, 280_000_000);
    assert_eq!(result.err(), Some(Error::ConfigurationRange));
}

#[test]
fn extension_trait_matches_the_sequencers() {
    let config = HyperbusConfig::new(50_000_000);
    let via_trait = OctospiRegisters::octospi1()
        .octospi_hyperbus_unchecked(config, 280_000_000)
        .unwrap();
    let direct = Hyperbus::configure(OctospiRegisters::octospi1(), config, 280_000_000).unwrap();
    assert_eq!(via_trait.registers(), direct.registers());
    assert_eq!(via_trait.frequency(), direct.frequency());

    let spi_config = SpiConfig::new(50_000_000);
    let via_trait = OctospiRegisters::octospi2()
        .octospi_unchecked(spi_config, 280_000_000)
        .unwrap();
    let direct = Octospi::configure(OctospiRegisters::octospi2(), spi_config, 280_000_000)
        .unwrap();
    assert_eq!(via_trait.registers(), direct.registers());
}
