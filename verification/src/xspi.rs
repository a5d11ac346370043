//! OCTOSPI bus controller: configuration values, the plain-value register
//! model, and the register-programming sequencers that bring a controller
//! from its disabled reset state to the configured indirect-access state or
//! to the memory-mapped Hyperbus state.
//!
//! The controller's register block is modelled as a struct of plain values,
//! one field per hardware register field that this driver programs. Each
//! sequencer's contract states the exact register state it establishes, so
//! that the hardware-mandated write discipline (write-type registers reset
//! the fields they do not name; modify-type accesses preserve them) is
//! visible in the specification.

use vstd::prelude::*;

verus! {

use crate::Error;
use crate::timing::{solvable, solve, spec_divisor, spec_period_ns, spec_refresh_cycles};

/// Base address of the first controller instance's mapped range.
pub const OCTOSPI1_BASE: u32 = 0x9000_0000;

/// Base address of the second controller instance's mapped range.
pub const OCTOSPI2_BASE: u32 = 0x7000_0000;

/// The clock edge on which incoming data is sampled during indirect
/// transfers.
#[derive(Clone, Copy, Debug, PartialEq, Eq, Structural)]
pub enum SamplingEdge {
    Rising,
    Falling,
}

/// Transfer width for indirect transfers: how many data lines carry each
/// beat.
#[derive(Clone, Copy, Debug, PartialEq, Eq, Structural)]
pub enum TransferWidth {
    Single,
    Dual,
    Quad,
    Octo,
}

impl TransferWidth {
    /// The value the communication-configuration mode fields hold for this
    /// width.
    pub open spec fn spec_reg_value(self) -> u8 {
        match self {
            TransferWidth::Single => 1,
            TransferWidth::Dual => 2,
            TransferWidth::Quad => 3,
            TransferWidth::Octo => 4,
        }
    }

    /// Encode this width as the mode-field value.
    pub fn reg_value(self) -> (v: u8)
        ensures
            v == self.spec_reg_value(),
    {
        match self {
            TransferWidth::Single => 1,
            TransferWidth::Dual => 2,
            TransferWidth::Quad => 3,
            TransferWidth::Octo => 4,
        }
    }
}

/// Configuration for register-level (indirect) transfers.
#[derive(Clone, Copy, Debug, PartialEq, Eq, Structural)]
pub struct SpiConfig {
    /// Requested bus clock frequency in Hz.
    pub frequency: u32,
    /// Transfer width used for address and data phases.
    pub mode: TransferWidth,
    /// Dummy cycles between the address and data phases, at most 31.
    pub dummy_cycles: u8,
    /// FIFO threshold in bytes, in 1..=32.
    pub fifo_threshold: u8,
    /// Clock edge on which incoming data is sampled.
    pub sampling_edge: SamplingEdge,
}

impl SpiConfig {
    /// Field ranges the hardware register fields can hold.
    pub open spec fn wf(self) -> bool {
        &&& 1 <= self.fifo_threshold <= 32
        &&& self.dummy_cycles <= 31
    }

    /// A default configuration for the given bus frequency: single-line
    /// transfers, no dummy cycles, a FIFO threshold of 4 bytes, and sampling
    /// on the falling edge. The falling edge is the default for indirect
    /// transfers specifically to avoid signal contention when zero dummy
    /// cycles are configured; it must not be combined with DDR mode.
    pub fn new(frequency: u32) -> (c: Self)
        ensures
            c == (SpiConfig {
                frequency,
                mode: TransferWidth::Single,
                dummy_cycles: 0,
                fifo_threshold: 4,
                sampling_edge: SamplingEdge::Falling,
            }),
            c.wf(),
    {
        SpiConfig {
            frequency,
            mode: TransferWidth::Single,
            dummy_cycles: 0,
            fifo_threshold: 4,
            sampling_edge: SamplingEdge::Falling,
        }
    }
}

/// A structure for specifying a Hyperbus configuration, built via chained
/// setters over sane defaults.
#[derive(Clone, Copy, Debug, PartialEq, Eq, Structural)]
pub struct HyperbusConfig {
    /// Requested bus clock frequency in Hz.
    pub frequency: u32,
    /// Number of bytes in the device, expressed as a power of two; 5..=26.
    pub size_order: u8,
    /// Distributed refresh interval in microseconds; 0 disables the upper
    /// bound on transaction length.
    pub refresh_interval_us: u32,
    /// Chip-select high time between transactions in clock cycles; 1..=64.
    pub chip_select_high: u8,
    /// Read-write recovery time in clock cycles.
    pub read_write_recovery: u8,
    /// Initial access latency in clock cycles.
    pub access_initial_latency: u8,
}

impl HyperbusConfig {
    /// Field ranges the hardware register fields can hold.
    pub open spec fn wf(self) -> bool {
        &&& 5 <= self.size_order <= 26
        &&& 1 <= self.chip_select_high <= 64
    }

    /// Create a default Hyperbus configuration for the given bus clock
    /// frequency: an 8 MByte device (size order 23), a refresh interval of
    /// 4 us, four cycles of chip-select high time, four cycles of read-write
    /// recovery, and six cycles of initial access latency.
    pub fn new(frequency: u32) -> (c: Self)
        ensures
            c == (HyperbusConfig {
                frequency,
                size_order: 23,
                refresh_interval_us: 4,
                chip_select_high: 4,
                read_write_recovery: 4,
                access_initial_latency: 6,
            }),
            c.wf(),
    {
        HyperbusConfig {
            frequency,
            size_order: 23,
            refresh_interval_us: 4,
            chip_select_high: 4,
            read_write_recovery: 4,
            access_initial_latency: 6,
        }
    }

    /// Number of bytes in the device, expressed as a power of two. The
    /// smallest mappable device holds 32 bytes (order 5) and the largest
    /// 256 MByte (order 26).
    pub fn device_size_bytes(self, size_order: u8) -> (c: Self)
        requires
            4 < size_order,
            size_order <= 26,
        ensures
            c == (HyperbusConfig { size_order, ..self }),
    {
        HyperbusConfig { size_order, ..self }
    }

    /// The refresh interval sets an upper limit on the length of read and
    /// write transactions, so that the distributed refresh mechanism in the
    /// memory can operate. Set to zero to disable the upper limit; the
    /// caller then becomes responsible for issuing the reads needed to cover
    /// the required refreshes.
    pub fn refresh_interval(self, refresh_interval_us: u32) -> (c: Self)
        ensures
            c == (HyperbusConfig { refresh_interval_us, ..self }),
    {
        HyperbusConfig { refresh_interval_us, ..self }
    }

    /// Chip-select high time between transactions in clock cycles. There is
    /// a minimum of one cycle between transactions, and the controller's
    /// field holds at most 64 cycles.
    pub fn chip_select_high(self, chip_select_high: u8) -> (c: Self)
        requires
            0 < chip_select_high,
            chip_select_high <= 64,
        ensures
            c == (HyperbusConfig { chip_select_high, ..self }),
    {
        HyperbusConfig { chip_select_high, ..self }
    }

    /// Read-write recovery time in clock cycles, from the memory datasheet.
    pub fn read_write_recovery(self, read_write_recovery: u8) -> (c: Self)
        ensures
            c == (HyperbusConfig { read_write_recovery, ..self }),
    {
        HyperbusConfig { read_write_recovery, ..self }
    }

    /// Initial access time in clock cycles. This must equal the number of
    /// cycles the memory device is currently configured to use.
    pub fn access_initial_latency(self, access_initial_latency: u8) -> (c: Self)
        ensures
            c == (HyperbusConfig { access_initial_latency, ..self }),
    {
        HyperbusConfig { access_initial_latency, ..self }
    }
}

/// One communication-configuration register: the fields programming how the
/// address and data phases are driven, for reads (CCR) or writes (WCCR).
#[derive(Clone, Copy, Debug, PartialEq, Eq, Structural)]
pub struct CommConfig {
    /// Data-strobe enable.
    pub dqse: bool,
    /// Data phase double-data-rate mode.
    pub ddtr: bool,
    /// Data phase mode (number of lines).
    pub dmode: u8,
    /// Address size field.
    pub adsize: u8,
    /// Address phase double-data-rate mode.
    pub addtr: bool,
    /// Address phase mode (number of lines).
    pub admode: u8,
    /// Instruction phase mode; 0 means no instruction phase.
    pub imode: u8,
}

/// Plain-value model of one controller instance's register block. The
/// identity of the instance is its base address. A freshly claimed
/// peripheral starts from [`OctospiRegisters::octospi1`] or
/// [`OctospiRegisters::octospi2`], the post-reset state.
#[derive(Clone, Copy, Debug, PartialEq, Eq, Structural)]
pub struct OctospiRegisters {
    /// Fixed base address of the instance's mapped range.
    pub base_address: u32,
    /// Peripheral enable bit.
    pub en: bool,
    /// Functional mode field; 0 is indirect write, 3 is memory-mapped.
    pub fmode: u8,
    /// FIFO threshold field (one less than the threshold in bytes).
    pub fthres: u8,
    /// Pending transfer-overrun flag.
    pub flag_ctof: bool,
    /// Pending status-match flag.
    pub flag_csmf: bool,
    /// Pending transfer-complete flag.
    pub flag_ctcf: bool,
    /// Pending transfer-error flag.
    pub flag_ctef: bool,
    /// Memory type field; 2 is standard mode, 4 is Hyperbus memory mode.
    pub mtyp: u8,
    /// Device size field: bytes as a power of two.
    pub devsize: u8,
    /// Chip-select high time field (one less than the time in cycles).
    pub csht: u8,
    /// Clock prescaler field (one less than the divisor).
    pub prescaler: u8,
    /// Chip-select boundary field: transactions are restarted when crossing
    /// an address multiple of two to this power.
    pub csbound: u8,
    /// Refresh field: the maximum length of a transaction in clock cycles.
    pub refresh: u32,
    /// Read communication configuration.
    pub ccr: CommConfig,
    /// Write communication configuration.
    pub wccr: CommConfig,
    /// Sample shift: sample incoming data half a cycle late (on the falling
    /// edge).
    pub sshift: bool,
    /// Dummy cycles between address and data phases.
    pub dcyc: u8,
    /// Delay hold quarter cycle.
    pub dhqc: bool,
    /// Read-write recovery time field.
    pub trwr: u8,
    /// Access initial latency field.
    pub tacc: u8,
    /// Write zero latency flag.
    pub wzl: bool,
    /// Fixed latency mode flag.
    pub lm: bool,
}

/// The post-reset register state of the instance at `base_address`.
pub open spec fn spec_reset_registers(base_address: u32) -> OctospiRegisters {
    OctospiRegisters {
        base_address,
        en: false,
        fmode: 0,
        fthres: 0,
        flag_ctof: false,
        flag_csmf: false,
        flag_ctcf: false,
        flag_ctef: false,
        mtyp: 0,
        devsize: 0,
        csht: 0,
        prescaler: 0,
        csbound: 0,
        refresh: 0,
        ccr: CommConfig {
            dqse: false,
            ddtr: false,
            dmode: 0,
            adsize: 0,
            addtr: false,
            admode: 0,
            imode: 0,
        },
        wccr: CommConfig {
            dqse: false,
            ddtr: false,
            dmode: 0,
            adsize: 0,
            addtr: false,
            admode: 0,
            imode: 0,
        },
        sshift: false,
        dcyc: 0,
        dhqc: false,
        trwr: 0,
        tacc: 0,
        wzl: false,
        lm: false,
    }
}

impl OctospiRegisters {
    /// Claim the first controller instance in its post-reset state.
    pub fn octospi1() -> (r: Self)
        ensures
            r == spec_reset_registers(OCTOSPI1_BASE),
    {
        Self::reset_state(OCTOSPI1_BASE)
    }

    /// Claim the second controller instance in its post-reset state.
    pub fn octospi2() -> (r: Self)
        ensures
            r == spec_reset_registers(OCTOSPI2_BASE),
    {
        Self::reset_state(OCTOSPI2_BASE)
    }

    fn reset_state(base_address: u32) -> (r: Self)
        ensures
            r == spec_reset_registers(base_address),
    {
        OctospiRegisters {
            base_address,
            en: false,
            fmode: 0,
            fthres: 0,
            flag_ctof: false,
            flag_csmf: false,
            flag_ctcf: false,
            flag_ctef: false,
            mtyp: 0,
            devsize: 0,
            csht: 0,
            prescaler: 0,
            csbound: 0,
            refresh: 0,
            ccr: CommConfig {
                dqse: false,
                ddtr: false,
                dmode: 0,
                adsize: 0,
                addtr: false,
                admode: 0,
                imode: 0,
            },
            wccr: CommConfig {
                dqse: false,
                ddtr: false,
                dmode: 0,
                adsize: 0,
                addtr: false,
                admode: 0,
                imode: 0,
            },
            sshift: false,
            dcyc: 0,
            dhqc: false,
            trwr: 0,
            tacc: 0,
            wzl: false,
            lm: false,
        }
    }
}

/// The communication configuration used on both the read and write paths of
/// a Hyperbus link: eight data lines, double data rate on address and data,
/// data strobe enabled, 32-bit addresses, no instruction phase.
pub open spec fn spec_wide_ddr_comm() -> CommConfig {
    CommConfig {
        dqse: true,
        ddtr: true,
        dmode: 4,
        adsize: 3,
        addtr: true,
        admode: 4,
        imode: 0,
    }
}

/// The register state after the indirect-access configuration sequence, run
/// on a block previously in state `old` with configuration `config` and the
/// solved clock divisor `divisor`.
///
/// Registers the sequence writes have every field determined (a hardware
/// register write resets the fields it does not name); registers it never
/// touches keep their previous contents.
pub open spec fn spec_indirect_configured(
    old: OctospiRegisters,
    config: SpiConfig,
    divisor: int,
) -> OctospiRegisters {
    OctospiRegisters {
        base_address: old.base_address,
        en: true,
        fmode: 0,
        fthres: (config.fifo_threshold - 1) as u8,
        flag_ctof: false,
        flag_csmf: false,
        flag_ctcf: false,
        flag_ctef: false,
        mtyp: 2,
        devsize: 0x1F,
        csht: 0,
        prescaler: (divisor - 1) as u8,
        csbound: old.csbound,
        refresh: old.refresh,
        ccr: CommConfig {
            dqse: false,
            ddtr: false,
            dmode: config.mode.spec_reg_value(),
            adsize: 0,
            addtr: false,
            admode: config.mode.spec_reg_value(),
            imode: 0,
        },
        wccr: old.wccr,
        sshift: config.sampling_edge is Falling,
        dcyc: config.dummy_cycles,
        dhqc: false,
        trwr: old.trwr,
        tacc: old.tacc,
        wzl: old.wzl,
        lm: old.lm,
    }
}

/// The register state after the Hyperbus configuration sequence, run on a
/// block previously in state `old` with configuration `config`, the solved
/// clock divisor `divisor` and refresh cycle count `refresh_cycle_count`.
/// The peripheral is left disabled; [`Hyperbus::init`] enables it.
pub open spec fn spec_hyperbus_configured(
    old: OctospiRegisters,
    config: HyperbusConfig,
    divisor: int,
    refresh_cycle_count: int,
) -> OctospiRegisters {
    OctospiRegisters {
        base_address: old.base_address,
        en: false,
        fmode: 3,
        fthres: 3,
        flag_ctof: false,
        flag_csmf: false,
        flag_ctcf: false,
        flag_ctef: false,
        mtyp: 4,
        devsize: config.size_order,
        csht: (config.chip_select_high - 1) as u8,
        prescaler: (divisor - 1) as u8,
        csbound: (config.size_order - 1) as u8,
        refresh: refresh_cycle_count as u32,
        ccr: spec_wide_ddr_comm(),
        wccr: spec_wide_ddr_comm(),
        sshift: false,
        dcyc: 0,
        dhqc: true,
        trwr: config.read_write_recovery,
        tacc: config.access_initial_latency,
        wzl: false,
        lm: true,
    }
}

/// A configured controller in indirect-access mode: register-level
/// transfers, no memory mapping.
pub struct Octospi {
    rb: OctospiRegisters,
    mode: TransferWidth,
}

impl Octospi {
    /// The register state of the underlying block.
    pub closed spec fn regs(self) -> OctospiRegisters {
        self.rb
    }

    /// The transfer width the controller was configured with.
    pub closed spec fn spec_mode(self) -> TransferWidth {
        self.mode
    }

    /// Read back the register state of the underlying block.
    pub fn registers(&self) -> (r: OctospiRegisters)
        ensures
            r == self.regs(),
    {
        self.rb
    }

    /// Bring a disabled, idle controller to the configured indirect-access
    /// state: disable, clear all pending status flags, program the transfer
    /// modes and the solved divisor, then re-enable.
    ///
    /// Fails, leaving the peripheral disabled, exactly when the requested
    /// frequency cannot be represented by the divider field.
    pub fn configure(regs: OctospiRegisters, config: SpiConfig, kernel_clock_hz: u32) -> (r:
        Result<Octospi, Error>)
        requires
            config.wf(),
        ensures
            r is Ok <==> solvable(kernel_clock_hz as int, config.frequency as int, 0),
            r matches Ok(o) ==> {
                let d = spec_divisor(kernel_clock_hz as int, config.frequency as int);
                &&& o.regs() == spec_indirect_configured(regs, config, d)
                &&& o.spec_mode() == config.mode
            },
            r matches Err(e) ==> e == Error::ConfigurationRange,
    {
        let mut regs = regs;
        // Disable the controller before configuring it. The model peripheral
        // holds no transaction in flight, so it is immediately idle.
        regs.en = false;
        let plan = match solve(kernel_clock_hz, config.frequency, 0) {
            Ok(p) => p,
            Err(e) => {
                return Err(e);
            },
        };
        // Clear all pending flags.
        regs.flag_ctof = false;
        regs.flag_csmf = false;
        regs.flag_ctcf = false;
        regs.flag_ctef = false;
        // Communication method: indirect mode, requested FIFO threshold.
        regs.fmode = 0;
        regs.fthres = config.fifo_threshold - 1;
        // Standard (non-Hyperbus) memory type. The device size field is set
        // to its maximum: even when addressing is not used, the flash size
        // violation may still trigger.
        regs.mtyp = 2;
        regs.devsize = 0x1F;
        regs.csht = 0;
        // Communications configuration: data and address phases on the
        // configured number of lines, eight-bit addresses, no instruction
        // phase.
        let mode_bits: u8 = config.mode.reg_value();
        regs.ccr = CommConfig {
            dqse: false,
            ddtr: false,
            dmode: mode_bits,
            adsize: 0,
            addtr: false,
            admode: mode_bits,
            imode: 0,
        };
        // Prescaler from the solved divisor.
        regs.prescaler = (plan.divisor - 1) as u8;
        // Sampling on the falling edge avoids signal contention when reading
        // with zero dummy cycles; it must not be combined with DDR mode, and
        // this path never enables DDR.
        regs.sshift = config.sampling_edge == SamplingEdge::Falling;
        regs.dcyc = config.dummy_cycles;
        regs.dhqc = false;
        // Enable the peripheral.
        regs.en = true;
        Ok(Octospi { rb: regs, mode: config.mode })
    }
}

/// A controller configured for a Hyperbus memory link, ready for the
/// terminal memory-mapped transition.
pub struct Hyperbus {
    rb: OctospiRegisters,
    frequency: u32,
    refresh_cycles: u32,
}

/// The linear addressable byte range a memory-mapped controller exposes.
#[derive(Clone, Copy, Debug, PartialEq, Eq, Structural)]
pub struct MappedRange {
    /// First address of the range: the instance's fixed base address.
    pub base_address: u32,
    /// Size of the range in bytes: two to the configured device size order.
    pub size_bytes: u32,
}

impl Hyperbus {
    /// The register state of the underlying block.
    pub closed spec fn regs(self) -> OctospiRegisters {
        self.rb
    }

    /// The achieved bus frequency.
    pub closed spec fn spec_frequency(self) -> u32 {
        self.frequency
    }

    /// The configured refresh interval in clock cycles.
    pub closed spec fn spec_refresh_cycles(self) -> u32 {
        self.refresh_cycles
    }

    /// Read back the register state of the underlying block.
    pub fn registers(&self) -> (r: OctospiRegisters)
        ensures
            r == self.regs(),
    {
        self.rb
    }

    /// The achieved bus frequency in Hz: never above the requested one.
    pub fn frequency(&self) -> (f: u32)
        ensures
            f == self.spec_frequency(),
    {
        self.frequency
    }

    /// The configured refresh interval in clock cycles.
    pub fn refresh_cycles(&self) -> (c: u32)
        ensures
            c == self.spec_refresh_cycles(),
    {
        self.refresh_cycles
    }

    /// Bring a disabled, idle controller to the configured Hyperbus state:
    /// clear all pending status flags, program the memory-mapped-capable
    /// communication method, the solved divisor, the device geometry (size,
    /// chip-select boundary at the device's half-size address), the refresh
    /// cycle count and the Hyperbus latency fields. The peripheral stays
    /// disabled until [`Hyperbus::init`].
    ///
    /// Fails, leaving the peripheral disabled, exactly when the divisor or
    /// the refresh cycle count cannot be represented by their register
    /// fields.
    pub fn configure(regs: OctospiRegisters, config: HyperbusConfig, kernel_clock_hz: u32) -> (r:
        Result<Hyperbus, Error>)
        requires
            config.wf(),
        ensures
            r is Ok <==> solvable(
                kernel_clock_hz as int,
                config.frequency as int,
                config.refresh_interval_us as int,
            ),
            r matches Ok(h) ==> {
                let d = spec_divisor(kernel_clock_hz as int, config.frequency as int);
                let period = spec_period_ns(kernel_clock_hz as int, d);
                let cycles = spec_refresh_cycles(config.refresh_interval_us as int, period);
                &&& h.regs() == spec_hyperbus_configured(regs, config, d, cycles)
                &&& h.spec_frequency() == kernel_clock_hz as int / d
                &&& h.spec_frequency() <= config.frequency
                &&& h.spec_refresh_cycles() == cycles
            },
            r matches Err(e) ==> e == Error::ConfigurationRange,
    {
        let mut regs = regs;
        // Disable the controller before configuring it. The model peripheral
        // holds no transaction in flight, so it is immediately idle.
        regs.en = false;
        let plan = match solve(kernel_clock_hz, config.frequency, config.refresh_interval_us) {
            Ok(p) => p,
            Err(e) => {
                return Err(e);
            },
        };
        // Clear all pending flags.
        regs.flag_ctof = false;
        regs.flag_csmf = false;
        regs.flag_ctcf = false;
        regs.flag_ctef = false;
        // Communication method: memory-mapped functional mode, FIFO
        // threshold of four bytes.
        regs.fmode = 3;
        regs.fthres = 3;
        // Hyperbus memory type and device geometry.
        regs.mtyp = 4;
        regs.devsize = config.size_order;
        regs.csht = config.chip_select_high - 1;
        // Prescaler from the solved divisor.
        regs.prescaler = (plan.divisor - 1) as u8;
        // Chip-select boundary at the device's half-size address: an access
        // crossing between the two halves restarts the bus transaction.
        // Some parts place the halves on separate dies, and the penalty is
        // negligible otherwise.
        regs.csbound = config.size_order - 1;
        // Release the chip select for refresh after this many cycles.
        regs.refresh = plan.refresh_cycle_count;
        // Eight lines and double data rate, on the read and the write path.
        let wide = CommConfig {
            dqse: true,
            ddtr: true,
            dmode: 4,
            adsize: 3,
            addtr: true,
            admode: 4,
            imode: 0,
        };
        regs.ccr = wide;
        regs.wccr = wide;
        // Delay hold quarter cycle; no sample shift in DDR mode.
        regs.sshift = false;
        regs.dcyc = 0;
        regs.dhqc = true;
        // Hyperbus latency: read-write recovery, initial access latency,
        // latency on write accesses, fixed latency mode.
        regs.trwr = config.read_write_recovery;
        regs.tacc = config.access_initial_latency;
        regs.wzl = false;
        regs.lm = true;
        Ok(
            Hyperbus {
                rb: regs,
                frequency: plan.achieved_frequency,
                refresh_cycles: plan.refresh_cycle_count,
            },
        )
    }

    /// Enable the configured controller, switch it to memory-mapped mode and
    /// expose the device as a linear addressable byte range at the
    /// instance's fixed base address. This transition is one-way: the
    /// controller's registers are from now on owned by the mapping, and no
    /// further token is produced.
    pub fn init(self) -> (r: MappedRange)
        requires
            self.regs().devsize < 32,
        ensures
            r.base_address == self.regs().base_address,
            r.size_bytes == (1u32 << self.regs().devsize),
    {
        let mut regs = self.rb;
        // Enable the peripheral; the model peripheral is immediately idle.
        regs.en = true;
        // Transition to memory-mapped mode.
        regs.fmode = 3;
        MappedRange { base_address: regs.base_address, size_bytes: 1u32 << regs.devsize }
    }
}

/// Extension trait: create and enable a controller directly from a claimed
/// register block.
pub trait OctospiExt: Sized {
    /// The register-block model this peripheral hands to the sequencers.
    spec fn regs_model(self) -> OctospiRegisters;

    /// Create and enable the peripheral in indirect-access mode; see
    /// [`Octospi::configure`].
    fn octospi_unchecked(self, config: SpiConfig, kernel_clock_hz: u32) -> (r: Result<
        Octospi,
        Error,
    >)
        requires
            config.wf(),
        ensures
            r is Ok <==> solvable(kernel_clock_hz as int, config.frequency as int, 0),
            r matches Ok(o) ==> {
                let d = spec_divisor(kernel_clock_hz as int, config.frequency as int);
                &&& o.regs() == spec_indirect_configured(self.regs_model(), config, d)
                &&& o.spec_mode() == config.mode
            },
            r matches Err(e) ==> e == Error::ConfigurationRange,
    ;

    /// Create the peripheral as a configured Hyperbus link; see
    /// [`Hyperbus::configure`].
    fn octospi_hyperbus_unchecked(self, config: HyperbusConfig, kernel_clock_hz: u32) -> (r:
        Result<Hyperbus, Error>)
        requires
            config.wf(),
        ensures
            r is Ok <==> solvable(
                kernel_clock_hz as int,
                config.frequency as int,
                config.refresh_interval_us as int,
            ),
            r matches Ok(h) ==> {
                let d = spec_divisor(kernel_clock_hz as int, config.frequency as int);
                let period = spec_period_ns(kernel_clock_hz as int, d);
                let cycles = spec_refresh_cycles(config.refresh_interval_us as int, period);
                &&& h.regs() == spec_hyperbus_configured(self.regs_model(), config, d, cycles)
                &&& h.spec_frequency() == kernel_clock_hz as int / d
                &&& h.spec_frequency() <= config.frequency
                &&& h.spec_refresh_cycles() == cycles
            },
            r matches Err(e) ==> e == Error::ConfigurationRange,
    ;
}

impl OctospiExt for OctospiRegisters {
    open spec fn regs_model(self) -> OctospiRegisters {
        self
    }

    fn octospi_unchecked(self, config: SpiConfig, kernel_clock_hz: u32) -> (r: Result<
        Octospi,
        Error,
    >) {
        Octospi::configure(self, config, kernel_clock_hz)
    }

    fn octospi_hyperbus_unchecked(self, config: HyperbusConfig, kernel_clock_hz: u32) -> (r:
        Result<Hyperbus, Error>) {
        Hyperbus::configure(self, config, kernel_clock_hz)
    }
}

/// Marker for pins that can drive the clock signal of a controller.
pub trait PinClk<OSPI> {

}

/// Marker for pins that can drive the inverted clock signal.
pub trait PinNclk<OSPI> {

}

/// Marker for pins that can carry the data strobe signal.
pub trait PinDQS<OSPI> {

}

/// Marker for pins that can drive the chip-select signal.
pub trait PinNCS<OSPI> {

}

/// Marker for pins that can carry data line 0.
pub trait PinIo0<OSPI> {

}

/// Marker for pins that can carry data line 1.
pub trait PinIo1<OSPI> {

}

/// Marker for pins that can carry data line 2.
pub trait PinIo2<OSPI> {

}

/// Marker for pins that can carry data line 3.
pub trait PinIo3<OSPI> {

}

/// Marker for pins that can carry data line 4.
pub trait PinIo4<OSPI> {

}

/// Marker for pins that can carry data line 5.
pub trait PinIo5<OSPI> {

}

/// Marker for pins that can carry data line 6.
pub trait PinIo6<OSPI> {

}

/// Marker for pins that can carry data line 7.
pub trait PinIo7<OSPI> {

}

} // verus!
