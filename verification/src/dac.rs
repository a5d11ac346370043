//! Digital-to-analog converter channels: typestate tokens over a plain
//! register model, the output-buffer calibration engine, and the lifecycle
//! state machine.
//!
//! Each converter channel is driven through a capability token that exists
//! exactly once per channel. Every operation consumes a token of a specific
//! input state and produces a token of a specific output state, so a call
//! sequence outside the hardware's legal transition graph does not compile
//! and no runtime invalid-transition error is needed.

use vstd::prelude::*;

verus! {

use crate::Error;
use core::marker::PhantomData;

/// Enabled DAC with buffered output (type state).
pub struct Enabled;

/// Enabled DAC without output buffer (type state).
pub struct EnabledUnbuffered;

/// Disabled DAC (type state).
pub struct Disabled;

/// The lifecycle states a converter channel token ranges over. The
/// transient calibrating state is internal to [`HalDisabledDac::calibrate_buffer`]
/// and never appears on a token.
#[derive(Clone, Copy, Debug, PartialEq, Eq, Structural)]
pub enum DacState {
    Disabled,
    Enabled,
    EnabledUnbuffered,
}

/// The operations that consume and produce channel tokens.
#[derive(Clone, Copy, Debug, PartialEq, Eq, Structural)]
pub enum DacOp {
    Enable,
    EnableUnbuffered,
    Disable,
    Calibrate,
}

/// The legal transition graph of a channel token: the state an operation
/// performed in state `s` produces, or `None` where the operation is not
/// available in `s`. The token types make an unavailable call fail to
/// compile, so this graph is the whole lifecycle.
pub open spec fn spec_dac_transition(s: DacState, op: DacOp) -> Option<DacState> {
    match (s, op) {
        (DacState::Disabled, DacOp::Enable) => Some(DacState::Enabled),
        (DacState::Disabled, DacOp::EnableUnbuffered) => Some(DacState::EnabledUnbuffered),
        (DacState::Disabled, DacOp::Calibrate) => Some(DacState::Disabled),
        (DacState::Enabled, DacOp::Disable) => Some(DacState::Disabled),
        (DacState::EnabledUnbuffered, DacOp::Disable) => Some(DacState::Disabled),
        _ => None,
    }
}

/// A token reaches `Enabled` or `EnabledUnbuffered` only from `Disabled`,
/// via the respective enable operation; and from either enabled state the
/// only available operation is `Disable`, which returns to `Disabled`.
pub proof fn lemma_dac_lifecycle(s: DacState, op: DacOp)
    ensures
        spec_dac_transition(s, op) == Some(DacState::Enabled) ==> s is Disabled && op is Enable,
        spec_dac_transition(s, op) == Some(DacState::EnabledUnbuffered) ==> s is Disabled
            && op is EnableUnbuffered,
        s is Enabled || s is EnabledUnbuffered ==> (spec_dac_transition(s, op) is Some <==> op
            is Disable),
        (s is Enabled || s is EnabledUnbuffered) && op is Disable ==> spec_dac_transition(s, op)
            == Some(DacState::Disabled),
{
}

/// Enabled or disabled: the states a DAC channel token can carry, each tied
/// to its place in the lifecycle graph.
pub trait ED {
    /// The lifecycle state this type state stands for.
    spec fn state() -> DacState;
}

impl ED for Enabled {
    open spec fn state() -> DacState {
        DacState::Enabled
    }
}

impl ED for EnabledUnbuffered {
    open spec fn state() -> DacState {
        DacState::EnabledUnbuffered
    }
}

impl ED for Disabled {
    open spec fn state() -> DacState {
        DacState::Disabled
    }
}

/// Widest trim value the hardware's trim field can hold: the field is five
/// bits wide, so a search past this value cannot converge and is reported
/// as a calibration failure instead of retried forever.
pub const TRIM_MAX: u8 = 31;

/// Settle time in microseconds between programming a trim value and reading
/// the calibration-complete flag.
pub const SETTLE_US: u32 = 64;

/// Plain-value model of one converter channel: the register fields this
/// driver programs, plus the one device characteristic that decides
/// calibration.
#[derive(Clone, Copy, Debug, PartialEq, Eq, Structural)]
pub struct DacChannel {
    /// Channel enable bit.
    pub en: bool,
    /// Calibration enable bit.
    pub cen: bool,
    /// Output mode field: 0 is buffered output, 2 is unbuffered output.
    pub mode: u8,
    /// Trim value programmed into the output buffer's calibration field.
    pub trim: u8,
    /// Data holding register: the programmed output value, twelve bits.
    pub dhr: u16,
    /// Data output register: the value currently converted, twelve bits.
    pub dor: u16,
    /// Device characteristic: the smallest trim value at which the output
    /// buffer's offset comparator reports convergence. The
    /// calibration-complete flag reads as set exactly when calibration is
    /// enabled and the programmed trim has reached this value. A value
    /// above [`TRIM_MAX`] describes a part whose calibration never
    /// converges.
    pub min_stable_trim: u8,
}

impl DacChannel {
    /// The calibration-complete flag, as the status register reads it after
    /// the settle time.
    pub open spec fn spec_cal_flag(self) -> bool {
        self.cen && self.trim >= self.min_stable_trim
    }

    /// Read the calibration-complete flag from the status register.
    fn read_cal_flag(&self) -> (b: bool)
        ensures
            b == self.spec_cal_flag(),
    {
        self.cen && self.trim >= self.min_stable_trim
    }
}

/// The post-reset state of a channel on a part with the given calibration
/// characteristic: everything disabled and zero.
pub open spec fn spec_reset_channel(min_stable_trim: u8) -> DacChannel {
    DacChannel { en: false, cen: false, mode: 0, trim: 0, dhr: 0, dor: 0, min_stable_trim }
}

/// The register fields a token's type state attests.
pub open spec fn spec_state_holds(ch: DacChannel, s: DacState) -> bool {
    match s {
        DacState::Disabled => !ch.en && !ch.cen,
        DacState::Enabled => ch.en && ch.mode == 0 && !ch.cen,
        DacState::EnabledUnbuffered => ch.en && ch.mode == 2 && !ch.cen,
    }
}

/// The channel state a successful calibration establishes: output and
/// calibration disabled, buffered mode forced, and the trim field holding
/// the smallest converging value. The programmed output value is untouched.
pub open spec fn spec_calibrated(ch: DacChannel) -> DacChannel {
    DacChannel { en: false, cen: false, mode: 0, trim: ch.min_stable_trim, ..ch }
}

/// Calibration is idempotent in effect: a second calibration of an already
/// calibrated channel leaves it exactly where the first did.
pub proof fn lemma_calibrate_idempotent(ch: DacChannel)
    ensures
        spec_calibrated(spec_calibrated(ch)) == spec_calibrated(ch),
{
}

/// The blocking microsecond-delay collaborator, modelled as a counter of
/// the microseconds spent waiting. The engine only requires that the
/// calling path blocks for the stated time; a deployment backs this with a
/// spin loop or a hardware timer.
pub struct Delay {
    /// Total microseconds spent waiting.
    pub elapsed_us: u64,
}

impl Delay {
    /// A delay provider that has not waited yet.
    pub fn new() -> (d: Self)
        ensures
            d.elapsed_us == 0,
    {
        Delay { elapsed_us: 0 }
    }

    /// Block for `us` microseconds.
    pub fn delay_us(&mut self, us: u32)
        requires
            old(self).elapsed_us + us <= u64::MAX,
        ensures
            final(self).elapsed_us == old(self).elapsed_us + us,
    {
        self.elapsed_us = self.elapsed_us + (us as u64);
    }
}

/// The calibration engine, shared by both channel types: disable the
/// output, force buffered mode, enable calibration, then search trim values
/// upward from zero, programming each, settling, and polling the
/// calibration-complete flag; stop at the first value that converges. The
/// search is bounded by the width of the trim field; a part that never
/// converges is reported instead of polled forever.
fn channel_calibrate(ch: &mut DacChannel, delay: &mut Delay) -> (r: Result<u8, Error>)
    requires
        old(delay).elapsed_us + (SETTLE_US as int) * (TRIM_MAX as int + 1) <= u64::MAX,
    ensures
        old(ch).min_stable_trim <= TRIM_MAX ==> {
            &&& r == Ok::<u8, Error>(old(ch).min_stable_trim)
            &&& *final(ch) == spec_calibrated(*old(ch))
            &&& final(delay).elapsed_us == old(delay).elapsed_us + (SETTLE_US as int) * (old(
                ch,
            ).min_stable_trim + 1)
        },
        old(ch).min_stable_trim > TRIM_MAX ==> {
            &&& r == Err::<u8, Error>(Error::CalibrationTimeout)
            &&& *final(ch) == (DacChannel { en: false, cen: false, mode: 0, trim: TRIM_MAX, ..*old(
                ch,
            ) })
            &&& final(delay).elapsed_us == old(delay).elapsed_us + (SETTLE_US as int) * (
            TRIM_MAX as int + 1)
        },
{
    let ghost ch0 = *ch;
    let ghost delay0 = *delay;
    ch.en = false;
    ch.mode = 0;
    ch.cen = true;
    let mut trim: u8 = 0;
    while trim <= TRIM_MAX
        invariant
            ch0 == *old(ch),
            delay0 == *old(delay),
            !ch.en,
            ch.cen,
            ch.mode == 0,
            ch.dhr == ch0.dhr,
            ch.dor == ch0.dor,
            ch.min_stable_trim == ch0.min_stable_trim,
            trim <= TRIM_MAX + 1,
            ch0.min_stable_trim >= trim,
            trim > 0 ==> ch.trim == trim - 1,
            delay.elapsed_us == delay0.elapsed_us + (SETTLE_US as int) * trim,
            delay0.elapsed_us + (SETTLE_US as int) * (TRIM_MAX as int + 1) <= u64::MAX,
        decreases TRIM_MAX + 1 - trim,
    {
        ch.trim = trim;
        delay.delay_us(SETTLE_US);
        if ch.read_cal_flag() {
            ch.cen = false;
            return Ok(trim);
        }
        trim = trim + 1;
    }
    ch.cen = false;
    Err(Error::CalibrationTimeout)
}

/// Interface of a converter channel token, in any lifecycle state.
///
/// Programming and reading the output value is permitted in every state:
/// the hardware accepts writes to the holding register regardless of enable
/// status, and only the analog output is gated by the enable state. In this
/// model the converted value follows the programmed one immediately.
pub trait HalDac: Sized {
    /// Token type of this channel in the enabled, buffered state.
    type Enabled;

    /// Token type of this channel in the enabled, unbuffered state.
    type EnabledUnbuffered;

    /// Token type of this channel in the disabled state.
    type Disabled;

    /// The channel's register model.
    spec fn channel_model(self) -> DacChannel;

    /// The register fields this token's type state attests.
    spec fn wf(self) -> bool;

    /// Program the output value; the holding and output registers are
    /// twelve bits wide.
    fn set_value(&mut self, val: u16)
        ensures
            final(self).channel_model() == (DacChannel {
                dhr: val & 0x0FFF,
                dor: val & 0x0FFF,
                ..old(self).channel_model()
            }),
            old(self).wf() ==> final(self).wf(),
    ;

    /// Read back the value currently converted.
    fn get_value(&mut self) -> (v: u16)
        ensures
            v == old(self).channel_model().dor,
            *final(self) == *old(self),
    ;
}

/// Operations of a channel token in the disabled state.
pub trait HalDisabledDac: HalDac<Disabled = Self> where
    Self::Enabled: HalDac,
    Self::EnabledUnbuffered: HalDac,
{
    /// Enable the channel with its output buffer.
    fn enable(self) -> (e: Self::Enabled)
        requires
            self.wf(),
        ensures
            e.wf(),
            e.channel_model() == (DacChannel { en: true, mode: 0, ..self.channel_model() }),
    ;

    /// Enable the channel without its output buffer.
    fn enable_unbuffered(self) -> (e: Self::EnabledUnbuffered)
        requires
            self.wf(),
        ensures
            e.wf(),
            e.channel_model() == (DacChannel { en: true, mode: 2, ..self.channel_model() }),
    ;

    /// Calibrate the DAC output buffer by performing a user-trimming
    /// operation: useful when the supply or reference voltage or the
    /// temperature differ from the factory trimming conditions. The
    /// calibration is only valid when the channel operates with the buffer
    /// enabled; in other modes it has no effect. The channel is disabled
    /// afterwards, whether the search converged (the trim found is
    /// returned) or ran out of trim values (reported instead of polling
    /// forever).
    fn calibrate_buffer(self, delay: &mut Delay) -> (r: (Self, Result<u8, Error>))
        requires
            self.wf(),
            old(delay).elapsed_us + (SETTLE_US as int) * (TRIM_MAX as int + 1) <= u64::MAX,
        ensures
            r.0.wf(),
            self.channel_model().min_stable_trim <= TRIM_MAX ==> {
                &&& r.1 == Ok::<u8, Error>(self.channel_model().min_stable_trim)
                &&& r.0.channel_model() == spec_calibrated(self.channel_model())
                &&& final(delay).elapsed_us == old(delay).elapsed_us + (SETTLE_US as int) * (
                self.channel_model().min_stable_trim + 1)
            },
            self.channel_model().min_stable_trim > TRIM_MAX ==> {
                &&& r.1 == Err::<u8, Error>(Error::CalibrationTimeout)
                &&& r.0.channel_model() == (DacChannel {
                    en: false,
                    cen: false,
                    mode: 0,
                    trim: TRIM_MAX,
                    ..self.channel_model()
                })
                &&& final(delay).elapsed_us == old(delay).elapsed_us + (SETTLE_US as int) * (
                TRIM_MAX as int + 1)
            },
    ;
}

/// Operations of a channel token in the enabled, buffered state.
pub trait HalEnabledDac: HalDac<Enabled = Self> where Self::Disabled: HalDac {
    /// Disable the channel.
    fn disable(self) -> (d: Self::Disabled)
        requires
            self.wf(),
        ensures
            d.wf(),
            d.channel_model() == (DacChannel { en: false, ..self.channel_model() }),
    ;
}

/// Operations of a channel token in the enabled, unbuffered state.
pub trait HalEnabledUnbufferedDac: HalDac<EnabledUnbuffered = Self> where Self::Disabled: HalDac {
    /// Disable the channel.
    fn disable(self) -> (d: Self::Disabled)
        requires
            self.wf(),
        ensures
            d.wf(),
            d.channel_model() == (DacChannel { en: false, ..self.channel_model() }),
    ;
}

/// Token for the first converter channel, in lifecycle state `S`.
pub struct C1<S> {
    ch: DacChannel,
    _state: PhantomData<S>,
}

/// Token for the second converter channel, in lifecycle state `S`.
pub struct C2<S> {
    ch: DacChannel,
    _state: PhantomData<S>,
}

impl<S: ED> HalDac for C1<S> {
    type Enabled = C1<Enabled>;

    type EnabledUnbuffered = C1<EnabledUnbuffered>;

    type Disabled = C1<Disabled>;

    closed spec fn channel_model(self) -> DacChannel {
        self.ch
    }

    closed spec fn wf(self) -> bool {
        spec_state_holds(self.ch, S::state())
    }

    fn set_value(&mut self, val: u16) {
        self.ch.dhr = val & 0x0FFF;
        self.ch.dor = val & 0x0FFF;
    }

    fn get_value(&mut self) -> (v: u16) {
        self.ch.dor
    }
}

impl<S: ED> C1<S> {
    /// Read back the channel's register model.
    pub fn read_channel(&self) -> (c: DacChannel)
        ensures
            c == self.channel_model(),
    {
        self.ch
    }
}

impl<S: ED> C2<S> {
    /// Read back the channel's register model.
    pub fn read_channel(&self) -> (c: DacChannel)
        ensures
            c == self.channel_model(),
    {
        self.ch
    }
}

impl C1<Disabled> {
    /// Claim the first converter channel, fresh from its disabled reset
    /// state, on a part with the given calibration characteristic.
    pub fn new(min_stable_trim: u8) -> (c: Self)
        ensures
            c.channel_model() == spec_reset_channel(min_stable_trim),
            c.wf(),
    {
        C1 { ch: reset_channel(min_stable_trim), _state: PhantomData }
    }
}

impl HalDisabledDac for C1<Disabled> {
    fn enable(self) -> (e: C1<Enabled>) {
        let mut ch = self.ch;
        ch.mode = 0;
        ch.en = true;
        C1 { ch, _state: PhantomData }
    }

    fn enable_unbuffered(self) -> (e: C1<EnabledUnbuffered>) {
        let mut ch = self.ch;
        ch.mode = 2;
        ch.en = true;
        C1 { ch, _state: PhantomData }
    }

    fn calibrate_buffer(self, delay: &mut Delay) -> (r: (Self, Result<u8, Error>)) {
        let mut ch = self.ch;
        let outcome = channel_calibrate(&mut ch, delay);
        (C1 { ch, _state: PhantomData }, outcome)
    }
}

impl HalEnabledDac for C1<Enabled> {
    fn disable(self) -> (d: C1<Disabled>) {
        let mut ch = self.ch;
        ch.en = false;
        C1 { ch, _state: PhantomData }
    }
}

impl HalEnabledUnbufferedDac for C1<EnabledUnbuffered> {
    fn disable(self) -> (d: C1<Disabled>) {
        let mut ch = self.ch;
        ch.en = false;
        C1 { ch, _state: PhantomData }
    }
}

impl<S: ED> HalDac for C2<S> {
    type Enabled = C2<Enabled>;

    type EnabledUnbuffered = C2<EnabledUnbuffered>;

    type Disabled = C2<Disabled>;

    closed spec fn channel_model(self) -> DacChannel {
        self.ch
    }

    closed spec fn wf(self) -> bool {
        spec_state_holds(self.ch, S::state())
    }

    fn set_value(&mut self, val: u16) {
        self.ch.dhr = val & 0x0FFF;
        self.ch.dor = val & 0x0FFF;
    }

    fn get_value(&mut self) -> (v: u16) {
        self.ch.dor
    }
}

impl C2<Disabled> {
    /// Claim the second converter channel, fresh from its disabled reset
    /// state, on a part with the given calibration characteristic.
    pub fn new(min_stable_trim: u8) -> (c: Self)
        ensures
            c.channel_model() == spec_reset_channel(min_stable_trim),
            c.wf(),
    {
        C2 { ch: reset_channel(min_stable_trim), _state: PhantomData }
    }
}

impl HalDisabledDac for C2<Disabled> {
    fn enable(self) -> (e: C2<Enabled>) {
        let mut ch = self.ch;
        ch.mode = 0;
        ch.en = true;
        C2 { ch, _state: PhantomData }
    }

    fn enable_unbuffered(self) -> (e: C2<EnabledUnbuffered>) {
        let mut ch = self.ch;
        ch.mode = 2;
        ch.en = true;
        C2 { ch, _state: PhantomData }
    }

    fn calibrate_buffer(self, delay: &mut Delay) -> (r: (Self, Result<u8, Error>)) {
        let mut ch = self.ch;
        let outcome = channel_calibrate(&mut ch, delay);
        (C2 { ch, _state: PhantomData }, outcome)
    }
}

impl HalEnabledDac for C2<Enabled> {
    fn disable(self) -> (d: C2<Disabled>) {
        let mut ch = self.ch;
        ch.en = false;
        C2 { ch, _state: PhantomData }
    }
}

impl HalEnabledUnbufferedDac for C2<EnabledUnbuffered> {
    fn disable(self) -> (d: C2<Disabled>) {
        let mut ch = self.ch;
        ch.en = false;
        C2 { ch, _state: PhantomData }
    }
}

/// The post-reset channel state, as a value.
fn reset_channel(min_stable_trim: u8) -> (ch: DacChannel)
    ensures
        ch == spec_reset_channel(min_stable_trim),
{
    DacChannel { en: false, cen: false, mode: 0, trim: 0, dhr: 0, dor: 0, min_stable_trim }
}

/// Trait for GPIO pins that can be converted to DAC output pins.
pub trait Pins<DAC> {
    /// The channel token, or pair of tokens, this pin set yields.
    type Output;
}

/// Extension trait for claiming the converter from the platform's
/// peripheral and pin singletons. The platform layer that owns the concrete
/// device and pin types implements this; the tokens it hands out start in
/// the disabled reset state.
pub trait DacExt: Sized {
    /// Claim the converter channels that the given pins select.
    fn dac<PINS: Pins<Self>>(self, pins: PINS) -> PINS::Output;
}

} // verus!

