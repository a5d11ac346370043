//! Drivers for two classes of on-chip peripheral controllers, modelled over
//! plain register state: a multi-channel voltage-output converter ("DAC")
//! with a self-calibration procedure, and an external memory-bus controller
//! ("OCTOSPI") that can expose an off-chip Hyperbus memory device as a
//! directly addressable range.
//!
//! The hardware register blocks are modelled as structs of plain values, so
//! that the three hard parts of such a driver can be stated and proved:
//!
//! - the timing-parameter solver ([`timing`]), which converts frequency and
//!   refresh requirements into integer register fields;
//! - the calibration engine ([`dac`]), a bounded trim search;
//! - the lifecycle state machine and register-programming sequencers, which
//!   only permit call sequences matching the hardware's legal transition
//!   graph and establish an exact register state at each step.

use vstd::prelude::*;

pub mod dac;
pub mod timing;
pub mod xspi;

verus! {

/// Failures reported by this subsystem.
///
/// An invalid lifecycle transition is not represented here: the token types
/// make such a call impossible to write, so no runtime error is needed.
#[derive(Clone, Copy, Debug, PartialEq, Eq, Structural)]
pub enum Error {
    /// A requested timing parameter cannot be represented by the hardware
    /// register field (the divisor field holds 1..=256; the refresh field is
    /// 32 bits wide).
    ConfigurationRange,
    /// The calibration trim search exhausted the hardware's trim range
    /// without the calibration-complete flag asserting.
    CalibrationTimeout,
}

} // verus!
