//! Driver logic for the LIS2MDL three-axis magnetometer.
//!
//! The driver talks to the sensor through a two-wire bus capability and a
//! delay capability (see [`bus`]); it sequences the configuration writes,
//! decodes raw field samples, and maintains a running hard-iron calibration
//! from which a compass heading vector is derived.

use vstd::prelude::*;

mod address;
mod bus;
mod calib;
mod convert;
mod driver;

pub use address::Address;
pub use address::DEFAULT_DEVICE_ID;
pub use bus::Bus;
pub use bus::BusEvent;
pub use bus::Delay;
pub use calib::axis_wf;
pub use calib::hi_after;
pub use calib::lemma_axis_wf_update;
pub use calib::lemma_calibration_converges;
pub use calib::lemma_calibration_monotone;
pub use calib::lemma_calibration_monotone_seq;
pub use calib::lemma_first_observation;
pub use calib::lo_after;
pub use calib::upd_hi;
pub use calib::upd_lo;
pub use convert::centi_ut;
pub use convert::i16_from_le;
pub use convert::i16_le;
pub use convert::lemma_centi_ut_bounds;
pub use convert::CENTI_UT_MAX;
pub use convert::CENTI_UT_MIN;
pub use convert::CENTI_UT_PER_LSB;
pub use driver::start_delays;
pub use driver::start_writes;
pub use driver::Error;
pub use driver::Lis2mdl;
pub use driver::LIS2MDL_OUTX_L_REG;
pub use driver::LIS2MDL_WHO_AM_I_REG;

verus! {

/// Configuration register A: output data rate and measurement mode.
pub const LIS2MDL_CFG_REG_A: u8 = 0x60;

/// Configuration register B: offset cancellation and filtering.
pub const LIS2MDL_CFG_REG_B: u8 = 0x61;

/// Configuration register C: interface options (auto-increment, block update).
pub const LIS2MDL_CFG_REG_C: u8 = 0x62;

} // verus!
