//! Decoding raw samples and converting them to physical units.
//!
//! The sensor delivers each axis as a little-endian signed 16-bit integer.
//! One LSB is 1.5 milligauss, and 1 milligauss is 0.1 microtesla, so one LSB
//! is 0.15 microtesla. Field strength is therefore carried in hundredths of
//! a microtesla (centi-microtesla), where both factors stay exact in integer
//! arithmetic: one LSB is exactly 15 centi-microtesla.

use vstd::prelude::*;

verus! {

/// Centi-microtesla per raw LSB: 1.5 mgauss/LSB times 0.1 uT/mgauss,
/// in hundredths of a microtesla.
pub const CENTI_UT_PER_LSB: i32 = 15;

/// The least converted axis value, in centi-microtesla: `i16::MIN * 15`.
pub const CENTI_UT_MIN: i32 = -491520;

/// The greatest converted axis value, in centi-microtesla: `i16::MAX * 15`.
pub const CENTI_UT_MAX: i32 = 491505;

/// The signed 16-bit value encoded little-endian by the bytes `lo`, `hi`.
pub open spec fn i16_le(lo: u8, hi: u8) -> int {
    let v = lo + 256 * hi;
    if v < 32768 {
        v as int
    } else {
        v - 65536
    }
}

/// A raw axis reading converted to centi-microtesla.
pub open spec fn centi_ut(raw: int) -> int {
    raw * (CENTI_UT_PER_LSB as int)
}

/// A converted axis value lies between [`CENTI_UT_MIN`] and [`CENTI_UT_MAX`].
pub proof fn lemma_centi_ut_bounds(raw: int)
    requires
        i16::MIN <= raw <= i16::MAX,
    ensures
        CENTI_UT_MIN <= centi_ut(raw) <= CENTI_UT_MAX,
{
}

/// Decode the signed 16-bit value the bytes `lo`, `hi` hold little-endian.
pub fn i16_from_le(lo: u8, hi: u8) -> (r: i16)
    ensures
        r as int == i16_le(lo, hi),
{
    let v: u16 = (lo as u16) + (hi as u16) * 256;
    if v < 32768 {
        v as i16
    } else {
        let d: u32 = 65536 - (v as u32);
        -((d - 1) as i16) - 1
    }
}

} // verus!
