//! Bit-level decoding of the transducer's response frames: the scaling_0
//! register (pressure mode and calibration date), the calibration-range
//! registers, the measurement frame's status byte and its raw pressure and
//! temperature words.

use vstd::prelude::*;

use crate::error::KellerLDError;

verus! {

/// Status-byte bit: the measurement is not ready yet.
pub const STATUS_BUSY_MASK: u8 = 0x20;

/// Status-byte bits: the device is not in its normal operating mode.
pub const STATUS_MODE_MASK: u8 = 0x18;

/// Status-byte bit: the device's own integrity check failed.
pub const STATUS_CHECKSUM_MASK: u8 = 0x04;

/// Zero-reference convention the transducer reports pressure in.
#[derive(Debug, Copy, Clone, Eq, PartialEq, Structural)]
pub enum PressureMode {
    /// Zero at atmospheric pressure.
    Vented,
    /// Zero at 1.0 bar.
    Sealed,
    /// Zero at vacuum.
    Absolute,
}

/// Calibration date encoded in the scaling_0 register.
#[derive(Debug, Copy, Clone, Eq, PartialEq, Structural)]
pub struct Date {
    pub year: u16,
    pub month: u8,
    pub day: u8,
}

/// One decoded measurement frame: the raw register words together with the
/// calibration under which they were read. The consumer applies the
/// documented linear formulas to these integers to obtain physical units.
#[derive(Debug, Copy, Clone, Eq, PartialEq, Structural)]
pub struct Measurement {
    /// Raw pressure word, big-endian bytes 1-2 of the frame.
    pub raw_pressure: u16,
    /// Raw temperature word, big-endian bytes 3-4 of the frame.
    pub raw_temperature: u16,
    /// Pressure mode the driver was calibrated with.
    pub pressure_mode: PressureMode,
    /// Bit pattern of the minimum-pressure calibration value (bar).
    pub min_pressure_bits: u32,
    /// Bit pattern of the maximum-pressure calibration value (bar).
    pub max_pressure_bits: u32,
}

/// The big-endian 16-bit word formed by two response bytes.
pub open spec fn spec_be_u16(hi: u8, lo: u8) -> u16 {
    ((hi as u16) << 8) | (lo as u16)
}

/// The big-endian 32-bit word formed by four response bytes.
pub open spec fn spec_be_u32(b0: u8, b1: u8, b2: u8, b3: u8) -> u32 {
    ((b0 as u32) << 24) | ((b1 as u32) << 16) | ((b2 as u32) << 8) | (b3 as u32)
}

/// Assemble the big-endian 16-bit register carried in two response bytes.
pub fn be_u16(hi: u8, lo: u8) -> (r: u16)
    ensures
        r == spec_be_u16(hi, lo),
        r == hi * 256 + lo,
{
    proof {
        assert(((hi as u16) << 8) | (lo as u16) == hi * 256 + lo) by (bit_vector);
    }
    ((hi as u16) << 8) | (lo as u16)
}

/// Assemble the big-endian 32-bit register carried in four response bytes,
/// high half first, as the calibration-range reads deliver it.
pub fn be_u32(b0: u8, b1: u8, b2: u8, b3: u8) -> (r: u32)
    ensures
        r == spec_be_u32(b0, b1, b2, b3),
        r == ((b0 * 256 + b1) * 256 + b2) * 256 + b3,
{
    proof {
        assert(((b0 as u32) << 24) | ((b1 as u32) << 16) | ((b2 as u32) << 8) | (b3 as u32)
            == ((b0 * 256 + b1) * 256 + b2) * 256 + b3) by (bit_vector);
    }
    ((b0 as u32) << 24) | ((b1 as u32) << 16) | ((b2 as u32) << 8) | (b3 as u32)
}

/// The pressure mode encoded in the low two bits of scaling_0; reserved
/// encoding 3 has no mode, so this is only meaningful when `s & 3 < 3`.
pub open spec fn spec_pressure_mode(s: u16) -> PressureMode {
    if s & 3 == 0 {
        PressureMode::Vented
    } else if s & 3 == 1 {
        PressureMode::Sealed
    } else {
        PressureMode::Absolute
    }
}

/// Calibration year encoded in the top five bits of scaling_0.
pub open spec fn spec_year(s: u16) -> int {
    2010 + (s >> 11)
}

/// Calibration month encoded in bits 7-10 of scaling_0.
pub open spec fn spec_month(s: u16) -> int {
    ((s & 0x780) >> 7) as int
}

/// Calibration day encoded in bits 2-6 of scaling_0.
pub open spec fn spec_day(s: u16) -> int {
    ((s & 0x7c) >> 2) as int
}

/// The scaling_0 register `s` decodes to exactly this mode and date.
pub open spec fn scaling_decodes_to(s: u16, mode: PressureMode, date: Date) -> bool {
    &&& s & 3 < 3
    &&& mode == spec_pressure_mode(s)
    &&& date.year == spec_year(s)
    &&& date.month == spec_month(s)
    &&& date.day == spec_day(s)
}

/// Decode the pressure mode from the low two bits of the scaling_0
/// register. The reserved encoding 3 is a protocol error, never a silent
/// default.
pub fn decode_pressure_mode(scaling_0: u16) -> (r: Result<PressureMode, KellerLDError>)
    ensures
        scaling_0 & 3 < 3 <==> r is Ok,
        r matches Ok(m) ==> m == spec_pressure_mode(scaling_0),
        r matches Err(e) ==> e == KellerLDError::UnexpectedValue,
{
    let bits = scaling_0 & 3;
    proof {
        assert(scaling_0 & 3 < 4) by (bit_vector);
    }
    if bits == 0 {
        Ok(PressureMode::Vented)
    } else if bits == 1 {
        Ok(PressureMode::Sealed)
    } else if bits == 2 {
        Ok(PressureMode::Absolute)
    } else {
        Err(KellerLDError::UnexpectedValue)
    }
}

/// Decode the calibration date packed in the scaling_0 register: five bits
/// of year offset from 2010, four bits of month, five bits of day.
pub fn decode_date(scaling_0: u16) -> (r: Date)
    ensures
        r.year == spec_year(scaling_0),
        r.month == spec_month(scaling_0),
        r.day == spec_day(scaling_0),
        2010 <= r.year <= 2041,
        r.month <= 15,
        r.day <= 31,
{
    proof {
        assert(scaling_0 >> 11 <= 31) by (bit_vector);
        assert((scaling_0 & 0x780) >> 7 <= 15) by (bit_vector);
        assert((scaling_0 & 0x7c) >> 2 <= 31) by (bit_vector);
    }
    let year: u16 = 2010 + (scaling_0 >> 11);
    let month: u8 = ((scaling_0 & 0x780) >> 7) as u8;
    let day: u8 = ((scaling_0 & 0x7c) >> 2) as u8;
    Date { year, month, day }
}

/// What the status byte of a measurement frame reports, in the order the
/// device's flags are consulted: busy first, then operating mode, then the
/// device's own checksum.
pub open spec fn spec_status(status: u8) -> Result<(), KellerLDError> {
    if status & STATUS_BUSY_MASK != 0 {
        Err(KellerLDError::Busy)
    } else if status & STATUS_MODE_MASK != 0 {
        Err(KellerLDError::IncorrectMode)
    } else if status & STATUS_CHECKSUM_MASK != 0 {
        Err(KellerLDError::ChecksumMismatch)
    } else {
        Ok(())
    }
}

/// Check the status byte of a measurement frame.
pub fn check_status(status: u8) -> (r: Result<(), KellerLDError>)
    ensures
        r == spec_status(status),
{
    if status & STATUS_BUSY_MASK != 0 {
        Err(KellerLDError::Busy)
    } else if status & STATUS_MODE_MASK != 0 {
        Err(KellerLDError::IncorrectMode)
    } else if status & STATUS_CHECKSUM_MASK != 0 {
        Err(KellerLDError::ChecksumMismatch)
    } else {
        Ok(())
    }
}

/// What decoding a 5-byte measurement frame yields under the given
/// calibration state: a status-byte error, `Uncalibrated` when any
/// calibration field is missing, or the decoded measurement.
pub open spec fn spec_measurement(
    frame: Seq<u8>,
    mode: Option<PressureMode>,
    min_bits: Option<u32>,
    max_bits: Option<u32>,
) -> Result<Measurement, KellerLDError>
    recommends
        frame.len() == 5,
{
    if spec_status(frame[0]) is Err {
        Err(spec_status(frame[0])->Err_0)
    } else if !(mode is Some && min_bits is Some && max_bits is Some) {
        Err(KellerLDError::Uncalibrated)
    } else {
        Ok(Measurement {
            raw_pressure: spec_be_u16(frame[1], frame[2]),
            raw_temperature: spec_be_u16(frame[3], frame[4]),
            pressure_mode: mode->0,
            min_pressure_bits: min_bits->0,
            max_pressure_bits: max_bits->0,
        })
    }
}

/// Decode a 5-byte measurement frame under the given calibration state.
/// The status byte is interpreted first; only when all three of its checks
/// pass are the remaining bytes read, and only under a complete calibration
/// is a measurement produced.
pub fn measurement_from_frame(
    frame: &Vec<u8>,
    mode: Option<PressureMode>,
    min_bits: Option<u32>,
    max_bits: Option<u32>,
) -> (r: Result<Measurement, KellerLDError>)
    requires
        frame@.len() == 5,
    ensures
        r == spec_measurement(frame@, mode, min_bits, max_bits),
{
    match check_status(frame[0]) {
        Err(e) => Err(e),
        Ok(()) => {
            match (mode, min_bits, max_bits) {
                (Some(m), Some(min), Some(max)) => Ok(Measurement {
                    raw_pressure: be_u16(frame[1], frame[2]),
                    raw_temperature: be_u16(frame[3], frame[4]),
                    pressure_mode: m,
                    min_pressure_bits: min,
                    max_pressure_bits: max,
                }),
                _ => Err(KellerLDError::Uncalibrated),
            }
        }
    }
}

} // verus!
