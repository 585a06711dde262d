//! The integer stage of the physical-unit conversions, and the laws that
//! hold of the decoding pipeline.
//!
//! Temperature in Celsius is `ticks * 0.05 - 50.0` where `ticks` is the
//! integer computed here from the raw word. Pressure in bar is
//! `(numerator / 65536) * (max - min) + min + offset`, where `numerator`
//! is the integer computed here (so that `numerator / 65536` equals
//! `raw / 32768 - 0.5` exactly) and `offset` is the mode offset. The
//! floating-point evaluation of those two affine maps is the consumer's
//! step; everything up to it is verified.

use vstd::prelude::*;

use crate::decode::Measurement;
use crate::decode::PressureMode;
use crate::decode::spec_measurement;
use crate::decode::spec_status;
use crate::decode::STATUS_BUSY_MASK;
use crate::decode::STATUS_CHECKSUM_MASK;
use crate::decode::STATUS_MODE_MASK;
use crate::error::KellerLDError;

verus! {

/// The integer stage of the temperature conversion: the raw word shifted
/// right four bits, then lowered by 24, as the device documents it.
pub open spec fn spec_temperature_ticks(raw: u16) -> int {
    (raw >> 4) - 24
}

/// The integer stage of the pressure conversion: `2 * raw - 32768`, so
/// that dividing by 65536 gives `raw / 32768 - 0.5` exactly.
pub open spec fn spec_pressure_fraction_numerator(raw: u16) -> int {
    2 * raw - 32768
}

/// Compute the integer stage of the temperature conversion. The shift and
/// the subtraction of 24 happen on the raw word before any floating-point
/// arithmetic; Celsius is `ticks * 0.05 - 50.0`.
pub fn temperature_ticks(raw_temperature: u16) -> (r: i32)
    ensures
        r == spec_temperature_ticks(raw_temperature),
        -24 <= r <= 4071,
{
    proof {
        assert(raw_temperature >> 4 <= 4095) by (bit_vector);
    }
    (raw_temperature >> 4) as i32 - 24
}

/// Compute the integer stage of the pressure conversion. Dividing the
/// result by 65536 gives the centred fraction `raw / 32768 - 0.5` of the
/// calibrated span exactly.
pub fn pressure_fraction_numerator(raw_pressure: u16) -> (r: i32)
    ensures
        r == spec_pressure_fraction_numerator(raw_pressure),
        -32768 <= r <= 98302,
{
    2 * (raw_pressure as i32) - 32768
}

impl PressureMode {
    /// The mode offset added to the decoded pressure, in hundred-
    /// thousandths of a bar: atmospheric pressure for a vented zero, one
    /// bar for a sealed zero, nothing for an absolute zero.
    pub fn offset(self) -> (r: u32)
        ensures
            self is Vented ==> r == crate::ATMOSPHERIC_PRESSURE_SCALED,
            self is Absolute ==> r == 0,
            self is Sealed ==> r == 100000,
    {
        match self {
            PressureMode::Vented => crate::ATMOSPHERIC_PRESSURE_SCALED,
            PressureMode::Absolute => 0,
            PressureMode::Sealed => 100000,
        }
    }
}

/// The temperature stage is monotonic: a raw temperature word no smaller
/// than another never yields smaller ticks, so the Celsius value, an
/// increasing affine map of the ticks, never decreases either. The ticks
/// depend on the raw word alone, never on the calibration state.
pub proof fn lemma_temperature_ticks_monotonic(t1: u16, t2: u16)
    requires
        t1 <= t2,
    ensures
        spec_temperature_ticks(t1) <= spec_temperature_ticks(t2),
{
    assert(t1 >> 4 <= t2 >> 4) by (bit_vector)
        requires
            t1 <= t2,
    ;
}

/// The pressure stage is monotonic in the raw word: the centred fraction
/// numerator never decreases, so the decoded pressure, an increasing
/// affine map of it whenever the calibrated maximum exceeds the minimum,
/// never decreases either.
pub proof fn lemma_pressure_fraction_monotonic(r1: u16, r2: u16)
    requires
        r1 <= r2,
    ensures
        spec_pressure_fraction_numerator(r1) <= spec_pressure_fraction_numerator(r2),
{
}

/// The centred fraction is zero exactly at raw word 16384 (a quarter of
/// the span), where the decoded pressure is the calibrated minimum plus
/// the mode offset.
pub proof fn lemma_pressure_fraction_zero_point(raw: u16)
    ensures
        spec_pressure_fraction_numerator(raw) == 0 <==> raw == 16384,
{
}

/// The raw temperature word a frame decodes to does not depend on the
/// calibration state: two decodes of the same frame that both succeed,
/// under whatever calibrations, carry the same raw temperature, and the
/// ticks computed from it depend on that word alone.
pub proof fn lemma_temperature_independent_of_calibration(
    frame: Seq<u8>,
    mode_a: Option<PressureMode>,
    min_a: Option<u32>,
    max_a: Option<u32>,
    mode_b: Option<PressureMode>,
    min_b: Option<u32>,
    max_b: Option<u32>,
)
    requires
        frame.len() == 5,
        spec_measurement(frame, mode_a, min_a, max_a) is Ok,
        spec_measurement(frame, mode_b, min_b, max_b) is Ok,
    ensures
        spec_measurement(frame, mode_a, min_a, max_a)->Ok_0.raw_temperature == spec_measurement(
            frame,
            mode_b,
            min_b,
            max_b,
        )->Ok_0.raw_temperature,
{
}

/// A frame whose status byte has the busy bit set decodes to `Busy`
/// whatever the payload bytes and the calibration state hold: no further
/// byte is interpreted.
pub proof fn lemma_busy_ignores_payload(
    frame: Seq<u8>,
    mode: Option<PressureMode>,
    min_bits: Option<u32>,
    max_bits: Option<u32>,
)
    requires
        frame.len() == 5,
        frame[0] & STATUS_BUSY_MASK != 0,
    ensures
        spec_measurement(frame, mode, min_bits, max_bits) == Err::<Measurement, KellerLDError>(
            KellerLDError::Busy,
        ),
{
}

/// The status checks are consulted in a fixed priority order: busy first,
/// then operating mode, then the device's checksum, and only a fully clear
/// status byte passes. When several flags are set at once the earlier
/// check wins.
pub proof fn lemma_status_priority(status: u8)
    ensures
        status & STATUS_BUSY_MASK != 0 ==> spec_status(status) == Err::<(), KellerLDError>(
            KellerLDError::Busy,
        ),
        status & STATUS_BUSY_MASK == 0 && status & STATUS_MODE_MASK != 0 ==> spec_status(
            status,
        ) == Err::<(), KellerLDError>(KellerLDError::IncorrectMode),
        status & STATUS_BUSY_MASK == 0 && status & STATUS_MODE_MASK == 0 && status
            & STATUS_CHECKSUM_MASK != 0 ==> spec_status(status) == Err::<(), KellerLDError>(
            KellerLDError::ChecksumMismatch,
        ),
        status & STATUS_BUSY_MASK == 0 && status & STATUS_MODE_MASK == 0 && status
            & STATUS_CHECKSUM_MASK == 0 ==> spec_status(status) == Ok::<(), KellerLDError>(
            (),
        ),
{
}

/// A frame whose status byte is clear decodes to `Uncalibrated` whenever
/// any of the three calibration fields is missing, whatever raw words the
/// payload holds.
pub proof fn lemma_uncalibrated_rejected(
    frame: Seq<u8>,
    mode: Option<PressureMode>,
    min_bits: Option<u32>,
    max_bits: Option<u32>,
)
    requires
        frame.len() == 5,
        spec_status(frame[0]) is Ok,
        mode is None || min_bits is None || max_bits is None,
    ensures
        spec_measurement(frame, mode, min_bits, max_bits) == Err::<Measurement, KellerLDError>(
            KellerLDError::Uncalibrated,
        ),
{
}

} // verus!
