//! Driver for a Keller LD pressure/temperature transducer on a two-wire bus.
//!
//! The driver issues fixed command bytes, waits a settle delay, reads
//! fixed-size response frames, and decodes them into raw register values
//! together with the calibration state needed to turn them into physical
//! units. All bit-level decoding is verified; the final floating-point
//! formula evaluation is left to the consumer, which receives every decoded
//! integer it needs.

use vstd::prelude::*;

mod convert;
mod decode;
mod driver;
mod error;
mod replay;

pub use driver::Bus;
pub use driver::BusEvent;
pub use driver::Delay;
pub use driver::KellerLD;
pub use driver::calibration_fetch_faulted;
pub use driver::calibration_fetch_recorded;
pub use driver::exchange;
pub use driver::faulted_exchange;
pub use driver::measurement_fetch_recorded;
pub use driver::range_fetch_faulted;
pub use driver::range_fetch_recorded;
pub use driver::reserved_mode_rejected;
pub use driver::scaling_fetch_recorded;
pub use replay::NoopDelay;
pub use replay::ReplayBus;
pub use replay::Transaction;

pub use convert::lemma_busy_ignores_payload;
pub use convert::lemma_pressure_fraction_monotonic;
pub use convert::lemma_pressure_fraction_zero_point;
pub use convert::lemma_status_priority;
pub use convert::lemma_temperature_independent_of_calibration;
pub use convert::lemma_temperature_ticks_monotonic;
pub use convert::lemma_uncalibrated_rejected;
pub use convert::pressure_fraction_numerator;
pub use convert::spec_pressure_fraction_numerator;
pub use convert::spec_temperature_ticks;
pub use convert::temperature_ticks;

pub use decode::Date;
pub use decode::Measurement;
pub use decode::PressureMode;
pub use decode::be_u16;
pub use decode::be_u32;
pub use decode::check_status;
pub use decode::decode_date;
pub use decode::decode_pressure_mode;
pub use decode::measurement_from_frame;
pub use decode::scaling_decodes_to;
pub use decode::spec_be_u16;
pub use decode::spec_be_u32;
pub use decode::spec_day;
pub use decode::spec_measurement;
pub use decode::spec_month;
pub use decode::spec_pressure_mode;
pub use decode::spec_status;
pub use decode::spec_year;
pub use decode::STATUS_BUSY_MASK;
pub use decode::STATUS_CHECKSUM_MASK;
pub use decode::STATUS_MODE_MASK;
pub use error::BusErrorKind;
pub use error::KellerLDError;
pub use error::NoAcknowledgeSource;

verus! {

/// Default 7-bit bus address of the transducer.
pub const DEFAULT_ADDR: u8 = 0x40;

/// Command byte: request one measurement frame (5 response bytes).
pub const REQUEST_MEASUREMENT: u8 = 0xAC;

/// Command byte: request the scaling_0 register (3 response bytes).
pub const REQUEST_PRESSURE_MODE: u8 = 0x12;

/// Command byte: request the high half of the minimum-pressure register.
pub const REQUEST_MIN_PRESSURE: u8 = 0x13;

/// Command byte: request the high half of the maximum-pressure register.
pub const REQUEST_MAX_PRESSURE: u8 = 0x15;

/// Settle delay between a command write and the response read, milliseconds.
pub const READ_DELAY: u32 = 10;

/// Atmospheric pressure, in hundred-thousandths of a bar (1.01325 bar).
pub const ATMOSPHERIC_PRESSURE_SCALED: u32 = 101325;

} // verus!
