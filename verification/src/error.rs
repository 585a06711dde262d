//! Error taxonomy of the driver: transport failures are wrapped with their
//! bus-level classification preserved; protocol failures carry their own
//! variant.

use vstd::prelude::*;

verus! {

/// Which part of a bus exchange went unacknowledged.
#[derive(Debug, Clone, Copy, PartialEq, Eq, Structural)]
pub enum NoAcknowledgeSource {
    /// The device did not acknowledge its address.
    Address,
    /// The device did not acknowledge a data byte.
    Data,
    /// The transport could not tell which of the two it was.
    Unknown,
}

/// Classification of a transport-level failure, mirroring the categories a
/// two-wire bus implementation reports.
#[derive(Debug, Clone, Copy, PartialEq, Eq, Structural)]
pub enum BusErrorKind {
    /// A start or stop condition appeared where none was expected.
    Bus,
    /// Arbitration for the bus was lost.
    ArbitrationLoss,
    /// An address or data byte was not acknowledged.
    NoAcknowledge(NoAcknowledgeSource),
    /// The peripheral receive buffer was overrun.
    Overrun,
    /// Any other transport failure.
    Other,
}

/// Everything a driver operation can fail with.
#[derive(Debug, Clone, Copy, PartialEq, Eq, Structural)]
pub enum KellerLDError {
    /// A register field decoded to a reserved enumeration value.
    UnexpectedValue,
    /// The bus transaction itself failed; the transport's own
    /// classification is preserved for diagnostics.
    Bus(BusErrorKind),
    /// A pressure conversion was attempted before the calibration
    /// (mode, minimum and maximum pressure) was fully fetched.
    Uncalibrated,
    /// The device reports that the measurement is not ready yet.
    Busy,
    /// The device is not in its normal measurement mode.
    IncorrectMode,
    /// The device's self-reported integrity check failed on the frame.
    ChecksumMismatch,
}

} // verus!
