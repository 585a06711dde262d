//! The driver itself: it owns a bus handle, a device address and a delay
//! source, performs the fixed command/delay/response exchanges, and keeps
//! the calibration state (pressure mode, minimum and maximum pressure)
//! that measurement decoding needs.
//!
//! The bus carries a ghost transcript of everything exchanged on it, so
//! every driver contract pins the commands written, the responses the
//! results were decoded from, and the transport fault an error wraps.

use vstd::prelude::*;

use crate::decode::Date;
use crate::decode::Measurement;
use crate::decode::PressureMode;
use crate::decode::decode_date;
use crate::decode::decode_pressure_mode;
use crate::decode::be_u16;
use crate::decode::be_u32;
use crate::decode::measurement_from_frame;
use crate::decode::scaling_decodes_to;
use crate::decode::spec_be_u16;
use crate::decode::spec_be_u32;
use crate::decode::spec_measurement;
use crate::error::BusErrorKind;
use crate::error::KellerLDError;

verus! {

/// One event on the bus, as the transcript records it: a completed write
/// of these bytes to this address, a completed read returning these bytes
/// from this address, or a transport fault with the transport's own
/// classification.
pub enum BusEvent {
    /// A completed write: address and the bytes written.
    Write(u8, Seq<u8>),
    /// A completed read: address and the bytes returned.
    Read(u8, Seq<u8>),
    /// A failed operation, with the classification the transport reported.
    Fault(BusErrorKind),
}

/// A blocking two-wire bus transaction capability: write bytes to a 7-bit
/// address, read a fixed number of bytes back. Implementations bind the
/// driver to a concrete transport and account for every operation in the
/// transcript; a conforming read hands back exactly the requested number
/// of bytes or fails.
pub trait Bus {
    /// Everything that happened on this bus so far, oldest first. The
    /// default stands for transports that keep no accounting; an
    /// implementation proves the write and read contracts against its own
    /// transcript.
    open spec fn transcript(&self) -> Seq<BusEvent> {
        Seq::empty()
    }

    /// Write all of `bytes` to the device at `address`.
    fn write(&mut self, address: u8, bytes: &Vec<u8>) -> (r: Result<(), BusErrorKind>)
        ensures
            r is Ok ==> final(self).transcript() == old(self).transcript().push(
                BusEvent::Write(address, bytes@),
            ),
            r matches Err(k) ==> final(self).transcript() == old(self).transcript().push(
                BusEvent::Fault(k),
            ),
    ;

    /// Read exactly `len` bytes from the device at `address`.
    fn read(&mut self, address: u8, len: usize) -> (r: Result<Vec<u8>, BusErrorKind>)
        ensures
            r matches Ok(v) ==> v@.len() == len && final(self).transcript() == old(
                self,
            ).transcript().push(BusEvent::Read(address, v@)),
            r matches Err(k) ==> final(self).transcript() == old(self).transcript().push(
                BusEvent::Fault(k),
            ),
    ;
}

/// A blocking millisecond-granularity delay capability.
pub trait Delay {
    /// Block for at least `ms` milliseconds.
    fn delay_ms(&mut self, ms: u32);
}

/// The transcript of one completed command exchange: the single command
/// byte written, then the response read back.
pub open spec fn exchange(address: u8, command: u8, response: Seq<u8>) -> Seq<BusEvent> {
    seq![BusEvent::Write(address, seq![command]), BusEvent::Read(address, response)]
}

/// The transcript of one failed command exchange: either the command
/// write itself failed, or the command went out and the response read
/// failed; either way the fault, with the transport's classification,
/// ends the transcript and nothing further was exchanged.
pub open spec fn faulted_exchange(
    pre: Seq<BusEvent>,
    post: Seq<BusEvent>,
    address: u8,
    command: u8,
    kind: BusErrorKind,
) -> bool {
    ||| post == pre.push(BusEvent::Fault(kind))
    ||| post == pre.push(BusEvent::Write(address, seq![command])).push(BusEvent::Fault(kind))
}

/// One completed scaling-register exchange extends the transcript, and
/// its register word decodes to exactly this stored mode and this date.
pub open spec fn scaling_fetch_recorded(
    pre: Seq<BusEvent>,
    post: Seq<BusEvent>,
    address: u8,
    mode: Option<PressureMode>,
    date: Date,
) -> bool {
    exists|frame: Seq<u8>|
        frame.len() == 3 && post == pre + #[trigger] exchange(
            address,
            crate::REQUEST_PRESSURE_MODE,
            frame,
        ) && mode is Some && scaling_decodes_to(spec_be_u16(frame[1], frame[2]), mode->0, date)
}

/// One completed scaling-register exchange extends the transcript, but
/// its register carried the reserved mode encoding.
pub open spec fn reserved_mode_rejected(
    pre: Seq<BusEvent>,
    post: Seq<BusEvent>,
    address: u8,
) -> bool {
    exists|frame: Seq<u8>|
        frame.len() == 3 && post == pre + #[trigger] exchange(
            address,
            crate::REQUEST_PRESSURE_MODE,
            frame,
        ) && spec_be_u16(frame[1], frame[2]) & 3 == 3
}

/// The two exchanges of one calibration-range fetch extend the
/// transcript — the given command then its successor — and the stored
/// value is the big-endian concatenation of the two 16-bit payloads,
/// first exchange high.
pub open spec fn range_fetch_recorded(
    pre: Seq<BusEvent>,
    post: Seq<BusEvent>,
    address: u8,
    command: u8,
    stored: Option<u32>,
) -> bool {
    exists|high: Seq<u8>, low: Seq<u8>|
        #![trigger exchange(address, command, high), exchange(address, (command + 1) as u8, low)]
        high.len() == 3 && low.len() == 3 && post == pre + exchange(address, command, high)
            + exchange(address, (command + 1) as u8, low) && stored == Some(
            spec_be_u32(high[1], high[2], low[1], low[2]),
        )
}

/// A calibration-range fetch that failed: either its first exchange
/// faulted, or the first completed and the second faulted.
pub open spec fn range_fetch_faulted(
    pre: Seq<BusEvent>,
    post: Seq<BusEvent>,
    address: u8,
    command: u8,
    kind: BusErrorKind,
) -> bool {
    ||| faulted_exchange(pre, post, address, command, kind)
    ||| exists|high: Seq<u8>|
        high.len() == 3 && #[trigger] faulted_exchange(
            pre + exchange(address, command, high),
            post,
            address,
            (command + 1) as u8,
            kind,
        )
}

/// One completed measurement exchange extends the transcript, and the
/// result is exactly what its 5-byte frame decodes to under the given
/// calibration.
pub open spec fn measurement_fetch_recorded(
    pre: Seq<BusEvent>,
    post: Seq<BusEvent>,
    address: u8,
    mode: Option<PressureMode>,
    min_bits: Option<u32>,
    max_bits: Option<u32>,
    r: Result<Measurement, KellerLDError>,
) -> bool {
    exists|frame: Seq<u8>|
        frame.len() == 5 && post == pre + #[trigger] exchange(
            address,
            crate::REQUEST_MEASUREMENT,
            frame,
        ) && r == spec_measurement(frame, mode, min_bits, max_bits)
}

/// The full calibration handshake as recorded on the bus: the scaling
/// exchange, then the two minimum-pressure exchanges, then the two
/// maximum-pressure exchanges, with the stored state and the returned
/// date decoded from exactly those frames.
pub open spec fn calibration_fetch_recorded(
    pre: Seq<BusEvent>,
    post: Seq<BusEvent>,
    address: u8,
    mode: Option<PressureMode>,
    min_bits: Option<u32>,
    max_bits: Option<u32>,
    date: Date,
) -> bool {
    exists|mid: Seq<BusEvent>, mid2: Seq<BusEvent>|
        #![trigger scaling_fetch_recorded(pre, mid, address, mode, date), range_fetch_recorded(
            mid,
            mid2,
            address,
            crate::REQUEST_MIN_PRESSURE,
            min_bits,
        )]
        scaling_fetch_recorded(pre, mid, address, mode, date) && range_fetch_recorded(
            mid,
            mid2,
            address,
            crate::REQUEST_MIN_PRESSURE,
            min_bits,
        ) && range_fetch_recorded(mid2, post, address, crate::REQUEST_MAX_PRESSURE, max_bits)
}

/// A calibration handshake that failed on a transport fault, fail-fast:
/// either the scaling exchange faulted and nothing was stored; or the
/// scaling exchange completed — the freshly decoded mode deliberately
/// kept — and the minimum-range fetch faulted with its field untouched;
/// or both earlier steps completed and stored their values and the
/// maximum-range fetch faulted.
pub open spec fn calibration_fetch_faulted(
    pre: Seq<BusEvent>,
    post: Seq<BusEvent>,
    address: u8,
    old_mode: Option<PressureMode>,
    old_min: Option<u32>,
    mode: Option<PressureMode>,
    min_bits: Option<u32>,
    kind: BusErrorKind,
) -> bool {
    ||| (faulted_exchange(pre, post, address, crate::REQUEST_PRESSURE_MODE, kind) && mode
        == old_mode && min_bits == old_min)
    ||| exists|mid: Seq<BusEvent>, date: Date|
        #[trigger] scaling_fetch_recorded(pre, mid, address, mode, date) && range_fetch_faulted(
            mid,
            post,
            address,
            crate::REQUEST_MIN_PRESSURE,
            kind,
        ) && min_bits == old_min
    ||| exists|mid: Seq<BusEvent>, mid2: Seq<BusEvent>, date: Date|
        #![trigger scaling_fetch_recorded(pre, mid, address, mode, date), range_fetch_recorded(
            mid,
            mid2,
            address,
            crate::REQUEST_MIN_PRESSURE,
            min_bits,
        )]
        scaling_fetch_recorded(pre, mid, address, mode, date) && range_fetch_recorded(
            mid,
            mid2,
            address,
            crate::REQUEST_MIN_PRESSURE,
            min_bits,
        ) && range_fetch_faulted(mid2, post, address, crate::REQUEST_MAX_PRESSURE, kind)
}

/// A bound sensor session: the bus handle, the device address, the delay
/// source, and the calibration state fetched so far. The three calibration
/// fields start unset and are populated by the calibration calls; pressure
/// decoding refuses to run until all three are present.
pub struct KellerLD<B, D> {
    /// Exclusively owned bus handle.
    pub bus: B,
    /// 7-bit device address the exchanges are directed at.
    pub address: u8,
    /// Exclusively owned delay source.
    pub delay: D,
    /// Zero-reference convention fetched from the device, if any yet.
    pub pressure_mode: Option<PressureMode>,
    /// Bit pattern of the maximum-pressure calibration value, if fetched.
    pub max_pressure: Option<u32>,
    /// Bit pattern of the minimum-pressure calibration value, if fetched.
    pub min_pressure: Option<u32>,
}

impl<B: Bus, D: Delay> KellerLD<B, D> {
    /// All three calibration fields are present.
    pub open spec fn is_calibrated(&self) -> bool {
        &&& self.pressure_mode is Some
        &&& self.min_pressure is Some
        &&& self.max_pressure is Some
    }

    /// Bind a driver to a bus handle, a device address and a delay source.
    /// The session starts uncalibrated.
    pub fn new(bus: B, address: u8, delay: D) -> (r: Self)
        ensures
            r.bus == bus,
            r.address == address,
            r.delay == delay,
            r.pressure_mode is None,
            r.min_pressure is None,
            r.max_pressure is None,
    {
        Self { bus, address, delay, pressure_mode: None, max_pressure: None, min_pressure: None }
    }

    /// One exchange: write the command byte, wait the fixed settle delay,
    /// read back `len` bytes. On success the transcript grows by exactly
    /// this exchange and the returned bytes are its response; on a
    /// transport failure the exchange stops at the fault, whose
    /// classification the returned error preserves.
    fn read_write(&mut self, command: u8, len: usize) -> (r: Result<Vec<u8>, KellerLDError>)
        ensures
            final(self).address == old(self).address,
            final(self).pressure_mode == old(self).pressure_mode,
            final(self).min_pressure == old(self).min_pressure,
            final(self).max_pressure == old(self).max_pressure,
            r matches Ok(v) ==> v@.len() == len && final(self).bus.transcript() == old(
                self,
            ).bus.transcript() + exchange(old(self).address, command, v@),
            r matches Err(KellerLDError::Bus(k)) ==> faulted_exchange(
                old(self).bus.transcript(),
                final(self).bus.transcript(),
                old(self).address,
                command,
                k,
            ),
            r matches Err(e) ==> e matches KellerLDError::Bus(_),
    {
        let mut request: Vec<u8> = Vec::new();
        request.push(command);
        proof {
            assert(request@ =~= seq![command]);
        }
        let ghost pre = self.bus.transcript();
        match self.bus.write(self.address, &request) {
            Ok(()) => {}
            Err(kind) => {
                return Err(KellerLDError::Bus(kind));
            }
        }
        self.delay.delay_ms(crate::READ_DELAY);
        match self.bus.read(self.address, len) {
            Ok(data) => {
                proof {
                    assert(self.bus.transcript() =~= pre + exchange(
                        self.address,
                        command,
                        data@,
                    ));
                }
                Ok(data)
            }
            Err(kind) => Err(KellerLDError::Bus(kind)),
        }
    }

    /// Fetch the scaling_0 register: store the pressure mode it encodes
    /// and return the calibration date packed beside it, both decoded
    /// from the register word of the one exchange on the bus. The
    /// reserved mode encoding is rejected without touching the stored
    /// state; the range fields are never touched here.
    pub fn get_pressure_mode(&mut self) -> (r: Result<Date, KellerLDError>)
        ensures
            final(self).address == old(self).address,
            final(self).min_pressure == old(self).min_pressure,
            final(self).max_pressure == old(self).max_pressure,
            r matches Ok(date) ==> scaling_fetch_recorded(
                old(self).bus.transcript(),
                final(self).bus.transcript(),
                old(self).address,
                final(self).pressure_mode,
                date,
            ),
            r is Err ==> final(self).pressure_mode == old(self).pressure_mode,
            r matches Err(KellerLDError::Bus(k)) ==> faulted_exchange(
                old(self).bus.transcript(),
                final(self).bus.transcript(),
                old(self).address,
                crate::REQUEST_PRESSURE_MODE,
                k,
            ),
            r matches Err(KellerLDError::UnexpectedValue) ==> reserved_mode_rejected(
                old(self).bus.transcript(),
                final(self).bus.transcript(),
                old(self).address,
            ),
            r matches Err(e) ==> e == KellerLDError::UnexpectedValue || e matches
                KellerLDError::Bus(_),
    {
        let data = match self.read_write(crate::REQUEST_PRESSURE_MODE, 3) {
            Ok(data) => data,
            Err(e) => {
                return Err(e);
            }
        };
        let scaling_0 = be_u16(data[1], data[2]);
        let mode = match decode_pressure_mode(scaling_0) {
            Ok(mode) => mode,
            Err(e) => {
                proof {
                    assert(scaling_0 & 3 <= 3) by (bit_vector);
                    assert(data@.len() == 3 && self.bus.transcript() == old(
                        self,
                    ).bus.transcript() + exchange(
                        self.address,
                        crate::REQUEST_PRESSURE_MODE,
                        data@,
                    ) && spec_be_u16(data@[1], data@[2]) & 3 == 3);
                    assert(reserved_mode_rejected(
                        old(self).bus.transcript(),
                        self.bus.transcript(),
                        self.address,
                    ));
                }
                return Err(e);
            }
        };
        self.pressure_mode = Some(mode);
        let date = decode_date(scaling_0);
        proof {
            assert(scaling_decodes_to(scaling_0, self.pressure_mode->0, date));
            assert(scaling_fetch_recorded(
                old(self).bus.transcript(),
                self.bus.transcript(),
                self.address,
                self.pressure_mode,
                date,
            ));
        }
        Ok(date)
    }

    /// Fetch the minimum-pressure calibration value: two exchanges whose
    /// 16-bit payloads are concatenated, first exchange high, into the bit
    /// pattern of the value. Stored only when both exchanges succeed, and
    /// exactly as the transcript's frames read; the other calibration
    /// fields are never touched.
    pub fn get_min_pressure(&mut self) -> (r: Result<(), KellerLDError>)
        ensures
            final(self).address == old(self).address,
            final(self).pressure_mode == old(self).pressure_mode,
            final(self).max_pressure == old(self).max_pressure,
            r is Ok ==> range_fetch_recorded(
                old(self).bus.transcript(),
                final(self).bus.transcript(),
                old(self).address,
                crate::REQUEST_MIN_PRESSURE,
                final(self).min_pressure,
            ),
            r is Err ==> final(self).min_pressure == old(self).min_pressure,
            r matches Err(KellerLDError::Bus(k)) ==> range_fetch_faulted(
                old(self).bus.transcript(),
                final(self).bus.transcript(),
                old(self).address,
                crate::REQUEST_MIN_PRESSURE,
                k,
            ),
            r matches Err(e) ==> e matches KellerLDError::Bus(_),
    {
        let high = match self.read_write(crate::REQUEST_MIN_PRESSURE, 3) {
            Ok(data) => data,
            Err(e) => {
                return Err(e);
            }
        };
        let low = match self.read_write(crate::REQUEST_MIN_PRESSURE + 1, 3) {
            Ok(data) => data,
            Err(e) => {
                proof {
                    assert(range_fetch_faulted(
                        old(self).bus.transcript(),
                        self.bus.transcript(),
                        self.address,
                        crate::REQUEST_MIN_PRESSURE,
                        e->Bus_0,
                    ));
                }
                return Err(e);
            }
        };
        self.min_pressure = Some(be_u32(high[1], high[2], low[1], low[2]));
        proof {
            assert(range_fetch_recorded(
                old(self).bus.transcript(),
                self.bus.transcript(),
                self.address,
                crate::REQUEST_MIN_PRESSURE,
                self.min_pressure,
            ));
        }
        Ok(())
    }

    /// Fetch the maximum-pressure calibration value, exactly as the
    /// minimum is fetched but from the two registers above it.
    pub fn get_max_pressure(&mut self) -> (r: Result<(), KellerLDError>)
        ensures
            final(self).address == old(self).address,
            final(self).pressure_mode == old(self).pressure_mode,
            final(self).min_pressure == old(self).min_pressure,
            r is Ok ==> range_fetch_recorded(
                old(self).bus.transcript(),
                final(self).bus.transcript(),
                old(self).address,
                crate::REQUEST_MAX_PRESSURE,
                final(self).max_pressure,
            ),
            r is Err ==> final(self).max_pressure == old(self).max_pressure,
            r matches Err(KellerLDError::Bus(k)) ==> range_fetch_faulted(
                old(self).bus.transcript(),
                final(self).bus.transcript(),
                old(self).address,
                crate::REQUEST_MAX_PRESSURE,
                k,
            ),
            r matches Err(e) ==> e matches KellerLDError::Bus(_),
    {
        let high = match self.read_write(crate::REQUEST_MAX_PRESSURE, 3) {
            Ok(data) => data,
            Err(e) => {
                return Err(e);
            }
        };
        let low = match self.read_write(crate::REQUEST_MAX_PRESSURE + 1, 3) {
            Ok(data) => data,
            Err(e) => {
                proof {
                    assert(range_fetch_faulted(
                        old(self).bus.transcript(),
                        self.bus.transcript(),
                        self.address,
                        crate::REQUEST_MAX_PRESSURE,
                        e->Bus_0,
                    ));
                }
                return Err(e);
            }
        };
        self.max_pressure = Some(be_u32(high[1], high[2], low[1], low[2]));
        proof {
            assert(range_fetch_recorded(
                old(self).bus.transcript(),
                self.bus.transcript(),
                self.address,
                crate::REQUEST_MAX_PRESSURE,
                self.max_pressure,
            ));
        }
        Ok(())
    }

    /// Fetch the whole calibration: pressure mode first, then the minimum
    /// and maximum pressure, failing fast with the first sub-step's error.
    /// On success the transcript shows the five exchanges in that fixed
    /// order and every stored field decodes from their frames. A failure
    /// during the range fetches deliberately leaves the already-fetched
    /// pressure mode in place. Returns the calibration date.
    pub fn get_calibration(&mut self) -> (r: Result<Date, KellerLDError>)
        ensures
            final(self).address == old(self).address,
            r matches Ok(date) ==> final(self).is_calibrated() && calibration_fetch_recorded(
                old(self).bus.transcript(),
                final(self).bus.transcript(),
                old(self).address,
                final(self).pressure_mode,
                final(self).min_pressure,
                final(self).max_pressure,
                date,
            ),
            final(self).pressure_mode == old(self).pressure_mode
                || final(self).pressure_mode is Some,
            final(self).min_pressure == old(self).min_pressure || final(self).min_pressure is Some,
            r is Err ==> final(self).max_pressure == old(self).max_pressure,
            r matches Err(KellerLDError::UnexpectedValue)
                ==> final(self).pressure_mode == old(self).pressure_mode
                && final(self).min_pressure == old(self).min_pressure && reserved_mode_rejected(
                old(self).bus.transcript(),
                final(self).bus.transcript(),
                old(self).address,
            ),
            r matches Err(KellerLDError::Bus(k)) ==> calibration_fetch_faulted(
                old(self).bus.transcript(),
                final(self).bus.transcript(),
                old(self).address,
                old(self).pressure_mode,
                old(self).min_pressure,
                final(self).pressure_mode,
                final(self).min_pressure,
                k,
            ),
            r matches Err(e) ==> e == KellerLDError::UnexpectedValue || e matches
                KellerLDError::Bus(_),
    {
        let ghost pre = self.bus.transcript();
        let date = match self.get_pressure_mode() {
            Ok(date) => date,
            Err(e) => {
                return Err(e);
            }
        };
        let ghost mid = self.bus.transcript();
        match self.get_min_pressure() {
            Ok(()) => {}
            Err(e) => {
                proof {
                    assert(scaling_fetch_recorded(pre, mid, self.address, self.pressure_mode, date));
                    assert(calibration_fetch_faulted(
                        pre,
                        self.bus.transcript(),
                        self.address,
                        old(self).pressure_mode,
                        old(self).min_pressure,
                        self.pressure_mode,
                        self.min_pressure,
                        e->Bus_0,
                    ));
                }
                return Err(e);
            }
        }
        let ghost mid2 = self.bus.transcript();
        match self.get_max_pressure() {
            Ok(()) => {}
            Err(e) => {
                proof {
                    assert(scaling_fetch_recorded(pre, mid, self.address, self.pressure_mode, date));
                    assert(range_fetch_recorded(
                        mid,
                        mid2,
                        self.address,
                        crate::REQUEST_MIN_PRESSURE,
                        self.min_pressure,
                    ));
                    assert(calibration_fetch_faulted(
                        pre,
                        self.bus.transcript(),
                        self.address,
                        old(self).pressure_mode,
                        old(self).min_pressure,
                        self.pressure_mode,
                        self.min_pressure,
                        e->Bus_0,
                    ));
                }
                return Err(e);
            }
        }
        proof {
            assert(scaling_fetch_recorded(pre, mid, self.address, self.pressure_mode, date));
            assert(range_fetch_recorded(
                mid,
                mid2,
                self.address,
                crate::REQUEST_MIN_PRESSURE,
                self.min_pressure,
            ));
            assert(calibration_fetch_recorded(
                pre,
                self.bus.transcript(),
                self.address,
                self.pressure_mode,
                self.min_pressure,
                self.max_pressure,
                date,
            ));
        }
        Ok(date)
    }

    /// Request one measurement frame over the single 0xAC exchange and
    /// decode it under the current calibration: the status byte first
    /// (busy, then mode, then the device's checksum), then the raw
    /// pressure and temperature words, which are handed out together with
    /// the calibration they were read under. Fails with `Uncalibrated`
    /// only when the status byte is clear but the calibration is
    /// incomplete; never stores anything.
    pub fn read(&mut self) -> (r: Result<Measurement, KellerLDError>)
        ensures
            final(self).address == old(self).address,
            final(self).pressure_mode == old(self).pressure_mode,
            final(self).min_pressure == old(self).min_pressure,
            final(self).max_pressure == old(self).max_pressure,
            !old(self).is_calibrated() ==> !(r is Ok),
            r matches Ok(m) ==> old(self).pressure_mode == Some(m.pressure_mode) && old(
                self,
            ).min_pressure == Some(m.min_pressure_bits) && old(self).max_pressure == Some(
                m.max_pressure_bits,
            ),
            r matches Err(KellerLDError::Uncalibrated) ==> !old(self).is_calibrated(),
            r matches Err(e) ==> e != KellerLDError::UnexpectedValue,
            !(r matches Err(KellerLDError::Bus(_))) ==> measurement_fetch_recorded(
                old(self).bus.transcript(),
                final(self).bus.transcript(),
                old(self).address,
                old(self).pressure_mode,
                old(self).min_pressure,
                old(self).max_pressure,
                r,
            ),
            r matches Err(KellerLDError::Bus(k)) ==> faulted_exchange(
                old(self).bus.transcript(),
                final(self).bus.transcript(),
                old(self).address,
                crate::REQUEST_MEASUREMENT,
                k,
            ),
    {
        let data = match self.read_write(crate::REQUEST_MEASUREMENT, 5) {
            Ok(data) => data,
            Err(e) => {
                return Err(e);
            }
        };
        let r = measurement_from_frame(&data, self.pressure_mode, self.min_pressure, self.max_pressure);
        proof {
            assert(measurement_fetch_recorded(
                old(self).bus.transcript(),
                self.bus.transcript(),
                old(self).address,
                old(self).pressure_mode,
                old(self).min_pressure,
                old(self).max_pressure,
                r,
            ));
        }
        r
    }

    /// Tear the session down, handing exclusive ownership of the bus
    /// handle back to the caller.
    pub fn destroy(self) -> (r: B)
        ensures
            r == self.bus,
    {
        self.bus
    }
}

} // verus!
