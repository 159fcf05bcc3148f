//! The driver state machine.
//!
//! The sensor protocol is a fixed sequence per call: write a command, wait
//! out the chip's settling time, read bytes back, decide on what was read.
//! The bus writes, reads and waits are the caller's job — they suspend, can
//! fail with a transport error, and carry no decision. Every decision lives
//! here: whether a measurement must be preceded by initialization, what an
//! initialization status byte means, and whether a measurement frame is
//! valid and what it decodes to. A transport failure leaves the state
//! machine untouched; the caller simply does not feed anything back.

use vstd::prelude::*;

use crate::codec::raw_humidity;
use crate::codec::raw_temperature;
use crate::codec::spec_raw_humidity;
use crate::codec::spec_raw_temperature;
use crate::error::Aht20Error;
use crate::status::busy_flag;
use crate::status::calibration_flag;
use crate::status::is_busy;
use crate::status::is_calibrated;

verus! {

/// The calibration state of the driver. `Calibrated` holds only if the most
/// recently observed status byte had its calibration-enabled flag set; any
/// observation of a cleared flag drops the state back to `Uninitialized`.
#[derive(Clone, Copy, Debug, PartialEq, Eq, Structural)]
pub enum DriverState {
    /// No successful initialization observed yet, or calibration was seen
    /// lost; the next measurement must initialize first.
    Uninitialized,
    /// The last observed status byte reported calibration enabled.
    Calibrated,
}

/// A parsed measurement frame: the status byte, the two 20-bit raw codes
/// unpacked from the five data bytes, and the trailing checksum byte, which
/// is carried but not validated (a known gap, not a design choice).
#[derive(Clone, Copy, Debug, PartialEq, Eq, Structural)]
pub struct RawMeasurement {
    /// Status byte of the frame (byte 0).
    pub status: u8,
    /// 20-bit humidity code from bytes 1-3.
    pub raw_humidity: u32,
    /// 20-bit temperature code from bytes 3-5.
    pub raw_temperature: u32,
    /// Checksum byte of the frame (byte 6), not validated.
    pub crc: u8,
}

/// The state an initialization status byte leads to: `Calibrated` exactly
/// when the calibration-enabled flag is set.
pub open spec fn init_transition(status: u8) -> DriverState {
    if calibration_flag(status) {
        DriverState::Calibrated
    } else {
        DriverState::Uninitialized
    }
}

/// The state a measurement status byte leads to: a completed frame whose
/// calibration flag is clear drops the driver to `Uninitialized`; anything
/// else leaves the state as it was.
pub open spec fn measure_transition(state: DriverState, status: u8) -> DriverState {
    if !busy_flag(status) && !calibration_flag(status) {
        DriverState::Uninitialized
    } else {
        state
    }
}

/// Law: a measurement frame that reports calibration lost — busy flag
/// clear, calibration flag clear — drives every state to `Uninitialized`,
/// so the measurement that follows must begin with initialization again.
pub proof fn lemma_calibration_loss_forces_reinit(state: DriverState, status: u8)
    requires
        !busy_flag(status),
        !calibration_flag(status),
    ensures
        measure_transition(state, status) == DriverState::Uninitialized,
{
}

/// The fixed 3-byte initialization command: opcode plus calibration-enable
/// parameters.
pub fn initialize_command() -> (r: [u8; 3])
    ensures
        r@ == seq![0xBEu8, 0x08u8, 0x00u8],
{
    [0xBE, 0x08, 0x00]
}

/// The fixed 3-byte trigger-measurement command.
pub fn trigger_measurement_command() -> (r: [u8; 3])
    ensures
        r@ == seq![0xACu8, 0x33u8, 0x00u8],
{
    [0xAC, 0x33, 0x00]
}

impl RawMeasurement {
    /// Both raw codes fit in 20 bits, as the packing guarantees.
    pub open spec fn wf(&self) -> bool {
        self.raw_humidity < 0x100000 && self.raw_temperature < 0x100000
    }

    /// Unpacks a 7-byte frame read from the bus: status byte, three
    /// humidity bytes, three temperature bytes (byte 3 is shared: humidity
    /// takes its upper nibble, temperature its lower), checksum byte.
    pub fn parse(data: [u8; 7]) -> (r: RawMeasurement)
        ensures
            r.status == data[0],
            r.raw_humidity == spec_raw_humidity(data[1], data[2], data[3]),
            r.raw_temperature == spec_raw_temperature(data[3], data[4], data[5]),
            r.crc == data[6],
            r.wf(),
    {
        RawMeasurement {
            status: data[0],
            raw_humidity: raw_humidity(data[1], data[2], data[3]),
            raw_temperature: raw_temperature(data[3], data[4], data[5]),
            crc: data[6],
        }
    }
}

/// The driver for one physical sensor. It remembers only whether the sensor
/// is believed calibrated; the bus handle stays with the caller.
pub struct AHT20 {
    /// Current calibration state.
    pub state: DriverState,
}

impl AHT20 {
    /// A fresh driver. Performs no bus traffic; the first measurement will
    /// initialize the sensor if no explicit initialization came first.
    pub fn new() -> (r: AHT20)
        ensures
            r.state == DriverState::Uninitialized,
    {
        AHT20 { state: DriverState::Uninitialized }
    }

    /// Whether a measurement must start with the initialization sequence.
    pub fn needs_init(&self) -> (r: bool)
        ensures
            r == (self.state == DriverState::Uninitialized),
    {
        self.state == DriverState::Uninitialized
    }

    /// The strict policy's guard. A caller that refuses to initialize on
    /// demand calls this ahead of a measurement instead of consulting
    /// `needs_init`, and is told `NotInitialized` for as long as no
    /// successful initialization has been observed — a case such callers
    /// want to tell apart from calibration lost later on.
    pub fn require_initialized(&self) -> (r: Result<(), Aht20Error>)
        ensures
            r is Ok <==> self.state == DriverState::Calibrated,
            self.state == DriverState::Uninitialized ==> r == Err::<(), Aht20Error>(
                Aht20Error::NotInitialized,
            ),
    {
        if self.state == DriverState::Uninitialized {
            Err(Aht20Error::NotInitialized)
        } else {
            Ok(())
        }
    }

    /// Completes the initialization sequence: decides on the status byte
    /// read back after the calibration settling delay. Succeeds exactly
    /// when the calibration-enabled flag is set; a set busy flag at this
    /// point is unexpected but informational, never a failure. On a cleared
    /// calibration flag the call fails with `NotCalibrated` and the driver
    /// stays `Uninitialized`.
    pub fn init(&mut self, status: u8) -> (r: Result<(), Aht20Error>)
        ensures
            final(self).state == init_transition(status),
            r is Ok <==> calibration_flag(status),
            !calibration_flag(status) ==> r == Err::<(), Aht20Error>(Aht20Error::NotCalibrated),
    {
        if !is_calibrated(status) {
            self.state = DriverState::Uninitialized;
            Err(Aht20Error::NotCalibrated)
        } else {
            self.state = DriverState::Calibrated;
            Ok(())
        }
    }

    /// Validates and decodes a 7-byte measurement frame read back after the
    /// measurement settling delay. A frame with the busy flag set is
    /// rejected with `MeasurementBusy` and nothing is decoded. A completed
    /// frame with the calibration flag clear is rejected with
    /// `NotCalibrated` and the driver drops to `Uninitialized`, so the next
    /// measurement re-initializes — once calibration is observed lost, no
    /// reading is trusted until then. Otherwise the frame is unpacked and
    /// returned.
    pub fn read(&mut self, data: [u8; 7]) -> (r: Result<RawMeasurement, Aht20Error>)
        ensures
            final(self).state == measure_transition(old(self).state, data[0]),
            r is Ok <==> (!busy_flag(data[0]) && calibration_flag(data[0])),
            busy_flag(data[0]) ==> r == Err::<RawMeasurement, Aht20Error>(
                Aht20Error::MeasurementBusy,
            ),
            !busy_flag(data[0]) && !calibration_flag(data[0]) ==> r == Err::<
                RawMeasurement,
                Aht20Error,
            >(Aht20Error::NotCalibrated),
            r matches Ok(m) ==> {
                &&& m.status == data[0]
                &&& m.raw_humidity == spec_raw_humidity(data[1], data[2], data[3])
                &&& m.raw_temperature == spec_raw_temperature(data[3], data[4], data[5])
                &&& m.crc == data[6]
                &&& m.wf()
            },
    {
        if is_busy(data[0]) {
            return Err(Aht20Error::MeasurementBusy);
        }
        if !is_calibrated(data[0]) {
            self.state = DriverState::Uninitialized;
            return Err(Aht20Error::NotCalibrated);
        }
        Ok(RawMeasurement::parse(data))
    }
}

} // verus!
