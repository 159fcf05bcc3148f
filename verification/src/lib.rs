//! Driver logic for the AHT20 humidity/temperature sensor.
//!
//! The sensor sits on a two-wire serial bus at a fixed address. A host issues
//! fixed command sequences, waits out chip-defined settling times, reads back
//! a status byte or a seven-byte measurement frame, and converts the packed
//! 20-bit raw codes into physical units. This crate holds everything that can
//! be decided from plain bytes: the command payloads, the status-byte flags,
//! the calibration state machine, and the fixed-point decoding of raw codes.
//! The bus transport and the timed waits are the caller's job; the caller
//! feeds every byte it reads back into the state machine here.

use vstd::prelude::*;

pub mod codec;
pub mod driver;
pub mod error;
pub mod status;

pub use codec::decode_humidity_milli;
pub use codec::decode_temperature_milli;
pub use codec::encode_humidity_milli;
pub use codec::encode_temperature_milli;
pub use codec::humidity_milli_of_raw;
pub use codec::lemma_humidity_round_trip;
pub use codec::lemma_temperature_round_trip;
pub use codec::raw_humidity;
pub use codec::raw_of_humidity_milli;
pub use codec::raw_of_temperature_milli;
pub use codec::raw_temperature;
pub use codec::temperature_milli_of_raw;
pub use driver::initialize_command;
pub use driver::trigger_measurement_command;
pub use driver::DriverState;
pub use driver::RawMeasurement;
pub use driver::AHT20;
pub use error::Aht20Error;
pub use error::BusError;
pub use status::busy_flag;
pub use status::calibration_flag;
pub use status::is_busy;
pub use status::is_calibrated;

verus! {

/// Fixed 7-bit bus address of the sensor.
pub const AHT20_ADDRESS: u8 = 0x38;

/// Settling time after the initialization command, in milliseconds.
/// The datasheet allows 50-80 ms; the maximum is used so that the status
/// read that follows never sees a stale calibration flag.
pub const DELAY_INIT_CALIBRATION_MS: u64 = 80;

/// Settling time after the trigger-measurement command, in milliseconds.
/// The datasheet demands more than 75 ms; 80 ms leaves a margin.
pub const DELAY_MEASUREMENT_MS: u64 = 80;

} // verus!
