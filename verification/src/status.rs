//! Flags of the sensor's status byte.
//!
//! Bit 7 is the busy flag: a measurement or initialization cycle is still in
//! progress. Bit 3 is the calibration-enabled flag: the sensor's internal
//! calibration coefficients are loaded and valid. The remaining bits are
//! reserved and carry no meaning for the driver. The flags are specified
//! arithmetically, so that they evaluate on any concrete status byte; the
//! executable tests use the usual masks.

use vstd::prelude::*;

verus! {

/// True when the status byte reports the sensor as busy (bit 7 set).
pub open spec fn busy_flag(status: u8) -> bool {
    status / 0x80 % 2 == 1
}

/// True when the status byte reports calibration as enabled (bit 3 set).
pub open spec fn calibration_flag(status: u8) -> bool {
    status / 0x08 % 2 == 1
}

/// Tests the busy flag (bit 7) of a status byte.
pub fn is_busy(status: u8) -> (r: bool)
    ensures
        r == busy_flag(status),
{
    let r: bool = status & 0x80 != 0;
    proof {
        assert(r == (status / 0x80 % 2 == 1)) by (bit_vector)
            requires
                r == (status & 0x80 != 0),
        ;
    }
    r
}

/// Tests the calibration-enabled flag (bit 3) of a status byte.
pub fn is_calibrated(status: u8) -> (r: bool)
    ensures
        r == calibration_flag(status),
{
    let r: bool = status & 0x08 != 0;
    proof {
        assert(r == (status / 0x08 % 2 == 1)) by (bit_vector)
            requires
                r == (status & 0x08 != 0),
        ;
    }
    r
}

} // verus!
