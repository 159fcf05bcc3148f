//! Error taxonomy of the driver.

use vstd::prelude::*;

verus! {

/// A failure reported by the bus transport itself, out of the driver's
/// control. The variants mirror the conditions a two-wire bus controller can
/// report; the driver never inspects them, it hands them back to the caller
/// unchanged.
#[derive(Clone, Copy, Debug, PartialEq, Eq, Structural)]
pub enum BusError {
    /// Bus-level error such as a misplaced start or stop condition.
    Bus,
    /// Lost arbitration against another bus master.
    Arbitration,
    /// The addressed device did not acknowledge.
    Nack,
    /// The transfer timed out.
    Timeout,
    /// Hardware CRC mismatch on the transfer.
    Crc,
    /// Receive buffer overrun.
    Overrun,
    /// A transfer of zero bytes was requested.
    ZeroLengthTransfer,
}

/// What a driver call can fail with.
#[derive(Clone, Copy, Debug, PartialEq, Eq, Structural)]
pub enum Aht20Error {
    /// The bus transport failed; the underlying error is passed through.
    I2c(BusError),
    /// Reserved for a strict policy that refuses to measure before an
    /// explicit initialization. The self-healing policy implemented here
    /// never produces it, but callers that want to tell "never initialized"
    /// from "lost calibration" need it as a distinct case.
    NotInitialized,
    /// The measurement frame arrived with the busy flag still set; the
    /// caller may retry after another settling interval.
    MeasurementBusy,
    /// The sensor reports its calibration as lost or never achieved.
    NotCalibrated,
}

impl From<BusError> for Aht20Error {
    /// Wraps a transport failure unchanged.
    fn from(e: BusError) -> (r: Aht20Error) {
        Aht20Error::I2c(e)
    }
}

impl vstd::std_specs::convert::FromSpecImpl<BusError> for Aht20Error {
    open spec fn obeys_from_spec() -> bool {
        true
    }

    open spec fn from_spec(e: BusError) -> Aht20Error {
        Aht20Error::I2c(e)
    }
}

} // verus!
