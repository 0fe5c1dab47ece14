//! The ways in which reading the sensor can fail.

use crate::time::Microseconds;
use vstd::prelude::*;
use vstd::std_specs::convert::FromSpecImpl;

verus! {

/// Why a reading could not be taken.
///
/// `DeviceError` is the error of the pin that the sensor is wired to.
#[derive(Debug, PartialEq, Eq)]
pub enum DhtError<DeviceError> {
    /// The sensor did not answer the request. The value is the stage that
    /// timed out: 0 while waiting for the sensor to pull the line low, 1 while
    /// waiting for it to let the line rise again. Check the wiring, that reads
    /// are at least two seconds apart, and that the line idles high.
    Handshake(u8),
    /// A data edge did not arrive in time. The value is the time that had
    /// passed when the wait was given up.
    Timeout(Microseconds),
    /// The frame arrived but its checksum is wrong: `correct` is the checksum
    /// byte that the sensor sent, `actual` the sum of the four data bytes.
    Checksum { correct: u8, actual: u8 },
    /// Driving the pin failed with this error.
    DeviceError(DeviceError),
}

impl<DeviceError> From<DeviceError> for DhtError<DeviceError> {
    fn from(value: DeviceError) -> (error: Self) {
        DhtError::DeviceError(value)
    }
}

impl<DeviceError> FromSpecImpl<DeviceError> for DhtError<DeviceError> {
    open spec fn obeys_from_spec() -> bool {
        true
    }

    open spec fn from_spec(value: DeviceError) -> Self {
        DhtError::DeviceError(value)
    }
}

} // verus!
