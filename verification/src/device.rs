//! Turning the status of a device call into a typed result.

use vstd::prelude::*;

verus! {

/// A call that reads or sets the terminal's attributes failed at the level of
/// the operating system. `os_code` is the system's error number, where the
/// system gave one.
#[derive(Clone, Copy, Debug, PartialEq, Eq)]
pub struct DeviceError {
    /// The error number of the operating system.
    pub os_code: Option<i32>,
}

/// The status with which a device call reports failure.
pub const FAILURE_STATUS: i32 = -1;

/// `std::io::Error`, carried from where the system's last error is read to
/// where its number is taken out.
#[verifier::external_type_specification]
#[verifier::external_body]
pub struct ExIoError(std::io::Error);

/// `std::io::Error::last_os_error`: the last error of the operating system as
/// an error value. It depends on what the system did last, so nothing is
/// claimed of it.
pub assume_specification[ std::io::Error::last_os_error ]() -> (error: std::io::Error)
;

/// `std::io::Error::raw_os_error`: the error number inside an error value, if
/// it holds one. No relation between the two is claimed.
pub assume_specification[ std::io::Error::raw_os_error ](error: &std::io::Error) -> (code: Option<
    i32,
>)
;

/// The result that a device call's status stands for: a failure carrying
/// `os_code` when the status is -1, success on every other status.
pub open spec fn status_outcome(status: i32, os_code: Option<i32>) -> Result<(), DeviceError> {
    if status == FAILURE_STATUS {
        Err(DeviceError { os_code })
    } else {
        Ok(())
    }
}

/// Turns a status and an error number into a typed result.
pub fn classify_status(status: i32, os_code: Option<i32>) -> (outcome: Result<(), DeviceError>)
    ensures
        outcome == status_outcome(status, os_code),
{
    if status == FAILURE_STATUS {
        Err(DeviceError { os_code })
    } else {
        Ok(())
    }
}

/// Turns the status that a device call returned into a typed result.
///
/// A status of -1 is a failure, and the error carries the number of the
/// system's last error, which is read here and only then. Every other status
/// is success. Call it right after the device call, before anything else can
/// change the system's last error.
pub fn wrap_with_result(result: i32) -> (outcome: Result<(), DeviceError>)
    ensures
        outcome is Err <==> result == FAILURE_STATUS,
{
    if result == FAILURE_STATUS {
        let error = std::io::Error::last_os_error();
        let os_code = error.raw_os_error();
        classify_status(result, os_code)
    } else {
        Ok(())
    }
}

} // verus!
