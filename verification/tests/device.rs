use rust_kilo::{classify_status, wrap_with_result, DeviceError};

#[test]
fn status_zero_is_success() {
    assert_eq!(wrap_with_result(0), Ok(()));
}

#[test]
fn status_minus_one_is_a_device_error() {
    assert!(wrap_with_result(-1).is_err());
}

#[test]
fn a_device_error_carries_an_error_number() {
    assert!(matches!(wrap_with_result(-1), Err(DeviceError { os_code: Some(_) })));
}

#[test]
fn every_other_status_is_success() {
    for status in [1, 2, -2, 25, 255, i32::MAX, i32::MIN] {
        assert_eq!(wrap_with_result(status), Ok(()), "status {}", status);
    }
}

#[test]
fn failure_carries_the_number_it_was_given() {
    assert_eq!(classify_status(-1, Some(25)), Err(DeviceError { os_code: Some(25) }));
    assert_eq!(classify_status(-1, Some(5)), Err(DeviceError { os_code: Some(5) }));
    assert_eq!(classify_status(-1, None), Err(DeviceError { os_code: None }));
}

#[test]
fn success_drops_the_number() {
    assert_eq!(classify_status(0, Some(25)), Ok(()));
    assert_eq!(classify_status(7, None), Ok(()));
    assert_eq!(classify_status(-2, Some(1)), Ok(()));
}

#[test]
fn a_device_error_carries_the_last_error_of_the_system() {
    errno::set_errno(errno::Errno(libc::EBADF));
    assert_eq!(wrap_with_result(-1), Err(DeviceError { os_code: Some(libc::EBADF) }));
    errno::set_errno(errno::Errno(libc::EIO));
    assert_eq!(wrap_with_result(-1), Err(DeviceError { os_code: Some(libc::EIO) }));
}

#[test]
fn success_does_not_look_at_the_last_error() {
    errno::set_errno(errno::Errno(libc::EIO));
    assert_eq!(wrap_with_result(0), Ok(()));
    assert_eq!(errno::errno(), errno::Errno(libc::EIO));
}

#[test]
fn capture_from_what_is_no_terminal_fails_with_that_error() {
    errno::set_errno(errno::Errno(libc::ENOTTY));
    let captured = wrap_with_result(-1);
    assert_eq!(captured, Err(DeviceError { os_code: Some(25) }));
}
