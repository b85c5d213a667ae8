use libuefi::status::{map_inner, Completion, ResultExt, Status, UefiResult, ERROR_BIT};

#[test]
fn raw_zero_is_success() {
    let s = Status::from_raw(0);
    assert_eq!(s, Status::Success);
    assert!(s.is_success());
    assert!(!s.is_warning());
    assert!(!s.is_error());
}

#[test]
fn raw_codes_classify_by_high_bit() {
    for code in [1u64, 2, 6, 0x7fff_ffff_ffff_ffff] {
        let s = Status::from_raw(code);
        assert!(s.is_warning() && !s.is_success() && !s.is_error());
        assert_eq!(s.raw(), code);
    }
    for code in [ERROR_BIT, ERROR_BIT + 5, ERROR_BIT + 36, u64::MAX] {
        let s = Status::from_raw(code);
        assert!(s.is_error() && !s.is_success() && !s.is_warning());
        assert_eq!(s.raw(), code);
    }
}

#[test]
fn named_errors_have_their_codes() {
    assert_eq!(Status::from_raw(ERROR_BIT + 5), Status::BufferTooSmall);
    assert_eq!(Status::from_raw(ERROR_BIT + 14), Status::NotFound);
    assert_eq!(Status::from_raw(ERROR_BIT + 35), Status::HttpError);
    assert_eq!(Status::from_raw(ERROR_BIT + 36), Status::Unknown(36));
    assert_eq!(Status::from_raw(ERROR_BIT), Status::Unknown(0));
    assert_eq!(Status::LoadError.raw(), 0x8000_0000_0000_0001);
    assert_eq!(Status::OutOfResources.raw(), 0x8000_0000_0000_0009);
}

#[test]
fn into_with_calls_producer_unless_error() {
    let mut called = false;
    let r = Status::Success.into_with(|| {
        called = true;
        7
    });
    assert!(called);
    assert_eq!(r, Ok(Completion::Success(7)));

    let mut called = false;
    let w = Status::Warning(4);
    let r = w.into_with(|| {
        called = true;
        8
    });
    assert!(called);
    assert_eq!(r, Ok(Completion::Warning(8, w)));

    let mut called = false;
    let r: UefiResult<i32> = Status::DeviceError.into_with(|| {
        called = true;
        9
    });
    assert!(!called);
    assert_eq!(r, Err(Status::DeviceError));
}

#[test]
fn warning_as_error_is_strict() {
    let ok: UefiResult<u8> = Ok(Completion::Success(1));
    let warned: UefiResult<u8> = Ok(Completion::Warning(2, Status::Warning(3)));
    let failed: UefiResult<u8> = Err(Status::Aborted);
    assert_eq!(ok.warning_as_error(), Ok(1));
    assert_eq!(warned.warning_as_error(), Err(Status::Warning(3)));
    assert_eq!(failed.warning_as_error(), Err(Status::Aborted));
}

#[test]
fn unwrap_success_gives_value() {
    let ok: UefiResult<u8> = Ok(Completion::Success(5));
    assert_eq!(ok.unwrap_success(), 5);
    let ok: UefiResult<u8> = Ok(Completion::Success(6));
    assert_eq!(ok.expect_success("no success"), 6);
}

#[test]
fn completion_helpers() {
    let c = Completion::Success(3u8).with_status(Status::Warning(1));
    assert_eq!(c, Completion::Warning(3, Status::Warning(1)));
    let c = Completion::Warning(3u8, Status::Warning(2)).with_status(Status::Warning(1));
    assert_eq!(c.split(), (3, Status::Warning(2)));
    assert_eq!(Completion::Success(4u8).with_status(Status::Success), Completion::Success(4));
    assert_eq!(Completion::Warning(1u8, Status::Warning(6)).map(|v| v + 1).unwrap(), 2);
    let r: UefiResult<u8> = Ok(Completion::Warning(10, Status::Warning(6)));
    assert_eq!(map_inner(r, |v| v * 2), Ok(Completion::Warning(20, Status::Warning(6))));
    assert_eq!(Status::NotReady.into_result(), Err(Status::NotReady));
    assert_eq!(Status::Success.into_result(), Ok(Completion::Success(())));
}
