use session_middleware::async_io::{
    io_error_to_async_io_error, IoFailure, IoFailureKind, SOCKET_NOT_READY, WOULD_BLOCK_MESSAGE,
};

fn failure(os_code: Option<i32>, kind: IoFailureKind, message: &str) -> IoFailure {
    IoFailure { os_code, kind, message: message.to_owned() }
}

#[test]
fn success_passes() {
    let r: Result<usize, IoFailure> = io_error_to_async_io_error(Ok(17));
    assert_eq!(r.unwrap(), 17);
}

#[test]
fn socket_not_ready_becomes_would_block() {
    let r: Result<usize, IoFailure> =
        io_error_to_async_io_error(Err(failure(Some(35), IoFailureKind::Other, "os error 35")));
    let e = r.unwrap_err();
    assert_eq!(e.kind, IoFailureKind::WouldBlock);
    assert_eq!(e.os_code, None);
    assert_eq!(e.message, "test socket would block");
}

#[test]
fn constants_of_the_mapping() {
    assert_eq!(SOCKET_NOT_READY, 35);
    assert_eq!(WOULD_BLOCK_MESSAGE, "test socket would block");
}

#[test]
fn other_os_error_passes_unchanged() {
    let r: Result<(), IoFailure> =
        io_error_to_async_io_error(Err(failure(Some(32), IoFailureKind::Other, "broken pipe")));
    let e = r.unwrap_err();
    assert_eq!(e.kind, IoFailureKind::Other);
    assert_eq!(e.os_code, Some(32));
    assert_eq!(e.message, "broken pipe");
}

#[test]
fn failure_without_os_code_passes_unchanged() {
    let r: Result<(), IoFailure> =
        io_error_to_async_io_error(Err(failure(None, IoFailureKind::WouldBlock, "later")));
    let e = r.unwrap_err();
    assert_eq!(e.kind, IoFailureKind::WouldBlock);
    assert_eq!(e.os_code, None);
    assert_eq!(e.message, "later");
}

#[test]
fn neighbouring_codes_pass_unchanged() {
    for code in [34, 36, -35, 0] {
        let r: Result<(), IoFailure> =
            io_error_to_async_io_error(Err(failure(Some(code), IoFailureKind::Other, "x")));
        let e = r.unwrap_err();
        assert_eq!(e.os_code, Some(code));
        assert_eq!(e.kind, IoFailureKind::Other);
        assert_eq!(e.message, "x");
    }
}
