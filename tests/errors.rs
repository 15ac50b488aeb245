use debugger::error::{push_decimal, Error, OsError};

#[test]
fn invalid_path_message() {
    assert_eq!(
        Error::InvalidPathName.message(),
        "There appears to be a '\\0' in the path name."
    );
}

#[test]
fn incomplete_read_message() {
    assert_eq!(
        Error::IncompleteRead(4096, 17).message(),
        "Tried to read 4096 bytes, only read 17."
    );
}

#[test]
fn incomplete_write_message() {
    assert_eq!(
        Error::IncompleteWrite(8, 0).message(),
        "Tried to write 8 bytes, only wrote 0."
    );
}

#[test]
fn kernel_message_uses_host_description() {
    let err = Error::Kernel(OsError { code: 3, description: String::from("No such process") });
    assert_eq!(err.message(), "No such process.");
}

#[test]
fn unsupported_message() {
    assert_eq!(
        Error::Unsupported.message(),
        "Process tracing is not supported on this platform."
    );
}

#[test]
fn decimal_rendering() {
    let mut s = String::from("n=");
    push_decimal(&mut s, 0);
    assert_eq!(s, "n=0");
    let mut s = String::new();
    push_decimal(&mut s, 10);
    assert_eq!(s, "10");
    let mut s = String::new();
    push_decimal(&mut s, usize::MAX);
    assert_eq!(s, usize::MAX.to_string());
}
