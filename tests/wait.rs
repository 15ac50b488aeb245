use debugger::error::{Error, OsError};
use debugger::session::Stop;
use debugger::wait::{decode_stop, decode_wait_failure, is_syscall_stop};

#[test]
fn decodes_exit() {
    assert_eq!(decode_stop(0x0300, 0, 0), Stop::Exited(3));
    assert_eq!(decode_stop(0, 0, 0), Stop::Exited(0));
}

#[test]
fn decodes_death_by_signal() {
    assert_eq!(decode_stop(9, 0, 0), Stop::Terminated(9));
    assert_eq!(decode_stop(0x80 | 11, 0, 0), Stop::Terminated(11));
}

#[test]
fn decodes_stops() {
    assert_eq!(decode_stop(0x137f, 0, 0), Stop::Halt(19));
    assert_eq!(decode_stop(0x057f, 0, 0), Stop::Trap(5));
    assert_eq!(decode_stop(0x0a7f, 0, 0), Stop::Signal(10));
    assert_eq!(decode_stop(0x857f, 60, -1), Stop::Syscall { number: 60, value: -1 });
}

#[test]
fn resumption_report_is_waited_past() {
    assert_eq!(decode_stop(0xffff, 0, 0), Stop::Interrupted);
}

#[test]
fn recognises_syscall_stops() {
    assert!(is_syscall_stop(0x857f));
    assert!(!is_syscall_stop(0x057f));
    assert!(!is_syscall_stop(0x8500));
}

#[test]
fn decodes_wait_failures() {
    assert_eq!(decode_wait_failure(4), Stop::Interrupted);
    assert_eq!(decode_wait_failure(10), Stop::Lost);
}

#[test]
fn no_such_process_error() {
    let e = OsError::no_such_process();
    assert_eq!(e.code, 3);
    assert_eq!(Error::Kernel(e).message(), "No such process.");
}
