use shunt::report::{
    format_i32, format_u64, render_signal_line, render_status, ExitKind, ProcessTracker,
    WaitOutcome,
};

#[test]
fn report_decimal_digits() {
    assert_eq!(format_u64(0).as_str(), "0");
    assert_eq!(format_u64(7).as_str(), "7");
    assert_eq!(format_u64(42).as_str(), "42");
    assert_eq!(format_u64(1000).as_str(), "1000");
    assert_eq!(format_u64(u64::MAX).as_str(), "18446744073709551615");
}

#[test]
fn report_signed_digits() {
    assert_eq!(format_i32(0).as_str(), "0");
    assert_eq!(format_i32(-1).as_str(), "-1");
    assert_eq!(format_i32(i32::MIN).as_str(), "-2147483648");
    assert_eq!(format_i32(i32::MAX).as_str(), "2147483647");
}

#[test]
fn report_status_text() {
    assert_eq!(render_status(ExitKind::Code(0)).as_str(), "exit status: 0");
    assert_eq!(render_status(ExitKind::Code(1)).as_str(), "exit status: 1");
    assert_eq!(render_status(ExitKind::Signal(15)).as_str(), "signal: 15");
}

#[test]
fn report_exit_reported_with_status_preserved() {
    let mut tracker = ProcessTracker::new(String::from("serve"));
    let line = tracker.record(WaitOutcome::Exited(ExitKind::Code(0)));
    assert_eq!(line.as_str(), "serve finished: exit status: 0");
}

#[test]
fn report_signal_exit() {
    let mut tracker = ProcessTracker::new(String::from("watch"));
    let line = tracker.record(WaitOutcome::Exited(ExitKind::Signal(9)));
    assert_eq!(line.as_str(), "watch finished: signal: 9");
}

#[test]
fn report_wait_failure_is_reported_not_escalated() {
    let mut tracker = ProcessTracker::new(String::from("job"));
    let line = tracker.record(WaitOutcome::WaitFailed(String::from("no child process")));
    assert_eq!(line.as_str(), "job failed to be waited on: no child process");
}

#[test]
fn report_signal_receipt_line() {
    assert_eq!(render_signal_line(2).as_str(), "received signal 2");
    assert_eq!(render_signal_line(15).as_str(), "received signal 15");
}
