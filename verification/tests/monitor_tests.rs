use clipflow::capture::CaptureTracker;
use clipflow::monitor::{
    classify_message, finish_heartbeat, heartbeat_missed, request_restart, restart_request,
    CrashKind, MonitorAction, MonitorEnd, MonitorLoop, MonitorMessage, RestartRequest,
    StatusBeat, Supervision,
};
use clipflow::suppress::{saturating_sub_i64, Suppression};

#[test]
fn messages_are_classified() {
    assert!(classify_message(0, 0x8000, 0) == MonitorMessage::Quit);
    assert!(classify_message(-1, 0x031D, 0) == MonitorMessage::Failed);
    assert!(classify_message(1, 0x8000, 0) == MonitorMessage::Shutdown);
    assert!(classify_message(1, 0x031D, 0) == MonitorMessage::ClipboardUpdate);
    assert!(classify_message(1, 0x0218, 0x12) == MonitorMessage::PowerBroadcast { event: 0x12 });
    assert!(classify_message(1, 0x0113, 0) == MonitorMessage::Timer);
    assert!(classify_message(1, 0x0001, 0) == MonitorMessage::Other);
}

#[test]
fn shutdown_is_voluntary() {
    let mut l = MonitorLoop::new();
    assert!(l.on_message(MonitorMessage::ClipboardUpdate) == MonitorAction::Capture);
    assert!(l.marks_dead());
    assert!(l.on_message(MonitorMessage::Shutdown) == MonitorAction::Stop);
    assert!(!l.marks_dead());
    let mut l = MonitorLoop::new();
    assert!(l.on_message(MonitorMessage::Failed) == MonitorAction::Stop);
    assert!(l.marks_dead());
}

#[test]
fn resume_events_rebuild_the_listener() {
    let mut l = MonitorLoop::new();
    assert!(l.on_message(MonitorMessage::PowerBroadcast { event: 0x12 }) == MonitorAction::Recover);
    assert!(l.on_message(MonitorMessage::PowerBroadcast { event: 0x7 }) == MonitorAction::Recover);
    assert!(l.on_message(MonitorMessage::PowerBroadcast { event: 0x4 }) == MonitorAction::Continue);
    assert!(l.on_message(MonitorMessage::Timer) == MonitorAction::Heartbeat);
}

#[test]
fn recovery_resets_or_stops() {
    let l = MonitorLoop::new();
    let mut tracker = CaptureTracker::new();
    tracker.last_seq = 9;
    tracker.last_img = 4;
    let mut flags = Suppression::new();
    flags.pause_monitor();
    flags.set_internal_pasting(true);
    assert!(l.after_recovery(&mut tracker, &mut flags, true, false) == MonitorAction::Stop);
    assert_eq!(tracker.last_seq, 9);
    assert!(flags.skip_monitor);
    assert!(l.after_recovery(&mut tracker, &mut flags, true, true) == MonitorAction::Capture);
    assert_eq!((tracker.last_seq, tracker.last_img), (0, 0));
    assert!(!flags.skip_monitor && !flags.is_internal_pasting);
    assert!(!flags.is_suppressed(123));
}

#[test]
fn heartbeat_catches_missed_changes_and_stuck_writes() {
    let mut tracker = CaptureTracker::new();
    tracker.last_seq = 3;
    assert!(heartbeat_missed(&tracker, 4));
    assert!(!heartbeat_missed(&tracker, 3));
    assert!(!heartbeat_missed(&tracker, 0));
    let mut flags = Suppression::new();
    flags.mark_write(1_000);
    flags.pause_monitor();
    finish_heartbeat(&mut tracker, &mut flags, Some(4), 6_000);
    assert_eq!(tracker.last_seq, 4);
    assert!(flags.skip_monitor);
    finish_heartbeat(&mut tracker, &mut flags, None, 6_001);
    assert_eq!(tracker.last_seq, 4);
    assert!(!flags.skip_monitor);
    assert_eq!(flags.last_clipboard_write_ms, 0);
}

#[test]
fn status_reported_every_thirty_seconds() {
    let mut b = StatusBeat::new();
    assert!(b.report_due(5));
    assert!(!b.report_due(30_005));
    assert!(b.report_due(30_006));
    assert_eq!(b.last_status_ms, 30_006);
}

#[test]
fn supervisor_counts_crashes_and_backs_off() {
    let mut s = Supervision::new();
    let mut flags = Suppression::new();
    flags.pause_monitor();
    let p = s.on_monitor_end(&mut flags, MonitorEnd::Panicked);
    assert!(p.crash == Some(CrashKind::Panic));
    assert_eq!((p.crash_count, p.back_off_ms), (1, 500));
    assert!(!flags.skip_monitor);
    let p = s.on_monitor_end(&mut flags, MonitorEnd::Returned { still_alive: false });
    assert!(p.crash == Some(CrashKind::InitFailed));
    assert_eq!((p.crash_count, p.back_off_ms), (2, 1000));
    for _ in 0..10 {
        s.on_monitor_end(&mut flags, MonitorEnd::Panicked);
    }
    let p = s.on_monitor_end(&mut flags, MonitorEnd::Panicked);
    assert_eq!((p.crash_count, p.back_off_ms), (13, 5000));
    let p = s.on_monitor_end(&mut flags, MonitorEnd::Returned { still_alive: true });
    assert!(p.crash.is_none());
    assert_eq!((p.crash_count, p.back_off_ms), (0, 100));
}

#[test]
fn restart_requests() {
    assert!(restart_request(0) == RestartRequest::MarkDead);
    assert!(restart_request(77) == RestartRequest::PostShutdown);
    let mut flags = Suppression::new();
    flags.mark_write(5);
    flags.expect_own_copy("x");
    assert!(request_restart(&mut flags, 12) == RestartRequest::PostShutdown);
    assert_eq!(flags.last_clipboard_write_ms, 0);
    assert!(flags.ignore_signature.is_some());
    flags.clear_all();
    assert!(flags.ignore_signature.is_none());
}

#[test]
fn saturating_difference() {
    assert_eq!(saturating_sub_i64(i64::MIN, 1), i64::MIN);
    assert_eq!(saturating_sub_i64(i64::MAX, -1), i64::MAX);
    assert_eq!(saturating_sub_i64(10, 3), 7);
}
