//! Decisions of the clipboard monitor's message loop and of the supervisor
//! that restarts it.
use vstd::prelude::*;
use crate::capture::CaptureTracker;
use crate::suppress::{Suppression, flags_clear, opt_text, saturating_diff, saturating_sub_i64, STUCK_WRITE_MS};

verus! {

/// Win32 `WM_APP`: the message the application posts to make the monitor stop.
pub const WM_APP: u32 = 0x8000;
/// Win32 `WM_CLIPBOARDUPDATE`.
pub const WM_CLIPBOARDUPDATE: u32 = 0x031D;
/// Win32 `WM_POWERBROADCAST`.
pub const WM_POWERBROADCAST: u32 = 0x0218;
/// Win32 `WM_TIMER`.
pub const WM_TIMER: u32 = 0x0113;
/// `PBT_APMRESUMEAUTOMATIC`: the system resumed from sleep or hibernation.
pub const PBT_APMRESUMEAUTOMATIC: usize = 0x0012;
/// `PBT_APMRESUMESUSPEND`: the user resumed the system from sleep.
pub const PBT_APMRESUMESUSPEND: usize = 0x0007;
/// Interval of the monitor's heartbeat timer.
pub const HEARTBEAT_INTERVAL_MS: u32 = 30000;
/// Interval between status reports of the polling monitor.
pub const STATUS_INTERVAL_MS: i64 = 30000;

/// What the message loop received.
#[derive(PartialEq, Eq, Structural, Clone, Copy)]
pub enum MonitorMessage {
    /// `GetMessageW` returned 0 (`WM_QUIT`).
    Quit,
    /// `GetMessageW` returned an error.
    Failed,
    /// The application asked the monitor to stop (`WM_APP`).
    Shutdown,
    /// The clipboard changed.
    ClipboardUpdate,
    /// A power event with its `wParam`.
    PowerBroadcast { event: usize },
    /// The heartbeat timer fired.
    Timer,
    /// Anything else.
    Other,
}

/// The power event says the system has resumed.
pub open spec fn is_resume_event(event: usize) -> bool {
    event == PBT_APMRESUMEAUTOMATIC || event == PBT_APMRESUMESUSPEND
}

/// The message that `GetMessageW`'s result `ret`, the message number and
/// its `wParam` make.
pub open spec fn message_kind(ret: i32, message: u32, wparam: usize) -> MonitorMessage {
    if ret == 0 {
        MonitorMessage::Quit
    } else if ret < 0 {
        MonitorMessage::Failed
    } else if message == WM_APP {
        MonitorMessage::Shutdown
    } else if message == WM_CLIPBOARDUPDATE {
        MonitorMessage::ClipboardUpdate
    } else if message == WM_POWERBROADCAST {
        MonitorMessage::PowerBroadcast { event: wparam }
    } else if message == WM_TIMER {
        MonitorMessage::Timer
    } else {
        MonitorMessage::Other
    }
}

/// Sorts what `GetMessageW` returned.
pub fn classify_message(ret: i32, message: u32, wparam: usize) -> (m: MonitorMessage)
    ensures
        m == message_kind(ret, message, wparam),
{
    if ret == 0 {
        MonitorMessage::Quit
    } else if ret < 0 {
        MonitorMessage::Failed
    } else if message == WM_APP {
        MonitorMessage::Shutdown
    } else if message == WM_CLIPBOARDUPDATE {
        MonitorMessage::ClipboardUpdate
    } else if message == WM_POWERBROADCAST {
        MonitorMessage::PowerBroadcast { event: wparam }
    } else if message == WM_TIMER {
        MonitorMessage::Timer
    } else {
        MonitorMessage::Other
    }
}

/// What the loop does with a message.
#[derive(PartialEq, Eq, Structural, Clone, Copy)]
pub enum MonitorAction {
    /// Leave the loop and tear the listener down.
    Stop,
    /// Read the clipboard (a capture session).
    Capture,
    /// The system woke up: report it, re-register the listener and reopen
    /// the clipboard, then call `after_recovery`.
    Recover,
    /// Heartbeat: compare the clipboard sequence number with the last one
    /// (`heartbeat_missed`), read the clipboard if it moved, then call
    /// `finish_heartbeat`.
    Heartbeat,
    /// Nothing to do.
    Continue,
}

/// The action for a message.
pub open spec fn action_for(msg: MonitorMessage) -> MonitorAction {
    match msg {
        MonitorMessage::Quit => MonitorAction::Stop,
        MonitorMessage::Failed => MonitorAction::Stop,
        MonitorMessage::Shutdown => MonitorAction::Stop,
        MonitorMessage::ClipboardUpdate => MonitorAction::Capture,
        MonitorMessage::PowerBroadcast { event } => if is_resume_event(event) {
            MonitorAction::Recover
        } else {
            MonitorAction::Continue
        },
        MonitorMessage::Timer => MonitorAction::Heartbeat,
        MonitorMessage::Other => MonitorAction::Continue,
    }
}

/// The state of one run of the monitor's message loop.
pub struct MonitorLoop {
    /// The loop is stopping because the application asked it to.
    pub voluntary_exit: bool,
}

impl MonitorLoop {
    /// A loop that has not been asked to stop.
    pub fn new() -> (m: Self)
        ensures
            !m.voluntary_exit,
    {
        MonitorLoop { voluntary_exit: false }
    }

    /// Handles one message.
    pub fn on_message(&mut self, msg: MonitorMessage) -> (a: MonitorAction)
        ensures
            a == action_for(msg),
            final(self).voluntary_exit == (old(self).voluntary_exit || msg == MonitorMessage::Shutdown),
    {
        match msg {
            MonitorMessage::Quit => MonitorAction::Stop,
            MonitorMessage::Failed => MonitorAction::Stop,
            MonitorMessage::Shutdown => {
                self.voluntary_exit = true;
                MonitorAction::Stop
            },
            MonitorMessage::ClipboardUpdate => MonitorAction::Capture,
            MonitorMessage::PowerBroadcast { event } => {
                if event == PBT_APMRESUMEAUTOMATIC || event == PBT_APMRESUMESUSPEND {
                    MonitorAction::Recover
                } else {
                    MonitorAction::Continue
                }
            },
            MonitorMessage::Timer => MonitorAction::Heartbeat,
            MonitorMessage::Other => MonitorAction::Continue,
        }
    }

    /// After a wake-up: when the listener was re-registered and the
    /// clipboard reopened, everything remembered and every suppression is
    /// dropped and the clipboard is read; otherwise the loop stops so that
    /// the supervisor starts a fresh monitor.
    pub fn after_recovery(
        &self,
        tracker: &mut CaptureTracker,
        flags: &mut Suppression,
        reregistered: bool,
        clipboard_ready: bool,
    ) -> (a: MonitorAction)
        ensures
            !(reregistered && clipboard_ready) ==> a == MonitorAction::Stop
                && final(tracker).last_seq == old(tracker).last_seq
                && final(tracker).last_img == old(tracker).last_img
                && final(flags).skip_monitor == old(flags).skip_monitor
                && final(flags).last_clipboard_write_ms == old(flags).last_clipboard_write_ms
                && final(flags).is_internal_pasting == old(flags).is_internal_pasting,
            reregistered && clipboard_ready ==> a == MonitorAction::Capture
                && final(tracker).last_seq == 0 && final(tracker).last_img == 0
                && flags_clear(*final(flags)),
            final(tracker).last_text@ == old(tracker).last_text@,
            opt_text(final(flags).ignore_signature) == opt_text(old(flags).ignore_signature),
    {
        if !(reregistered && clipboard_ready) {
            return MonitorAction::Stop;
        }
        tracker.forget();
        flags.clear_for_restart();
        MonitorAction::Capture
    }

    /// Whether the monitor marks itself dead when the loop ends: it does
    /// unless it stopped because it was asked to.
    pub fn marks_dead(&self) -> (dead: bool)
        ensures
            dead == !self.voluntary_exit,
    {
        !self.voluntary_exit
    }
}

/// The heartbeat saw a clipboard change that no notification reported.
pub fn heartbeat_missed(tracker: &CaptureTracker, current_seq: u32) -> (missed: bool)
    ensures
        missed == (current_seq != 0 && current_seq != tracker.last_seq),
{
    current_seq != 0 && current_seq != tracker.last_seq
}

/// Ends a heartbeat: if the clipboard was read because of `captured_seq`,
/// that sequence number becomes the last one; a write stuck for more than
/// `STUCK_WRITE_MS` is released.
pub fn finish_heartbeat(
    tracker: &mut CaptureTracker,
    flags: &mut Suppression,
    captured_seq: Option<u32>,
    now_ms: i64,
)
    ensures
        final(tracker).last_seq == (match captured_seq {
            Some(s) => s,
            None => old(tracker).last_seq,
        }),
        final(tracker).last_img == old(tracker).last_img,
        final(tracker).last_text@ == old(tracker).last_text@,
        ({
            let t = old(flags).last_clipboard_write_ms;
            if t > 0 && saturating_diff(now_ms, t) > STUCK_WRITE_MS {
                !final(flags).skip_monitor && final(flags).last_clipboard_write_ms == 0
            } else {
                final(flags).skip_monitor == old(flags).skip_monitor
                    && final(flags).last_clipboard_write_ms == t
            }
        }),
        final(flags).is_internal_pasting == old(flags).is_internal_pasting,
        opt_text(final(flags).ignore_signature) == opt_text(old(flags).ignore_signature),
{
    if let Some(s) = captured_seq {
        tracker.last_seq = s;
    }
    flags.release_stuck_write(now_ms);
}

/// When the polling monitor last reported its status.
pub struct StatusBeat {
    pub last_status_ms: i64,
}

impl StatusBeat {
    /// No report yet.
    pub fn new() -> (b: Self)
        ensures
            b.last_status_ms == 0,
    {
        StatusBeat { last_status_ms: 0 }
    }

    /// Whether a status report is due at `now_ms` (none yet, or the last more
    /// than `STATUS_INTERVAL_MS` ago); if so, `now_ms` becomes the last one.
    pub fn report_due(&mut self, now_ms: i64) -> (due: bool)
        ensures
            due == (old(self).last_status_ms == 0 || saturating_diff(now_ms, old(self).last_status_ms)
                > STATUS_INTERVAL_MS),
            final(self).last_status_ms == (if due { now_ms } else { old(self).last_status_ms }),
    {
        let due = self.last_status_ms == 0 || saturating_sub_i64(now_ms, self.last_status_ms)
            > STATUS_INTERVAL_MS;
        if due {
            self.last_status_ms = now_ms;
        }
        due
    }
}

/// How a run of the monitor ended.
#[derive(PartialEq, Eq, Structural, Clone, Copy)]
pub enum MonitorEnd {
    /// The monitor returned; `still_alive` is its alive flag at that moment.
    Returned { still_alive: bool },
    /// The monitor's thread panicked.
    Panicked,
}

/// A crash the supervisor reports.
#[derive(PartialEq, Eq, Structural, Clone, Copy)]
pub enum CrashKind {
    /// The monitor returned having marked itself dead.
    InitFailed,
    /// The monitor's thread panicked.
    Panic,
}

/// What the supervisor does after a run of the monitor.
pub struct RestartPlan {
    /// The crash to report, if any.
    pub crash: Option<CrashKind>,
    /// Crashes since the last run that ended on request.
    pub crash_count: u32,
    /// How long to wait before starting the next run.
    pub back_off_ms: u64,
}

/// The crash that a run's end stands for.
pub open spec fn crash_for(end: MonitorEnd) -> Option<CrashKind> {
    match end {
        MonitorEnd::Returned { still_alive } => if still_alive { None } else {
            Some(CrashKind::InitFailed)
        },
        MonitorEnd::Panicked => Some(CrashKind::Panic),
    }
}

/// The crash count after a run's end: one more for a crash, zero for a run
/// that ended on request.
pub open spec fn next_crash_count(count: u32, end: MonitorEnd) -> int {
    if crash_for(end) is Some {
        count + 1
    } else {
        0
    }
}

/// The wait before the next run: 100 ms after a clean end, else 500 ms per
/// crash, at most ten crashes counted.
pub open spec fn back_off_for(count: u32) -> u64 {
    if count > 0 {
        (500 * (if count < 10 { count as int } else { 10 })) as u64
    } else {
        100
    }
}

/// Crashes counted by the supervisor.
pub struct Supervision {
    pub crash_count: u32,
}

impl Supervision {
    /// No crash yet.
    pub fn new() -> (s: Self)
        ensures
            s.crash_count == 0,
    {
        Supervision { crash_count: 0 }
    }

    /// A run of the monitor ended: count the crash (or reset the count),
    /// clear the suppression flags, and choose the back-off.
    pub fn on_monitor_end(&mut self, flags: &mut Suppression, end: MonitorEnd) -> (plan: RestartPlan)
        requires
            crash_for(end) is Some ==> old(self).crash_count < u32::MAX,
        ensures
            plan.crash == crash_for(end),
            final(self).crash_count == next_crash_count(old(self).crash_count, end),
            plan.crash_count == final(self).crash_count,
            plan.back_off_ms == back_off_for(final(self).crash_count),
            flags_clear(*final(flags)),
            opt_text(final(flags).ignore_signature) == opt_text(old(flags).ignore_signature),
    {
        let crash = match end {
            MonitorEnd::Returned { still_alive } => if still_alive { None } else {
                Some(CrashKind::InitFailed)
            },
            MonitorEnd::Panicked => Some(CrashKind::Panic),
        };
        if crash.is_some() {
            self.crash_count = self.crash_count + 1;
        } else {
            self.crash_count = 0;
        }
        flags.clear_for_restart();
        let counted: u64 = if self.crash_count < 10 { self.crash_count as u64 } else { 10 };
        let back_off_ms: u64 = if self.crash_count > 0 { 500 * counted } else { 100 };
        RestartPlan { crash, crash_count: self.crash_count, back_off_ms }
    }
}

/// How a restart of the monitor is requested.
#[derive(PartialEq, Eq, Structural, Clone, Copy)]
pub enum RestartRequest {
    /// Post `WM_APP` to the listener window.
    PostShutdown,
    /// There is no listener window: mark the monitor dead so the supervisor
    /// starts a new one.
    MarkDead,
}

/// How to restart the monitor whose listener window handle is `monitor_hwnd`.
pub fn restart_request(monitor_hwnd: isize) -> (r: RestartRequest)
    ensures
        r == (if monitor_hwnd != 0 { RestartRequest::PostShutdown } else { RestartRequest::MarkDead }),
{
    if monitor_hwnd != 0 {
        RestartRequest::PostShutdown
    } else {
        RestartRequest::MarkDead
    }
}

/// The restart command: clears the suppression flags, then says how to
/// restart the monitor.
pub fn request_restart(flags: &mut Suppression, monitor_hwnd: isize) -> (r: RestartRequest)
    ensures
        flags_clear(*final(flags)),
        opt_text(final(flags).ignore_signature) == opt_text(old(flags).ignore_signature),
        r == (if monitor_hwnd != 0 { RestartRequest::PostShutdown } else { RestartRequest::MarkDead }),
{
    flags.clear_for_restart();
    restart_request(monitor_hwnd)
}

/// The supervisor never waits less than 100 ms nor more than 5 s.
pub proof fn law_back_off_bounded(count: u32)
    ensures
        100 <= back_off_for(count) <= 5000,
{
}

/// A monitor that stops because it was asked to (the shutdown message) does
/// not mark itself dead, so the supervisor restarts it without reporting a
/// crash, resets the crash count and waits only 100 ms; a monitor whose loop
/// stops for any other reason marks itself dead and is reported.
/// (`still_alive` is the alive flag the monitor leaves: `!marks_dead()`,
/// that is the loop's `voluntary_exit` after `on_message`.)
pub proof fn law_requested_stop_is_not_a_crash(count: u32, msg: MonitorMessage)
    requires
        action_for(msg) == MonitorAction::Stop,
    ensures
        ({
            let voluntary = msg == MonitorMessage::Shutdown;
            let end = MonitorEnd::Returned { still_alive: voluntary };
            &&& (crash_for(end) is None <==> msg == MonitorMessage::Shutdown)
            &&& msg == MonitorMessage::Shutdown ==> next_crash_count(count, end) == 0
                && back_off_for(0) == 100
        }),
{
}

} // verus!
