//! The flags that keep the clipboard monitor from recording what the
//! application itself writes to the clipboard.
use vstd::prelude::*;
use crate::content::{signature_of, signature_for};

verus! {

broadcast use vstd::string::group_string_axioms;

/// Milliseconds after a clipboard write during which the monitor stays quiet.
pub const WRITE_QUIET_MS: i64 = 800;

/// Milliseconds after which a write that never released the monitor is
/// considered stuck, and the heartbeat releases it.
pub const STUCK_WRITE_MS: i64 = 5000;

/// `a - b` as `i64::saturating_sub` computes it.
pub open spec fn saturating_diff(a: i64, b: i64) -> int {
    let d = a - b;
    if d > i64::MAX {
        i64::MAX as int
    } else if d < i64::MIN {
        i64::MIN as int
    } else {
        d
    }
}

/// `a.saturating_sub(b)` on `i64`.
pub fn saturating_sub_i64(a: i64, b: i64) -> (d: i64)
    ensures
        d == saturating_diff(a, b),
{
    let wide: i128 = a as i128 - b as i128;
    if wide > i64::MAX as i128 {
        i64::MAX
    } else if wide < i64::MIN as i128 {
        i64::MIN
    } else {
        wide as i64
    }
}

/// The optional text inside an optional `String`.
pub open spec fn opt_text(o: Option<String>) -> Option<Seq<char>> {
    match o {
        Some(s) => Some(s@),
        None => None,
    }
}

/// Suppression state shared by the clipboard monitor and the commands that
/// write to the clipboard.
pub struct Suppression {
    /// The monitor is paused while a write is in progress.
    pub skip_monitor: bool,
    /// When the last write to the clipboard started (ms since the epoch; 0 = none).
    pub last_clipboard_write_ms: i64,
    /// An internal paste is writing to the clipboard.
    pub is_internal_pasting: bool,
    /// Signature of content the application just put on the clipboard; the
    /// monitor skips it once.
    pub ignore_signature: Option<String>,
}

/// A write started less than `WRITE_QUIET_MS` ago.
pub open spec fn write_is_recent(write_ms: i64, now_ms: i64) -> bool {
    write_ms > 0 && saturating_diff(now_ms, write_ms) < WRITE_QUIET_MS
}

/// The monitor must not read the clipboard at `now_ms`.
pub open spec fn suppressed_at(s: Suppression, now_ms: i64) -> bool {
    write_is_recent(s.last_clipboard_write_ms, now_ms) || s.skip_monitor || s.is_internal_pasting
}

/// The mark `mark` makes the monitor skip `content`.
pub open spec fn ignore_matches(mark: Option<Seq<char>>, content: Seq<char>) -> bool {
    mark == Some(signature_of(content))
}

/// The three flags that can pause the monitor are all clear.
pub open spec fn flags_clear(s: Suppression) -> bool {
    !s.skip_monitor && s.last_clipboard_write_ms == 0 && !s.is_internal_pasting
}

impl Suppression {
    /// Nothing suppressed: the state the application starts in.
    pub fn new() -> (s: Self)
        ensures
            flags_clear(s),
            s.ignore_signature is None,
    {
        Suppression {
            skip_monitor: false,
            last_clipboard_write_ms: 0,
            is_internal_pasting: false,
            ignore_signature: None,
        }
    }

    /// Whether the monitor must leave the clipboard alone at `now_ms`.
    pub fn is_suppressed(&self, now_ms: i64) -> (r: bool)
        ensures
            r == suppressed_at(*self, now_ms),
    {
        let t = self.last_clipboard_write_ms;
        (t > 0 && saturating_sub_i64(now_ms, t) < WRITE_QUIET_MS) || self.skip_monitor
            || self.is_internal_pasting
    }

    /// Clears the pause, the write time and the paste flag, as a restart of
    /// the monitor (by the supervisor, the restart command or a wake-up from
    /// sleep) does. The ignored signature stays.
    pub fn clear_for_restart(&mut self)
        ensures
            flags_clear(*final(self)),
            opt_text(final(self).ignore_signature) == opt_text(old(self).ignore_signature),
    {
        self.skip_monitor = false;
        self.last_clipboard_write_ms = 0;
        self.is_internal_pasting = false;
    }

    /// Clears every suppression, the ignored signature included, as a forced
    /// sync does.
    pub fn clear_all(&mut self)
        ensures
            flags_clear(*final(self)),
            final(self).ignore_signature is None,
    {
        self.clear_for_restart();
        self.ignore_signature = None;
    }

    /// Releases the monitor after a clipboard write: no pause, no write time.
    pub fn release_monitor(&mut self)
        ensures
            !final(self).skip_monitor,
            final(self).last_clipboard_write_ms == 0,
            final(self).is_internal_pasting == old(self).is_internal_pasting,
            opt_text(final(self).ignore_signature) == opt_text(old(self).ignore_signature),
    {
        self.skip_monitor = false;
        self.last_clipboard_write_ms = 0;
    }

    /// Records that a clipboard write starts at `now_ms`.
    pub fn mark_write(&mut self, now_ms: i64)
        ensures
            final(self).last_clipboard_write_ms == now_ms,
            final(self).skip_monitor == old(self).skip_monitor,
            final(self).is_internal_pasting == old(self).is_internal_pasting,
            opt_text(final(self).ignore_signature) == opt_text(old(self).ignore_signature),
    {
        self.last_clipboard_write_ms = now_ms;
    }

    /// Pauses the monitor.
    pub fn pause_monitor(&mut self)
        ensures
            final(self).skip_monitor,
            final(self).last_clipboard_write_ms == old(self).last_clipboard_write_ms,
            final(self).is_internal_pasting == old(self).is_internal_pasting,
            opt_text(final(self).ignore_signature) == opt_text(old(self).ignore_signature),
    {
        self.skip_monitor = true;
    }

    /// Sets or clears the internal-paste flag.
    pub fn set_internal_pasting(&mut self, pasting: bool)
        ensures
            final(self).is_internal_pasting == pasting,
            final(self).skip_monitor == old(self).skip_monitor,
            final(self).last_clipboard_write_ms == old(self).last_clipboard_write_ms,
            opt_text(final(self).ignore_signature) == opt_text(old(self).ignore_signature),
    {
        self.is_internal_pasting = pasting;
    }

    /// Marks `content` as the application's own copy: the monitor will skip
    /// it the next time it sees it.
    pub fn expect_own_copy(&mut self, content: &str)
        ensures
            opt_text(final(self).ignore_signature) == Some(signature_of(content@)),
            final(self).skip_monitor == old(self).skip_monitor,
            final(self).last_clipboard_write_ms == old(self).last_clipboard_write_ms,
            final(self).is_internal_pasting == old(self).is_internal_pasting,
    {
        self.ignore_signature = Some(signature_for(content));
    }

    /// Whether `content` is the application's own copy; if so the mark is
    /// used up.
    pub fn consume_ignore(&mut self, content: &str) -> (ignored: bool)
        ensures
            ignored == ignore_matches(opt_text(old(self).ignore_signature), content@),
            ignored ==> final(self).ignore_signature is None,
            !ignored ==> opt_text(final(self).ignore_signature) == opt_text(
                old(self).ignore_signature,
            ),
            final(self).skip_monitor == old(self).skip_monitor,
            final(self).last_clipboard_write_ms == old(self).last_clipboard_write_ms,
            final(self).is_internal_pasting == old(self).is_internal_pasting,
    {
        let sig = signature_for(content);
        let same = match &self.ignore_signature {
            Some(s) => *s == sig,
            None => false,
        };
        if same {
            self.ignore_signature = None;
        }
        same
    }

    /// The heartbeat: a write that started more than `STUCK_WRITE_MS` ago
    /// without releasing the monitor is released now.
    pub fn release_stuck_write(&mut self, now_ms: i64)
        ensures
            ({
                let t = old(self).last_clipboard_write_ms;
                if t > 0 && saturating_diff(now_ms, t) > STUCK_WRITE_MS {
                    !final(self).skip_monitor && final(self).last_clipboard_write_ms == 0
                } else {
                    final(self).skip_monitor == old(self).skip_monitor
                        && final(self).last_clipboard_write_ms == t
                }
            }),
            final(self).is_internal_pasting == old(self).is_internal_pasting,
            opt_text(final(self).ignore_signature) == opt_text(old(self).ignore_signature),
    {
        let t = self.last_clipboard_write_ms;
        if t > 0 && saturating_sub_i64(now_ms, t) > STUCK_WRITE_MS {
            self.skip_monitor = false;
            self.last_clipboard_write_ms = 0;
        }
    }
}

/// After a restart of the monitor nothing keeps it from reading the
/// clipboard, whatever the time.
pub proof fn law_restart_unblocks_monitor(after: Suppression, now_ms: i64)
    requires
        flags_clear(after),
    ensures
        !suppressed_at(after, now_ms),
{
}

/// The application's own copy is skipped exactly once: once `content` is
/// marked, seeing it is skipped (and the mark becomes `None`); seeing it
/// again with no mark is not skipped. Content with another signature is
/// never skipped because of the mark.
pub proof fn law_own_copy_skipped_once(content: Seq<char>, other: Seq<char>)
    ensures
        ignore_matches(Some(signature_of(content)), content),
        !ignore_matches(None, content),
        signature_of(other) != signature_of(content) ==> !ignore_matches(
            Some(signature_of(content)),
            other,
        ),
{
}

} // verus!
