use base64::Engine;
use clipflow::capture::{
    keep_latest_from_setting, CaptureAction, CaptureMode, CaptureSession, CaptureStage,
    CaptureTracker, ClipImage,
};
use clipflow::suppress::Suppression;
use clipflow::transfer::{clipboard_write_for, ClipboardWrite};

fn persist(a: &CaptureAction) -> Option<(String, String, Option<i64>)> {
    match a {
        CaptureAction::Persist { content, category, keep_latest } => {
            Some((content.clone(), category.clone(), *keep_latest))
        }
        _ => None,
    }
}

fn finished(a: &CaptureAction) -> Option<bool> {
    match a {
        CaptureAction::Finish { recorded } => Some(*recorded),
        _ => None,
    }
}

/// Runs one reading with no image on the clipboard and the given text.
fn read_text(
    mode: CaptureMode,
    tracker: &mut CaptureTracker,
    flags: &mut Suppression,
    text: Option<&str>,
    seq: u32,
    privacy: &str,
    limit: &str,
) -> CaptureAction {
    let mut s = CaptureSession::new(mode);
    let a = s.begin(flags, 1_000_000);
    if finished(&a).is_some() {
        return a;
    }
    let a = s.image_read(tracker, flags, None);
    assert!(matches!(a, CaptureAction::ReadText));
    let a = s.text_read(tracker, flags, text.map(String::from), seq);
    if !matches!(a, CaptureAction::ReadSettings) {
        return a;
    }
    s.settings_read(privacy, limit)
}

#[test]
fn notified_text_is_recorded_once_per_sequence() {
    let mut tracker = CaptureTracker::new();
    let mut flags = Suppression::new();
    let a = read_text(CaptureMode::Notified, &mut tracker, &mut flags, Some("hello"), 5, "false", "50");
    assert_eq!(persist(&a), Some(("hello".to_string(), "text".to_string(), Some(50))));
    assert_eq!(tracker.last_seq, 5);
    let a = read_text(CaptureMode::Notified, &mut tracker, &mut flags, Some("hello"), 5, "false", "50");
    assert_eq!(finished(&a), Some(false));
    let a = read_text(CaptureMode::Notified, &mut tracker, &mut flags, Some("hello"), 6, "false", "50");
    assert!(persist(&a).is_some());
    let a = read_text(CaptureMode::Notified, &mut tracker, &mut flags, Some("x"), 0, "false", "50");
    assert_eq!(finished(&a), Some(false));
}

#[test]
fn empty_or_missing_text_is_not_recorded() {
    let mut tracker = CaptureTracker::new();
    let mut flags = Suppression::new();
    let a = read_text(CaptureMode::Notified, &mut tracker, &mut flags, Some(""), 9, "false", "50");
    assert_eq!(finished(&a), Some(false));
    let a = read_text(CaptureMode::Notified, &mut tracker, &mut flags, None, 9, "false", "50");
    assert_eq!(finished(&a), Some(false));
    assert_eq!(tracker.last_seq, 0);
}

#[test]
fn polled_text_is_recorded_when_it_changes() {
    let mut tracker = CaptureTracker::new();
    let mut flags = Suppression::new();
    let a = read_text(CaptureMode::Polled, &mut tracker, &mut flags, Some("let x = 1;"), 0, "false", "7");
    assert_eq!(persist(&a), Some(("let x = 1;".to_string(), "code".to_string(), Some(200))));
    let a = read_text(CaptureMode::Polled, &mut tracker, &mut flags, Some("let x = 1;"), 0, "false", "7");
    assert_eq!(finished(&a), Some(false));
    assert_eq!(tracker.last_text, "let x = 1;");
}

#[test]
fn privacy_mode_records_nothing() {
    let mut tracker = CaptureTracker::new();
    let mut flags = Suppression::new();
    let a = read_text(CaptureMode::Notified, &mut tracker, &mut flags, Some("secret"), 3, "true", "50");
    assert_eq!(finished(&a), Some(false));
}

#[test]
fn history_limit_setting() {
    assert_eq!(keep_latest_from_setting("50"), Some(50));
    assert_eq!(keep_latest_from_setting("abc"), Some(200));
    assert_eq!(keep_latest_from_setting(""), Some(200));
    assert_eq!(keep_latest_from_setting("0"), None);
    assert_eq!(keep_latest_from_setting("-3"), None);
}

#[test]
fn own_copy_is_skipped_once() {
    let mut tracker = CaptureTracker::new();
    let mut flags = Suppression::new();
    flags.expect_own_copy("pasted text");
    let a = read_text(CaptureMode::Notified, &mut tracker, &mut flags, Some("pasted text"), 1, "false", "50");
    assert_eq!(finished(&a), Some(false));
    assert!(flags.ignore_signature.is_none());
    let a = read_text(CaptureMode::Notified, &mut tracker, &mut flags, Some("pasted text"), 2, "false", "50");
    assert!(persist(&a).is_some());
}

#[test]
fn suppressed_monitor_reads_nothing() {
    let mut tracker = CaptureTracker::new();
    let mut flags = Suppression::new();
    flags.pause_monitor();
    let mut s = CaptureSession::new(CaptureMode::Notified);
    assert_eq!(finished(&s.begin(&flags, 10)), Some(false));
    assert!(s.stage == CaptureStage::Finished);
    // A later call out of order also finishes without effect.
    let a = s.text_read(&mut tracker, &mut flags, Some("x".to_string()), 4);
    assert_eq!(finished(&a), Some(false));
    assert_eq!(tracker.last_seq, 0);
}

#[test]
fn recent_write_suppresses_for_800_ms() {
    let mut flags = Suppression::new();
    flags.mark_write(10_000);
    assert!(flags.is_suppressed(10_799));
    assert!(!flags.is_suppressed(10_800));
    assert!(flags.is_suppressed(5_000));
}

#[test]
fn new_clipboard_image_becomes_png_data_url() {
    let mut tracker = CaptureTracker::new();
    let mut flags = Suppression::new();
    let pixel = vec![255u8, 0, 0, 255];
    let mut s = CaptureSession::new(CaptureMode::Polled);
    assert!(matches!(s.begin(&flags, 1), CaptureAction::ReadImage));
    let img = ClipImage { width: 1, height: 1, bytes: pixel.clone() };
    let a = s.image_read(&mut tracker, &mut flags, Some(img));
    assert!(matches!(a, CaptureAction::ReadSettings));
    assert_eq!(tracker.last_img, 5);
    let a = s.settings_read("false", "1");
    let (content, category, keep) = persist(&a).unwrap();
    assert_eq!(category, "image");
    assert_eq!(keep, Some(200));
    let prefix = "data:image/png;base64,";
    assert!(content.starts_with(prefix));
    let png = base64::engine::general_purpose::STANDARD.decode(&content[prefix.len()..]).unwrap();
    let decoded = image::load_from_memory(&png).unwrap().to_rgba8();
    assert_eq!(decoded.dimensions(), (1, 1));
    assert_eq!(decoded.into_raw(), pixel);

    // The same image again is not new: the text is read instead.
    let mut s = CaptureSession::new(CaptureMode::Polled);
    s.begin(&flags, 2);
    let img = ClipImage { width: 1, height: 1, bytes: vec![255u8, 0, 0, 255] };
    assert!(matches!(s.image_read(&mut tracker, &mut flags, Some(img)), CaptureAction::ReadText));
}

#[test]
fn captured_image_pastes_back_unchanged() {
    let pixels: Vec<u8> = vec![1, 2, 3, 4, 5, 6, 7, 8, 9, 10, 11, 12];
    let mut tracker = CaptureTracker::new();
    let mut flags = Suppression::new();
    let mut s = CaptureSession::new(CaptureMode::Notified);
    s.begin(&flags, 1);
    let img = ClipImage { width: 3, height: 1, bytes: pixels.clone() };
    assert!(matches!(s.image_read(&mut tracker, &mut flags, Some(img)), CaptureAction::ReadSettings));
    let (content, category, _) = persist(&s.settings_read("false", "10")).unwrap();
    assert_eq!(category, "image");
    match clipboard_write_for(&content) {
        Ok(ClipboardWrite::Image(back)) => {
            assert_eq!((back.width, back.height), (3, 1));
            assert_eq!(back.pixels, pixels);
        }
        _ => panic!("expected an image write"),
    }
}
