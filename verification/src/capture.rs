//! Deciding whether what is on the clipboard is new, and what to record.
//!
//! One reading of the clipboard is a short conversation between the
//! application, which touches the clipboard and the database, and a
//! `CaptureSession`, which decides: first whether the clipboard may be read
//! at all, then whether the image on it is new, else whether its text is new,
//! whether it is the application's own copy, and finally what to store.
use vstd::prelude::*;
use crate::text::parsed_i64;
use crate::text::parse_i64;
use crate::content::{category_of, png_data_url, detect_category, png_to_data_url, data_url_image};
use crate::codec::{png_encoding, encode_png};
use crate::suppress::{Suppression, suppressed_at, ignore_matches, opt_text};

verus! {

broadcast use vstd::string::group_string_axioms;

/// How many history items are kept when the setting cannot be read as a number.
pub const DEFAULT_HISTORY_LIMIT: i64 = 200;

/// How the clipboard is watched: by Win32 change notifications, which carry
/// a clipboard sequence number, or by polling.
#[derive(PartialEq, Eq, Structural, Clone, Copy)]
pub enum CaptureMode {
    Notified,
    Polled,
}

/// An image as read from the clipboard: `width` x `height` RGBA8 pixels.
pub struct ClipImage {
    pub width: usize,
    pub height: usize,
    pub bytes: Vec<u8>,
}

/// The image is what the clipboard hands out: `4 * width * height` bytes,
/// dimensions that fit in `u32`.
pub open spec fn clip_image_ok(img: ClipImage) -> bool {
    &&& img.width <= u32::MAX
    &&& img.height <= u32::MAX
    &&& img.bytes@.len() == 4 * (img.width as int) * (img.height as int)
    &&& img.bytes@.len() + img.width <= usize::MAX
}

/// The number that tells one clipboard image from the last: byte count plus width.
pub open spec fn image_fingerprint(img: ClipImage) -> int {
    img.bytes@.len() + img.width
}

/// The text recorded for a clipboard image: its PNG as a `data:` URL, or
/// `None` when it cannot be encoded.
pub open spec fn image_capture_text(img: ClipImage) -> Option<Seq<char>> {
    match png_encoding(img.width as u32, img.height as u32, img.bytes@) {
        Some(png) => Some(png_data_url(png)),
        None => None,
    }
}

/// An image with fingerprint `fp` is new after the image `last_img`.
pub open spec fn image_is_fresh(fp: int, last_img: int) -> bool {
    fp != last_img && fp > 0
}

/// Text `t` read with sequence number `seq` is new, given the last recorded
/// sequence number and text.
pub open spec fn text_is_fresh(mode: CaptureMode, t: Seq<char>, seq: u32, last_seq: u32, last_text: Seq<char>) -> bool {
    t.len() > 0 && (if mode == CaptureMode::Notified {
        seq != 0 && seq != last_seq
    } else {
        t != last_text
    })
}

/// What the monitor remembers between readings.
pub struct CaptureTracker {
    /// Clipboard sequence number of the last recorded text (notified mode).
    pub last_seq: u32,
    /// Fingerprint of the last recorded image (0 = none).
    pub last_img: usize,
    /// The last recorded text (polled mode).
    pub last_text: String,
}

impl CaptureTracker {
    /// A tracker that has seen nothing.
    pub fn new() -> (t: Self)
        ensures
            t.last_seq == 0,
            t.last_img == 0,
            t.last_text@ == Seq::<char>::empty(),
    {
        CaptureTracker { last_seq: 0, last_img: 0, last_text: String::new() }
    }

    /// Forgets the last image and sequence number, so that whatever is on the
    /// clipboard next counts as new (after a wake-up from sleep).
    pub fn forget(&mut self)
        ensures
            final(self).last_seq == 0,
            final(self).last_img == 0,
            final(self).last_text@ == old(self).last_text@,
    {
        self.last_seq = 0;
        self.last_img = 0;
    }
}

/// Where a reading stands.
#[derive(PartialEq, Eq, Structural, Clone, Copy)]
pub enum CaptureStage {
    Start,
    AwaitImage,
    AwaitText,
    AwaitSettings,
    Finished,
}

/// What the application does next for a reading.
pub enum CaptureAction {
    /// Read the image on the clipboard and hand it to `image_read`.
    ReadImage,
    /// Read the text on the clipboard (and, in notified mode, the sequence
    /// number) and hand them to `text_read`.
    ReadText,
    /// Read the `privacy_mode` and `history_limit` settings and hand them to
    /// `settings_read`.
    ReadSettings,
    /// Store `content` with `category` in the history (replacing an equal
    /// item), keep only the newest `keep_latest` items when it is `Some`, and
    /// tell the window about `content`. The reading recorded something.
    Persist { content: String, category: String, keep_latest: Option<i64> },
    /// The reading is over; `recorded` says whether it recorded something.
    Finish { recorded: bool },
}

/// One reading of the clipboard.
pub struct CaptureSession {
    pub mode: CaptureMode,
    pub stage: CaptureStage,
    /// The content found so far.
    pub content: String,
    /// Its category.
    pub category: String,
}

/// The number of newest items to keep for a `history_limit` setting: the
/// setting read as an integer (200 if it is not one), `None` when that is
/// not positive.
pub open spec fn keep_latest_for(limit_setting: Seq<char>) -> Option<i64> {
    let limit = match parsed_i64(limit_setting) {
        Some(v) => v,
        None => DEFAULT_HISTORY_LIMIT,
    };
    if limit > 0 {
        Some(limit)
    } else {
        None
    }
}

/// Reads the `history_limit` setting as the number of newest items to keep.
pub fn keep_latest_from_setting(limit_setting: &str) -> (r: Option<i64>)
    ensures
        r == keep_latest_for(limit_setting@),
{
    let limit = match parse_i64(limit_setting) {
        Some(v) => v,
        None => DEFAULT_HISTORY_LIMIT,
    };
    if limit > 0 {
        Some(limit)
    } else {
        None
    }
}

/// The action `a` is `Finish` with `recorded`.
pub open spec fn finishes(a: CaptureAction, recorded: bool) -> bool {
    a matches CaptureAction::Finish { recorded: r } && r == recorded
}

impl CaptureSession {
    /// A new reading in `mode`.
    pub fn new(mode: CaptureMode) -> (s: Self)
        ensures
            s.mode == mode,
            s.stage == CaptureStage::Start,
    {
        CaptureSession { mode, stage: CaptureStage::Start, content: String::new(), category: String::new() }
    }

    /// Starts the reading at `now_ms`: the clipboard is read only when
    /// nothing suppresses the monitor.
    pub fn begin(&mut self, flags: &Suppression, now_ms: i64) -> (a: CaptureAction)
        ensures
            final(self).mode == old(self).mode,
            old(self).stage != CaptureStage::Start ==> finishes(a, false)
                && final(self).stage == CaptureStage::Finished,
            old(self).stage == CaptureStage::Start && suppressed_at(*flags, now_ms) ==> finishes(a, false)
                && final(self).stage == CaptureStage::Finished,
            old(self).stage == CaptureStage::Start && !suppressed_at(*flags, now_ms) ==> a is ReadImage
                && final(self).stage == CaptureStage::AwaitImage,
    {
        if self.stage != CaptureStage::Start || flags.is_suppressed(now_ms) {
            self.stage = CaptureStage::Finished;
            return CaptureAction::Finish { recorded: false };
        }
        self.stage = CaptureStage::AwaitImage;
        CaptureAction::ReadImage
    }

    /// Content was found: unless it is the application's own copy, the
    /// settings decide what happens to it.
    fn found(&mut self, flags: &mut Suppression, content: String, category: String) -> (a: CaptureAction)
        ensures
            final(self).mode == old(self).mode,
            final(self).content@ == content@,
            final(self).category@ == category@,
            ({
                let ignored = ignore_matches(opt_text(old(flags).ignore_signature), content@);
                &&& ignored ==> finishes(a, false) && final(self).stage == CaptureStage::Finished
                &&& !ignored ==> a is ReadSettings && final(self).stage == CaptureStage::AwaitSettings
            }),
            ignore_matches(opt_text(old(flags).ignore_signature), content@) ==> final(flags).ignore_signature is None,
            !ignore_matches(opt_text(old(flags).ignore_signature), content@) ==> opt_text(final(flags).ignore_signature)
                == opt_text(old(flags).ignore_signature),
            final(flags).skip_monitor == old(flags).skip_monitor,
            final(flags).last_clipboard_write_ms == old(flags).last_clipboard_write_ms,
            final(flags).is_internal_pasting == old(flags).is_internal_pasting,
    {
        let ignored = flags.consume_ignore(content.as_str());
        self.content = content;
        self.category = category;
        if ignored {
            self.stage = CaptureStage::Finished;
            CaptureAction::Finish { recorded: false }
        } else {
            self.stage = CaptureStage::AwaitSettings;
            CaptureAction::ReadSettings
        }
    }

    /// The image on the clipboard (`None` when there is none). A new image
    /// (fingerprint different from the last one and positive) is remembered;
    /// if it encodes as PNG its `data:` URL is the content, category `image`;
    /// pasted back, that URL gives the same pixels (whenever it decodes).
    /// Otherwise the text is read next.
    pub fn image_read(
        &mut self,
        tracker: &mut CaptureTracker,
        flags: &mut Suppression,
        image: Option<ClipImage>,
    ) -> (a: CaptureAction)
        requires
            old(self).stage == CaptureStage::AwaitImage ==> (image matches Some(img) ==> clip_image_ok(img)),
        ensures
            final(self).mode == old(self).mode,
            final(tracker).last_seq == old(tracker).last_seq,
            old(self).stage != CaptureStage::AwaitImage ==> finishes(a, false)
                && final(self).stage == CaptureStage::Finished
                && final(tracker).last_img == old(tracker).last_img
                && final(tracker).last_text@ == old(tracker).last_text@
                && opt_text(final(flags).ignore_signature) == opt_text(old(flags).ignore_signature),
            old(self).stage == CaptureStage::AwaitImage ==> ({
                let fresh = image matches Some(img) && image_is_fresh(image_fingerprint(img), old(tracker).last_img as int);
                let text = match image {
                    Some(img) => image_capture_text(img),
                    None => None,
                };
                &&& final(tracker).last_img == (if fresh { image_fingerprint(image->0) } else {
                    old(tracker).last_img as int
                })
                &&& (fresh && text is Some) ==> ({
                    let c = text->0;
                    let ignored = ignore_matches(opt_text(old(flags).ignore_signature), c);
                    &&& final(self).content@ == c
                    &&& final(self).category@ == "image"@
                    &&& (data_url_image(c) matches Some(d) ==> d == (
                        (image->0).width as u32,
                        (image->0).height as u32,
                        (image->0).bytes@,
                    ))
                    &&& final(tracker).last_text@ == (if old(self).mode == CaptureMode::Polled {
                        Seq::<char>::empty()
                    } else {
                        old(tracker).last_text@
                    })
                    &&& ignored ==> finishes(a, false) && final(self).stage == CaptureStage::Finished
                        && final(flags).ignore_signature is None
                    &&& !ignored ==> a is ReadSettings && final(self).stage == CaptureStage::AwaitSettings
                        && opt_text(final(flags).ignore_signature) == opt_text(old(flags).ignore_signature)
                })
                &&& !(fresh && text is Some) ==> a is ReadText && final(self).stage
                    == CaptureStage::AwaitText && final(tracker).last_text@ == old(tracker).last_text@
                    && opt_text(final(flags).ignore_signature) == opt_text(old(flags).ignore_signature)
            }),
            final(flags).skip_monitor == old(flags).skip_monitor,
            final(flags).last_clipboard_write_ms == old(flags).last_clipboard_write_ms,
            final(flags).is_internal_pasting == old(flags).is_internal_pasting,
    {
        if self.stage != CaptureStage::AwaitImage {
            self.stage = CaptureStage::Finished;
            return CaptureAction::Finish { recorded: false };
        }
        if let Some(img) = image {
            let fingerprint = img.bytes.len() + img.width;
            if fingerprint != tracker.last_img && fingerprint > 0 {
                tracker.last_img = fingerprint;
                let w = img.width as u32;
                let h = img.height as u32;
                if let Some(png) = encode_png(w, h, img.bytes.as_slice()) {
                    let url = png_to_data_url(&png);
                    if self.mode == CaptureMode::Polled {
                        tracker.last_text = String::new();
                    }
                    return self.found(flags, url, String::from_str("image"));
                }
            }
        }
        self.stage = CaptureStage::AwaitText;
        CaptureAction::ReadText
    }

    /// The text on the clipboard (`None` when there is none) and the
    /// clipboard sequence number (used in notified mode). Non-empty text is
    /// new when, in notified mode, the sequence number is non-zero and
    /// differs from the last one, and in polled mode, when it differs from
    /// the last recorded text. New text is remembered, the last image is
    /// forgotten, and the text becomes the content with its category.
    pub fn text_read(
        &mut self,
        tracker: &mut CaptureTracker,
        flags: &mut Suppression,
        text: Option<String>,
        seq: u32,
    ) -> (a: CaptureAction)
        ensures
            final(self).mode == old(self).mode,
            old(self).stage != CaptureStage::AwaitText ==> finishes(a, false)
                && final(self).stage == CaptureStage::Finished
                && final(tracker).last_img == old(tracker).last_img
                && final(tracker).last_seq == old(tracker).last_seq
                && final(tracker).last_text@ == old(tracker).last_text@
                && opt_text(final(flags).ignore_signature) == opt_text(old(flags).ignore_signature),
            old(self).stage == CaptureStage::AwaitText ==> ({
                let fresh = text matches Some(t) && text_is_fresh(old(self).mode, t@, seq, old(tracker).last_seq, old(tracker).last_text@);
                &&& fresh ==> ({
                    let c = text->0@;
                    let ignored = ignore_matches(opt_text(old(flags).ignore_signature), c);
                    &&& final(self).content@ == c
                    &&& final(self).category@ == category_of(c)
                    &&& final(tracker).last_img == 0
                    &&& final(tracker).last_seq == (if old(self).mode == CaptureMode::Notified { seq } else {
                        old(tracker).last_seq
                    })
                    &&& final(tracker).last_text@ == (if old(self).mode == CaptureMode::Polled { c } else {
                        old(tracker).last_text@
                    })
                    &&& ignored ==> finishes(a, false) && final(self).stage == CaptureStage::Finished
                        && final(flags).ignore_signature is None
                    &&& !ignored ==> a is ReadSettings && final(self).stage == CaptureStage::AwaitSettings
                        && opt_text(final(flags).ignore_signature) == opt_text(old(flags).ignore_signature)
                })
                &&& !fresh ==> finishes(a, false) && final(self).stage == CaptureStage::Finished
                    && final(tracker).last_img == old(tracker).last_img
                    && final(tracker).last_seq == old(tracker).last_seq
                    && final(tracker).last_text@ == old(tracker).last_text@
                    && opt_text(final(flags).ignore_signature) == opt_text(old(flags).ignore_signature)
            }),
            final(flags).skip_monitor == old(flags).skip_monitor,
            final(flags).last_clipboard_write_ms == old(flags).last_clipboard_write_ms,
            final(flags).is_internal_pasting == old(flags).is_internal_pasting,
    {
        if self.stage != CaptureStage::AwaitText {
            self.stage = CaptureStage::Finished;
            return CaptureAction::Finish { recorded: false };
        }
        if let Some(t) = text {
            if !t.as_str().is_empty() {
                let fresh = if self.mode == CaptureMode::Notified {
                    seq != 0 && seq != tracker.last_seq
                } else {
                    !(t == tracker.last_text)
                };
                if fresh {
                    if self.mode == CaptureMode::Notified {
                        tracker.last_seq = seq;
                    } else {
                        tracker.last_text = t.clone();
                    }
                    tracker.last_img = 0;
                    let category = detect_category(t.as_str());
                    return self.found(flags, t, category);
                }
            }
        }
        self.stage = CaptureStage::Finished;
        CaptureAction::Finish { recorded: false }
    }

    /// The `privacy_mode` and `history_limit` settings. Unless privacy mode
    /// is `true`, the content is to be stored; in notified mode only the
    /// newest items the limit allows are kept, in polled mode the newest 200.
    /// In privacy mode nothing is stored and the reading records nothing.
    pub fn settings_read(&mut self, privacy_mode: &str, history_limit: &str) -> (a: CaptureAction)
        ensures
            final(self).mode == old(self).mode,
            final(self).stage == CaptureStage::Finished,
            old(self).stage != CaptureStage::AwaitSettings ==> finishes(a, false),
            old(self).stage == CaptureStage::AwaitSettings && privacy_mode@ == "true"@ ==> finishes(a, false),
            old(self).stage == CaptureStage::AwaitSettings && privacy_mode@ != "true"@ ==> (a matches CaptureAction::Persist { content, category, keep_latest }
                && content@ == old(self).content@ && category@ == old(self).category@
                && keep_latest == (if old(self).mode == CaptureMode::Notified {
                    keep_latest_for(history_limit@)
                } else {
                    Some(DEFAULT_HISTORY_LIMIT)
                })),
    {
        if self.stage != CaptureStage::AwaitSettings {
            self.stage = CaptureStage::Finished;
            return CaptureAction::Finish { recorded: false };
        }
        self.stage = CaptureStage::Finished;
        let private = String::from_str(privacy_mode) == String::from_str("true");
        if private {
            return CaptureAction::Finish { recorded: false };
        }
        let keep_latest = if self.mode == CaptureMode::Notified {
            keep_latest_from_setting(history_limit)
        } else {
            Some(DEFAULT_HISTORY_LIMIT)
        };
        CaptureAction::Persist { content: self.content.clone(), category: self.category.clone(), keep_latest }
    }
}

/// A clipboard change is recorded once: right after text read with `seq`
/// was recorded (the tracker then holds `seq`, or in polled mode the text),
/// the same text with the same sequence number is not new; likewise an
/// image is not new right after it was recorded.
pub proof fn law_change_recorded_once(mode: CaptureMode, t: Seq<char>, seq: u32, last_seq: u32, last_text: Seq<char>, fp: int)
    ensures
        !text_is_fresh(
            mode,
            t,
            seq,
            if mode == CaptureMode::Notified { seq } else { last_seq },
            if mode == CaptureMode::Polled { t } else { last_text },
        ),
        !image_is_fresh(fp, fp),
{
}

/// Which of two images is larger plays no part: a clipboard image is new
/// exactly when its fingerprint is positive and differs from the last
/// recorded one, whether it is smaller or larger.
pub proof fn law_image_freshness(fp: int, last_img: int)
    ensures
        image_is_fresh(fp, last_img) <==> (fp > 0 && fp != last_img),
        0 < fp < last_img ==> image_is_fresh(fp, last_img),
        fp > 0 && fp > last_img ==> image_is_fresh(fp, last_img),
        !image_is_fresh(0, last_img),
{
}

} // verus!
