//! What to put on the clipboard for a piece of content, and how often to
//! try.
use vstd::prelude::*;
use crate::text::{push_signed_decimal, signed_decimal};
use crate::codec::{
    RgbaImage, ImageFailure, base64_decoding, rgba_decoding, rgba_decoding_as, base64_decode, decode_rgba,
    decode_rgba_file,
};
use crate::content::{is_image_text, image_base64_text, is_image_content, image_base64, data_url_image};

verus! {

broadcast use vstd::string::group_string_axioms;

/// What a write to the clipboard puts there.
pub enum ClipboardWrite {
    /// Plain text.
    Text(String),
    /// An image.
    Image(RgbaImage),
}

/// The write carries `img` as decoded from `bytes`.
pub open spec fn image_is_decoding_of(img: RgbaImage, bytes: Seq<u8>) -> bool {
    rgba_decoding(bytes) matches Ok(d) && d == (img.width, img.height, img.pixels@)
}

/// The failure `f` carries the decoder's texts for `bytes`.
pub open spec fn failure_is_decoding_of(f: ImageFailure, bytes: Seq<u8>) -> bool {
    rgba_decoding(bytes) matches Err(e) && e == (f.message@, f.detail@)
}

/// What to write to the clipboard for `content`: its text, or for an image
/// `data:` URL the image it carries. Errors name the step that failed:
/// `Invalid image data URL` (no comma), `Base64 decode error: ...` and
/// `Image load error: ...` (followed by the decoder's own message).
pub fn clipboard_write_for(content: &str) -> (r: Result<ClipboardWrite, String>)
    ensures
        !is_image_text(content@) ==> (r matches Ok(ClipboardWrite::Text(t)) && t@ == content@),
        is_image_text(content@) ==> match image_base64_text(content@) {
            None => r matches Err(e) && e@ == "Invalid image data URL"@,
            Some(b64) => match base64_decoding(b64) {
                Err(m) => r matches Err(e) && e@ == "Base64 decode error: "@ + m,
                Ok(bytes) => match rgba_decoding(bytes) {
                    Err((m, _)) => r matches Err(e) && e@ == "Image load error: "@ + m,
                    Ok(_) => r matches Ok(ClipboardWrite::Image(img)) && image_is_decoding_of(img, bytes),
                },
            },
        },
        r matches Ok(ClipboardWrite::Image(img)) ==> data_url_image(content@) == Some(
            (img.width, img.height, img.pixels@),
        ),
{
    if !is_image_content(content) {
        return Ok(ClipboardWrite::Text(String::from_str(content)));
    }
    let b64 = match image_base64(content) {
        Some(t) => t,
        None => return Err(String::from_str("Invalid image data URL")),
    };
    let bytes = match base64_decode(b64.as_str()) {
        Ok(b) => b,
        Err(m) => return Err(String::from_str("Base64 decode error: ").concat(m.as_str())),
    };
    match decode_rgba(bytes.as_slice()) {
        Ok(img) => Ok(ClipboardWrite::Image(img)),
        Err(f) => Err(String::from_str("Image load error: ").concat(f.message.as_str())),
    }
}

/// How long to wait after an internal paste wrote text to the clipboard.
pub const TEXT_SETTLE_MS: u64 = 100;
/// How long to wait after an internal paste wrote an image of up to 1 MB.
pub const IMAGE_SETTLE_MS: u64 = 200;
/// How long to wait after an internal paste wrote an image of more than 1 MB.
pub const LARGE_IMAGE_SETTLE_MS: u64 = 1000;

/// What an internal paste writes, and how long to let it settle.
pub struct PasteWrite {
    pub write: ClipboardWrite,
    pub settle_ms: u64,
}

/// The wait after writing `n` decoded image bytes.
pub open spec fn image_settle_ms(n: nat) -> u64 {
    if n > 1_000_000 {
        LARGE_IMAGE_SETTLE_MS
    } else {
        IMAGE_SETTLE_MS
    }
}

/// What an internal paste writes for `content`: text (settling 100 ms), or
/// the image of an image `data:` URL (settling 1 s when the decoded bytes
/// exceed 1 MB, else 200 ms). Errors: `图片数据格式错误` when there is no
/// comma, else the decoder's message.
pub fn paste_write_for(content: &str) -> (r: Result<PasteWrite, String>)
    ensures
        !is_image_text(content@) ==> (r matches Ok(p) && p.write matches ClipboardWrite::Text(t)
            && t@ == content@ && p.settle_ms == TEXT_SETTLE_MS),
        is_image_text(content@) ==> match image_base64_text(content@) {
            None => r matches Err(e) && e@ == "图片数据格式错误"@,
            Some(b64) => match base64_decoding(b64) {
                Err(m) => r matches Err(e) && e@ == m,
                Ok(bytes) => match rgba_decoding(bytes) {
                    Err((m, _)) => r matches Err(e) && e@ == m,
                    Ok(_) => r matches Ok(p) && p.write matches ClipboardWrite::Image(img)
                        && image_is_decoding_of(img, bytes) && p.settle_ms == image_settle_ms(
                        bytes.len(),
                    ),
                },
            },
        },
        r matches Ok(p) ==> (p.write matches ClipboardWrite::Image(img) ==> data_url_image(content@)
            == Some((img.width, img.height, img.pixels@))),
{
    if !is_image_content(content) {
        return Ok(PasteWrite { write: ClipboardWrite::Text(String::from_str(content)), settle_ms: TEXT_SETTLE_MS });
    }
    let b64 = match image_base64(content) {
        Some(t) => t,
        None => return Err(String::from_str("图片数据格式错误")),
    };
    let bytes = match base64_decode(b64.as_str()) {
        Ok(b) => b,
        Err(m) => return Err(m),
    };
    let settle_ms = if bytes.len() > 1_000_000 { LARGE_IMAGE_SETTLE_MS } else { IMAGE_SETTLE_MS };
    match decode_rgba(bytes.as_slice()) {
        Ok(img) => Ok(PasteWrite { write: ClipboardWrite::Image(img), settle_ms }),
        Err(f) => Err(f.message),
    }
}

/// How many times an internal paste tries to write the clipboard.
pub const MAX_WRITE_ATTEMPTS: usize = 3;

/// Another try is allowed after `failures` failed writes.
pub open spec fn may_retry(failures: int) -> bool {
    failures < MAX_WRITE_ATTEMPTS
}

/// Failed attempts of an internal paste to write the clipboard.
pub struct WriteAttempts {
    pub failures: usize,
    pub last_error: Option<String>,
}

impl WriteAttempts {
    /// No attempt has failed.
    pub fn new() -> (w: Self)
        ensures
            w.failures == 0,
            w.last_error is None,
    {
        WriteAttempts { failures: 0, last_error: None }
    }

    /// An attempt failed with `error`; whether to try again (after a short
    /// wait). Fewer than three failures allow another try.
    pub fn failed(&mut self, error: String) -> (retry: bool)
        requires
            old(self).failures < MAX_WRITE_ATTEMPTS,
        ensures
            final(self).failures == old(self).failures + 1,
            final(self).last_error matches Some(e) && e@ == error@,
            retry == may_retry(final(self).failures as int),
    {
        self.failures = self.failures + 1;
        self.last_error = Some(error);
        self.failures < MAX_WRITE_ATTEMPTS
    }

    /// The error an internal paste reports once it gives up: the last
    /// failure's, or `Clipboard write failed` when there was none.
    pub fn final_error(&self) -> (e: String)
        ensures
            match self.last_error {
                Some(l) => e@ == l@,
                None => e@ == "Clipboard write failed"@,
            },
    {
        match &self.last_error {
            Some(l) => l.clone(),
            None => String::from_str("Clipboard write failed"),
        }
    }
}

/// An internal paste gives up after exactly three failed writes: starting
/// from no failure, the first and second failures allow another try, the
/// third does not.
pub proof fn law_three_attempts()
    ensures
        may_retry(1),
        may_retry(2),
        !may_retry(3),
{
}

/// The name of the temporary PNG file a smart copy writes for item `id`.
pub fn temp_image_file_name(id: i64) -> (name: String)
    ensures
        name@ == "clipflow_tmp_"@ + signed_decimal(id as int) + ".png"@,
{
    let mut name = String::from_str("clipflow_tmp_");
    push_signed_decimal(&mut name, id);
    name.append(".png");
    name
}

/// The error a smart copy reports when it cannot put an image on the clipboard.
pub fn image_copy_error() -> (e: String)
    ensures
        e@ == "图片处理失败"@,
{
    String::from_str("图片处理失败")
}

/// The image that encoded `bytes` hold, ready for the clipboard; the
/// failure carries the decoder's messages.
pub fn image_for_clipboard(bytes: &Vec<u8>) -> (r: Result<RgbaImage, ImageFailure>)
    ensures
        r is Ok <==> rgba_decoding(bytes@) is Ok,
        r matches Ok(img) ==> image_is_decoding_of(img, bytes@),
        r matches Err(f) ==> failure_is_decoding_of(f, bytes@),
{
    decode_rgba(bytes.as_slice())
}

/// The image in the file at `path`, whose contents are `bytes`, ready for
/// the clipboard: decoded in the format the path's extension names. The
/// failure carries the decoder's messages.
pub fn image_file_for_clipboard(path: &str, bytes: &Vec<u8>) -> (r: Result<RgbaImage, ImageFailure>)
    ensures
        r is Ok <==> rgba_decoding_as(path@, bytes@) is Ok,
        r matches Ok(img) ==> (rgba_decoding_as(path@, bytes@) matches Ok(d) && d == (img.width, img.height, img.pixels@)),
        r matches Err(f) ==> (rgba_decoding_as(path@, bytes@) matches Err(e) && e == (f.message@, f.detail@)),
{
    decode_rgba_file(path, bytes.as_slice())
}

} // verus!
