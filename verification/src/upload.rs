//! Files and images that arrive from the phone: checking them, naming the
//! file they are saved to, turning images into `data:` URLs, and dropping an
//! image that arrives twice in a row.
use vstd::prelude::*;
use crate::text::{decimal, push_decimal};
use crate::codec::{byte_hash, png_encoding, rgba_decoding, decode_rgba, encode_png, hash_bytes};
use crate::content::{png_data_url, png_to_data_url, data_url_image};
use crate::suppress::{saturating_diff, saturating_sub_i64};

verus! {

broadcast use vstd::string::group_string_axioms;

/// Milliseconds within which the same image arriving again is dropped.
pub const DUPLICATE_WINDOW_MS: i64 = 1000;

/// Why an image upload was refused.
#[derive(PartialEq, Eq)]
pub enum ImageUploadError {
    /// The upload held no image bytes.
    MissingImage,
    /// The bytes are not an image the decoder knows; the decoder's message.
    DecodeFailed(String),
    /// The image could not be re-encoded as PNG.
    PngFailed,
}

impl ImageUploadError {
    /// The reply text for the error.
    pub fn message(&self) -> (m: String)
        ensures
            match self {
                ImageUploadError::MissingImage => m@ == "Missing image"@,
                ImageUploadError::DecodeFailed(e) => m@ == "图片解码失败: "@ + e@,
                ImageUploadError::PngFailed => m@ == "图片转 PNG 失败"@,
            },
    {
        match self {
            ImageUploadError::MissingImage => String::from_str("Missing image"),
            ImageUploadError::DecodeFailed(e) => String::from_str("图片解码失败: ").concat(e.as_str()),
            ImageUploadError::PngFailed => String::from_str("图片转 PNG 失败"),
        }
    }
}

/// An uploaded image, normalised to PNG.
pub struct PreparedImage {
    /// The PNG bytes.
    pub png: Vec<u8>,
    /// The PNG as a `data:` URL.
    pub data_url: String,
    /// Hash of the bytes as uploaded.
    pub hash: u64,
}

/// Normalises an uploaded image to PNG: refuses an empty upload and bytes
/// that do not decode or re-encode; otherwise gives the PNG, its `data:` URL
/// (which, pasted back, gives the uploaded pixels whenever it decodes) and
/// the hash of the uploaded bytes.
pub fn prepare_image_upload(bytes: &Vec<u8>) -> (r: Result<PreparedImage, ImageUploadError>)
    ensures
        bytes@.len() == 0 ==> r matches Err(ImageUploadError::MissingImage),
        bytes@.len() > 0 ==> match rgba_decoding(bytes@) {
            Err((m, _)) => r matches Err(ImageUploadError::DecodeFailed(e)) && e@ == m,
            Ok((w, h, px)) => match png_encoding(w, h, px) {
                None => r matches Err(ImageUploadError::PngFailed),
                Some(png) => r matches Ok(p) && p.png@ == png && p.data_url@ == png_data_url(png)
                    && p.hash == byte_hash(bytes@)
                    && (data_url_image(p.data_url@) matches Some(d) ==> d == (w, h, px)),
            },
        },
{
    if bytes.len() == 0 {
        return Err(ImageUploadError::MissingImage);
    }
    let img = match decode_rgba(bytes.as_slice()) {
        Ok(img) => img,
        Err(f) => return Err(ImageUploadError::DecodeFailed(f.message)),
    };
    let png = match encode_png(img.width, img.height, img.pixels.as_slice()) {
        Some(png) => png,
        None => return Err(ImageUploadError::PngFailed),
    };
    let data_url = png_to_data_url(&png);
    let hash = hash_bytes(bytes);
    Ok(PreparedImage { png, data_url, hash })
}

/// The last image accepted from the phone: its hash and when it came.
pub struct UploadGate {
    pub last_hash: u64,
    pub last_ms: i64,
}

/// An image with `hash` arriving at `now_ms` repeats the last one.
pub open spec fn is_repeat(last_hash: u64, last_ms: i64, hash: u64, now_ms: i64) -> bool {
    last_hash == hash && saturating_diff(now_ms, last_ms) < DUPLICATE_WINDOW_MS
}

impl UploadGate {
    /// Nothing accepted yet.
    pub fn new() -> (g: Self)
        ensures
            g.last_hash == 0,
            g.last_ms == 0,
    {
        UploadGate { last_hash: 0, last_ms: 0 }
    }

    /// Whether to accept an image with `hash` arriving at `now_ms`: the same
    /// image again within a second is dropped; anything else is accepted and
    /// becomes the last image.
    pub fn accept(&mut self, hash: u64, now_ms: i64) -> (accepted: bool)
        ensures
            accepted == !is_repeat(old(self).last_hash, old(self).last_ms, hash, now_ms),
            accepted ==> final(self).last_hash == hash && final(self).last_ms == now_ms,
            !accepted ==> final(self).last_hash == old(self).last_hash && final(self).last_ms
                == old(self).last_ms,
    {
        if self.last_hash == hash && saturating_sub_i64(now_ms, self.last_ms) < DUPLICATE_WINDOW_MS {
            return false;
        }
        self.last_hash = hash;
        self.last_ms = now_ms;
        true
    }
}

/// The same image sent twice within a second is stored once: after an image
/// is accepted at `t`, the same image arriving at `t2` with `t <= t2 < t + 1000`
/// is dropped, while another image is accepted.
pub proof fn law_repeat_upload_dropped(hash: u64, other: u64, t: i64, t2: i64)
    requires
        t <= t2,
        t2 - t < DUPLICATE_WINDOW_MS,
        other != hash,
    ensures
        is_repeat(hash, t, hash, t2),
        !is_repeat(hash, t, other, t2),
{
}

/// Checks a file upload: it must hold bytes; a file without a name is
/// called `unknown_file`. The error is `Missing file`.
pub fn accept_file_upload(filename: Option<String>, byte_count: usize) -> (r: Result<String, String>)
    ensures
        byte_count == 0 ==> (r matches Err(e) && e@ == "Missing file"@),
        byte_count > 0 ==> (r matches Ok(n) && n@ == (match filename {
            Some(f) => f@,
            None => "unknown_file"@,
        })),
{
    if byte_count == 0 {
        return Err(String::from_str("Missing file"));
    }
    match filename {
        Some(f) => Ok(f),
        None => Ok(String::from_str("unknown_file")),
    }
}

/// The path `name` inside `base`, as std's `Path::join` forms it on the
/// platform the library is built for.
pub uninterp spec fn joined_path(base: Seq<char>, name: Seq<char>) -> Seq<char>;

/// std's `Path::file_stem` of `path` (the file name without its last
/// extension), on the platform the library is built for.
pub uninterp spec fn path_file_stem(path: Seq<char>) -> Option<Seq<char>>;

/// std's `Path::extension` of `path`, on the platform the library is built for.
pub uninterp spec fn path_extension(path: Seq<char>) -> Option<Seq<char>>;

/// std's `Path::file_name` of `path`, on the platform the library is built for.
pub uninterp spec fn path_file_name(path: Seq<char>) -> Option<Seq<char>>;

/// Calls `Path::join` on `base` with `name`; the result is named
/// `joined_path`. Both inputs are UTF-8, so the conversion back to a string
/// loses nothing.
#[verifier::external_body]
pub(crate) fn join_path(base: &str, name: &str) -> (p: String)
    ensures
        p@ == joined_path(base@, name@),
{
    std::path::Path::new(base).join(name).to_string_lossy().into_owned()
}

/// Calls `Path::file_stem`; the result is named `path_file_stem`.
#[verifier::external_body]
fn file_stem(path: &str) -> (s: Option<String>)
    ensures
        opt_text_of(s) == path_file_stem(path@),
{
    std::path::Path::new(path).file_stem().and_then(|s| s.to_str()).map(String::from)
}

/// Calls `Path::extension`; the result is named `path_extension`.
#[verifier::external_body]
fn extension(path: &str) -> (e: Option<String>)
    ensures
        opt_text_of(e) == path_extension(path@),
{
    std::path::Path::new(path).extension().and_then(|e| e.to_str()).map(String::from)
}

/// Calls `Path::file_name`; the result is named `path_file_name`.
#[verifier::external_body]
fn file_name(path: &str) -> (n: Option<String>)
    ensures
        opt_text_of(n) == path_file_name(path@),
{
    std::path::Path::new(path).file_name().and_then(|n| n.to_str()).map(String::from)
}

/// Calls `Path::exists`. Whether a path exists depends on the disk at the
/// moment of the call, so nothing is stated of the result.
#[verifier::external_body]
fn path_exists(path: &String) -> bool {
    std::path::Path::new(path).exists()
}

/// The optional text inside an optional `String`.
pub open spec fn opt_text_of(o: Option<String>) -> Option<Seq<char>> {
    match o {
        Some(s) => Some(s@),
        None => None,
    }
}

/// `stem(n)ext`: the name tried for the `n`-th clash.
pub open spec fn numbered_name(stem: Seq<char>, n: nat, ext: Seq<char>) -> Seq<char> {
    stem + "("@ + decimal(n) + ")"@ + ext
}

/// The stem used for numbered names: the file stem, or `file`.
pub open spec fn stem_or_file(path: Seq<char>) -> Seq<char> {
    match path_file_stem(path) {
        Some(s) => s,
        None => "file"@,
    }
}

/// The extension used for numbered names: `.` and the extension, or nothing.
pub open spec fn dotted_extension(path: Seq<char>) -> Seq<char> {
    match path_extension(path) {
        Some(e) => "."@ + e,
        None => Seq::<char>::empty(),
    }
}

/// The `n`-th path tried when saving `filename` into `base`: the plain
/// path first, then `stem(1)ext`, `stem(2)ext`, ...
pub open spec fn candidate_path(base: Seq<char>, filename: Seq<char>, n: nat) -> Seq<char> {
    let first = joined_path(base, filename);
    if n == 0 {
        first
    } else {
        joined_path(base, numbered_name(stem_or_file(first), n, dotted_extension(first)))
    }
}

/// The highest number a numbered name `stem(n)ext` gets (one below
/// `i32::MAX`); when that name is taken too, the search gives up.
pub const MAX_NUMBERED_NAMES: u32 = 2147483646;

/// `stem(n)ext`.
pub fn numbered_file_name(stem: &str, n: u32, ext: &str) -> (name: String)
    ensures
        name@ == numbered_name(stem@, n as nat, ext@),
{
    let mut name = String::from_str(stem);
    name.append("(");
    push_decimal(&mut name, n as u64);
    name.append(")");
    name.append(ext);
    name
}

/// What the search for a free file name does after checking its `n`-th
/// candidate.
#[derive(PartialEq, Eq, Structural, Clone, Copy, Debug)]
pub enum SearchStep {
    /// The `n`-th candidate is free: use it.
    Use(u32),
    /// It is taken: check the candidate with this number next.
    Try(u32),
    /// It is taken and it was the last numbered name: give up.
    GiveUp,
}

/// The next step of the search after the check of candidate `n` reported
/// it `taken` or free.
pub fn unique_path_step(n: u32, taken: bool) -> (s: SearchStep)
    ensures
        !taken ==> s == SearchStep::Use(n),
        taken && n < MAX_NUMBERED_NAMES ==> s == SearchStep::Try((n + 1) as u32),
        taken && n >= MAX_NUMBERED_NAMES ==> s == SearchStep::GiveUp,
{
    if !taken {
        SearchStep::Use(n)
    } else if n < MAX_NUMBERED_NAMES {
        SearchStep::Try(n + 1)
    } else {
        SearchStep::GiveUp
    }
}

/// `checks[k].0` is the `k`-th candidate path.
pub open spec fn checks_follow_candidates(
    base: Seq<char>,
    filename: Seq<char>,
    checks: Seq<(String, bool)>,
) -> bool {
    forall|k: int| 0 <= k < checks.len() ==> #[trigger] checks[k].0@ == candidate_path(base, filename, k as nat)
}

/// Each answer `checks[k].1` is one that a call of the existence check
/// (`Path::exists`) on the path `checks[k].0` gave. Only a real call yields
/// such an answer: the check has no contract, so nothing else establishes it.
pub closed spec fn checks_answered_by_disk(checks: Seq<(String, bool)>) -> bool {
    forall|k: int| 0 <= k < checks.len() ==> call_ensures(path_exists, (&(#[trigger] checks[k]).0,), checks[k].1)
}

/// A path in `base` for a new file called `filename` that does not clash
/// with an existing file. The candidates (the plain path, then `stem(1)ext`,
/// `stem(2)ext`, ...) are checked on disk in order, each step decided by
/// `unique_path_step`; the ghost record lists each candidate checked with
/// the answer its existence check gave. The result is the first candidate
/// the check reported free; `None` only when every candidate up to
/// `MAX_NUMBERED_NAMES` was reported taken.
pub fn ensure_unique_path(base: &str, filename: &str) -> (r: (Option<String>, Ghost<Seq<(String, bool)>>))
    ensures
        1 <= r.1@.len() <= MAX_NUMBERED_NAMES + 1,
        checks_follow_candidates(base@, filename@, r.1@),
        checks_answered_by_disk(r.1@),
        forall|k: int| 0 <= k < r.1@.len() - 1 ==> (#[trigger] r.1@[k]).1,
        r.0 matches Some(p) ==> p@ == r.1@.last().0@ && !r.1@.last().1,
        r.0 is None ==> r.1@.len() == MAX_NUMBERED_NAMES + 1 && r.1@.last().1,
{
    let first = join_path(base, filename);
    let stem = match file_stem(first.as_str()) {
        Some(s) => s,
        None => String::from_str("file"),
    };
    let ext = match extension(first.as_str()) {
        Some(e) => String::from_str(".").concat(e.as_str()),
        None => String::new(),
    };
    assert(stem@ == stem_or_file(first@));
    assert(ext@ == dotted_extension(first@));
    let check = path_exists;
    let mut path = first;
    let mut n: u32 = 0;
    let ghost mut checks: Seq<(String, bool)> = Seq::empty();
    assert(path@ == candidate_path(base@, filename@, 0));
    loop
        invariant
            n <= MAX_NUMBERED_NAMES,
            check == path_exists,
            stem@ == stem_or_file(joined_path(base@, filename@)),
            ext@ == dotted_extension(joined_path(base@, filename@)),
            path@ == candidate_path(base@, filename@, n as nat),
            checks.len() == n,
            checks_follow_candidates(base@, filename@, checks),
            checks_answered_by_disk(checks),
            forall|k: int| 0 <= k < checks.len() ==> (#[trigger] checks[k]).1,
        decreases MAX_NUMBERED_NAMES - n,
    {
        let taken = check(&path);
        let ghost before = checks;
        proof {
            checks = checks.push((path, taken));
            assert forall|k: int| 0 <= k < checks.len() implies #[trigger] checks[k].0@ == candidate_path(
                base@,
                filename@,
                k as nat,
            ) && call_ensures(path_exists, (&checks[k].0,), checks[k].1) by {
                if k < before.len() {
                    assert(checks[k] == before[k]);
                }
            }
        }
        match unique_path_step(n, taken) {
            SearchStep::Use(_) => {
                return (Some(path), Ghost(checks));
            },
            SearchStep::GiveUp => {
                return (None, Ghost(checks));
            },
            SearchStep::Try(next) => {
                assert forall|k: int| 0 <= k < checks.len() implies (#[trigger] checks[k]).1 by {
                    if k < before.len() {
                        assert(checks[k] == before[k]);
                    }
                }
                let name = numbered_file_name(stem.as_str(), next, ext.as_str());
                path = join_path(base, name.as_str());
                assert(path@ == candidate_path(base@, filename@, next as nat));
                n = next;
            },
        }
    }
}

/// The file name shown for a saved file: the final component of `path`, or
/// `fallback` when it has none.
pub fn shown_file_name(path: &str, fallback: &str) -> (n: String)
    ensures
        n@ == (match path_file_name(path@) {
            Some(f) => f,
            None => fallback@,
        }),
{
    match file_name(path) {
        Some(f) => f,
        None => String::from_str(fallback),
    }
}

/// The notice shown when a file was saved through the upload command.
pub fn saved_file_notice(name: &str) -> (m: String)
    ensures
        m@ == "文件 ["@ + name@ + "] 已保存"@,
{
    String::from_str("文件 [").concat(name).concat("] 已保存")
}

/// The notice shown when a file arrived from the phone.
pub fn received_file_notice(name: &str) -> (m: String)
    ensures
        m@ == "收到文件: "@ + name@,
{
    String::from_str("收到文件: ").concat(name)
}

/// How the candidates are named: the `n`-th one (`n >= 1`) is the plain
/// path's file stem (or `file` when it has none), `(`, the number in
/// decimal, `)`, then `.` and the plain path's extension when it has one,
/// joined to `base`; the `0`-th is the plain path itself. So a numbered name
/// keeps the extension of the file it stands in for.
pub proof fn law_numbered_candidates_keep_extension(base: Seq<char>, filename: Seq<char>, n: nat)
    ensures
        n == 0 ==> candidate_path(base, filename, n) == joined_path(base, filename),
        n >= 1 ==> candidate_path(base, filename, n) == joined_path(
            base,
            (match path_file_stem(joined_path(base, filename)) {
                Some(s) => s,
                None => "file"@,
            }) + "("@ + decimal(n) + ")"@ + (match path_extension(joined_path(base, filename)) {
                Some(e) => "."@ + e,
                None => Seq::<char>::empty(),
            }),
        ),
        forall|e: Seq<char>|
            n >= 1 && #[trigger] path_extension(joined_path(base, filename)) == Some(e) ==> candidate_path(
                base,
                filename,
                n,
            ) == joined_path(base, stem_or_file(joined_path(base, filename)) + "("@ + decimal(n) + ")"@ + "."@ + e),
{
    assert forall|e: Seq<char>|
        n >= 1 && #[trigger] path_extension(joined_path(base, filename)) == Some(e) implies candidate_path(
            base,
            filename,
            n,
        ) == joined_path(base, stem_or_file(joined_path(base, filename)) + "("@ + decimal(n) + ")"@ + "."@ + e) by {
        let st = stem_or_file(joined_path(base, filename));
        assert(st + "("@ + decimal(n) + ")"@ + ("."@ + e) =~= st + "("@ + decimal(n) + ")"@ + "."@ + e);
    }
}

} // verus!
