//! Byte-level codecs the library relies on: standard Base64 (the `base64`
//! crate), image decoding and PNG encoding (the `image` crate) and the
//! content hash used to recognise repeated uploads (std's `DefaultHasher`).
use vstd::prelude::*;
use base64::Engine;

verus! {

/// The digit of the standard Base64 alphabet (`A-Z`, `a-z`, `0-9`, `+`,
/// `/`) for the six-bit value `v`.
pub open spec fn base64_digit(v: int) -> char {
    if v < 26 {
        (65 + v) as char
    } else if v < 52 {
        (97 + (v - 26)) as char
    } else if v < 62 {
        (48 + (v - 52)) as char
    } else if v == 62 {
        '+'
    } else {
        '/'
    }
}

/// Standard, padded Base64 text of `bytes` (RFC 4648): each group of three
/// bytes becomes four digits of six bits each, high bits first; a last
/// group of one or two bytes becomes two or three digits, padded with `=`
/// to four characters.
pub open spec fn base64_encoding(bytes: Seq<u8>) -> Seq<char>
    decreases bytes.len(),
{
    if bytes.len() == 0 {
        Seq::empty()
    } else if bytes.len() == 1 {
        let a = bytes[0] as int;
        seq![base64_digit(a / 4), base64_digit((a % 4) * 16), '=', '=']
    } else if bytes.len() == 2 {
        let a = bytes[0] as int;
        let b = bytes[1] as int;
        seq![base64_digit(a / 4), base64_digit((a % 4) * 16 + b / 16), base64_digit((b % 16) * 4), '=']
    } else {
        let a = bytes[0] as int;
        let b = bytes[1] as int;
        let c = bytes[2] as int;
        seq![
            base64_digit(a / 4),
            base64_digit((a % 4) * 16 + b / 16),
            base64_digit((b % 16) * 4 + c / 64),
            base64_digit(c % 64),
        ] + base64_encoding(bytes.skip(3))
    }
}

/// A character of standard, padded Base64 text: `A-Z`, `a-z`, `0-9`, `+`,
/// `/` or the padding `=`.
pub open spec fn is_base64_char(c: char) -> bool {
    ||| 'A' <= c <= 'Z'
    ||| 'a' <= c <= 'z'
    ||| '0' <= c <= '9'
    ||| c == '+'
    ||| c == '/'
    ||| c == '='
}

proof fn lemma_base64_digit(v: int)
    requires
        0 <= v < 64,
    ensures
        is_base64_char(base64_digit(v)),
{
}

/// Base64 text is made of the standard alphabet and `=` only.
pub proof fn lemma_base64_alphabet(bytes: Seq<u8>)
    ensures
        forall|i: int| 0 <= i < base64_encoding(bytes).len() ==> is_base64_char(
            #[trigger] base64_encoding(bytes)[i],
        ),
    decreases bytes.len(),
{
    if bytes.len() == 0 {
    } else if bytes.len() == 1 {
        let a = bytes[0] as int;
        lemma_base64_digit(a / 4);
        lemma_base64_digit((a % 4) * 16);
    } else if bytes.len() == 2 {
        let a = bytes[0] as int;
        let b = bytes[1] as int;
        lemma_base64_digit(a / 4);
        lemma_base64_digit((a % 4) * 16 + b / 16);
        lemma_base64_digit((b % 16) * 4);
    } else {
        let a = bytes[0] as int;
        let b = bytes[1] as int;
        let c = bytes[2] as int;
        lemma_base64_digit(a / 4);
        lemma_base64_digit((a % 4) * 16 + b / 16);
        lemma_base64_digit((b % 16) * 4 + c / 64);
        lemma_base64_digit(c % 64);
        lemma_base64_alphabet(bytes.skip(3));
        let head = seq![
            base64_digit(a / 4),
            base64_digit((a % 4) * 16 + b / 16),
            base64_digit((b % 16) * 4 + c / 64),
            base64_digit(c % 64),
        ];
        let e = base64_encoding(bytes);
        assert(e == head + base64_encoding(bytes.skip(3)));
        assert forall|i: int| 0 <= i < e.len() implies is_base64_char(#[trigger] e[i]) by {
            if i >= 4 {
                assert(e[i] == base64_encoding(bytes.skip(3))[i - 4]);
            }
        }
    }
}

/// The bytes that the standard, padded Base64 text `text` stands for, or,
/// when `text` is not valid standard Base64, the `Display` text of the
/// decoder's `DecodeError`.
pub uninterp spec fn base64_decoding(text: Seq<char>) -> Result<Seq<u8>, Seq<char>>;

/// Width, height and row-major RGBA8 samples of the image encoded in `bytes`
/// (any format the `image` crate recognises), or, when it cannot be decoded,
/// the `Display` and `Debug` texts of the crate's `ImageError`.
pub uninterp spec fn rgba_decoding(bytes: Seq<u8>) -> Result<(u32, u32, Seq<u8>), (Seq<char>, Seq<char>)>;

/// Width, height and row-major RGBA8 samples of the image file at `path`
/// whose contents are `bytes`, decoded in the format that the path's
/// extension names (as `image::ImageFormat::from_path` reads it), or, when
/// the extension names no format or the bytes do not decode in it, the
/// `Display` and `Debug` texts of the crate's `ImageError`.
pub uninterp spec fn rgba_decoding_as(path: Seq<char>, bytes: Seq<u8>) -> Result<
    (u32, u32, Seq<u8>),
    (Seq<char>, Seq<char>),
>;

/// The PNG file that encodes the `width` x `height` RGBA8 image `rgba`, or
/// `None` when the encoder refuses it.
pub uninterp spec fn png_encoding(width: u32, height: u32, rgba: Seq<u8>) -> Option<Seq<u8>>;

/// The 64-bit hash that std's `DefaultHasher::new()` gives for a byte vector.
pub uninterp spec fn byte_hash(bytes: Seq<u8>) -> u64;

/// A decoded image: `pixels` holds `width * height` RGBA8 samples, row by row.
pub struct RgbaImage {
    pub width: u32,
    pub height: u32,
    pub pixels: Vec<u8>,
}

/// Why the image crate refused some bytes: its `Display` text and its
/// `Debug` text.
pub struct ImageFailure {
    pub message: String,
    pub detail: String,
}

/// Calls `base64::engine::general_purpose::STANDARD.encode`; the result is
/// the standard padded Base64 text of `bytes` (the `STANDARD` alphabet with
/// the `PAD` configuration), and the same engine's `decode` gives `bytes`
/// back (the crate's round-trip tests check exactly this).
#[verifier::external_body]
pub(crate) fn base64_encode(bytes: &[u8]) -> (text: String)
    ensures
        text@ == base64_encoding(bytes@),
        base64_decoding(text@) is Ok,
        base64_decoding(text@)->Ok_0 == bytes@,
{
    base64::engine::general_purpose::STANDARD.encode(bytes)
}

/// Calls `base64::engine::general_purpose::STANDARD.decode`; it succeeds
/// exactly when `text` is valid standard Base64 and then gives the bytes it
/// stands for; otherwise it gives the `DecodeError`'s message.
#[verifier::external_body]
pub(crate) fn base64_decode(text: &str) -> (r: Result<Vec<u8>, String>)
    ensures
        r is Ok <==> base64_decoding(text@) is Ok,
        r matches Ok(bytes) ==> (base64_decoding(text@) matches Ok(b) && b == bytes@),
        r matches Err(m) ==> (base64_decoding(text@) matches Err(e) && e == m@),
{
    base64::engine::general_purpose::STANDARD.decode(text).map_err(|e| e.to_string())
}

/// Calls `image::load_from_memory` and converts the result with
/// `DynamicImage::to_rgba8`. It succeeds exactly when the bytes decode; the
/// RGBA buffer of an `ImageBuffer` always holds `4 * width * height` samples.
/// A failure carries the `Display` and `Debug` texts of the `ImageError`.
#[verifier::external_body]
pub(crate) fn decode_rgba(bytes: &[u8]) -> (r: Result<RgbaImage, ImageFailure>)
    ensures
        r is Ok <==> rgba_decoding(bytes@) is Ok,
        r matches Ok(img) ==> (rgba_decoding(bytes@) matches Ok(d) && d == (img.width, img.height, img.pixels@))
            && img.pixels@.len() == 4 * (img.width as int) * (img.height as int),
        r matches Err(f) ==> (rgba_decoding(bytes@) matches Err(e) && e == (f.message@, f.detail@)),
{
    match image::load_from_memory(bytes) {
        Ok(img) => {
            let rgba = img.to_rgba8();
            let (width, height) = rgba.dimensions();
            Ok(RgbaImage { width, height, pixels: rgba.into_raw() })
        },
        Err(e) => Err(ImageFailure { message: e.to_string(), detail: format!("{:?}", e) }),
    }
}

/// Decodes `bytes` as the image file at `path`, as
/// `image::io::Reader::open(path)?.decode()` does once the file is read: a
/// `Reader` over the bytes gets the format `ImageFormat::from_path(path)`
/// names (none when it names none, and `decode` then fails), is decoded and
/// converted with `to_rgba8`. The RGBA buffer holds `4 * width * height`
/// samples. A failure carries the `Display` and `Debug` texts of the
/// `ImageError`.
#[verifier::external_body]
pub(crate) fn decode_rgba_file(path: &str, bytes: &[u8]) -> (r: Result<RgbaImage, ImageFailure>)
    ensures
        r is Ok <==> rgba_decoding_as(path@, bytes@) is Ok,
        r matches Ok(img) ==> (rgba_decoding_as(path@, bytes@) matches Ok(d) && d == (img.width, img.height, img.pixels@))
            && img.pixels@.len() == 4 * (img.width as int) * (img.height as int),
        r matches Err(f) ==> (rgba_decoding_as(path@, bytes@) matches Err(e) && e == (f.message@, f.detail@)),
{
    let mut reader = image::io::Reader::new(std::io::Cursor::new(bytes));
    if let Ok(format) = image::ImageFormat::from_path(path) {
        reader.set_format(format);
    }
    match reader.decode() {
        Ok(img) => {
            let rgba = img.to_rgba8();
            let (width, height) = rgba.dimensions();
            Ok(RgbaImage { width, height, pixels: rgba.into_raw() })
        },
        Err(e) => Err(ImageFailure { message: e.to_string(), detail: format!("{:?}", e) }),
    }
}

/// Calls `image::write_buffer_with_format` with `ColorType::Rgba8` and
/// `ImageOutputFormat::Png` into an in-memory buffer. The encoder asserts
/// that the buffer holds exactly `4 * width * height` samples, so that is
/// required here. PNG is lossless and the file is 8-bit RGBA, so decoding it
/// (when the decoder's memory limit lets it) gives back `width`, `height`
/// and `rgba`; whether the limit lets it is not stated.
#[verifier::external_body]
pub(crate) fn encode_png(width: u32, height: u32, rgba: &[u8]) -> (r: Option<Vec<u8>>)
    requires
        rgba@.len() == 4 * (width as int) * (height as int),
    ensures
        r is Some <==> png_encoding(width, height, rgba@) is Some,
        r matches Some(png) ==> png_encoding(width, height, rgba@) == Some(png@),
        r matches Some(png) ==> (rgba_decoding(png@) matches Ok(d) ==> d == (width, height, rgba@)),
{
    let mut out: Vec<u8> = Vec::new();
    match image::write_buffer_with_format(
        &mut std::io::Cursor::new(&mut out),
        rgba,
        width,
        height,
        image::ColorType::Rgba8,
        image::ImageOutputFormat::Png,
    ) {
        Ok(()) => Some(out),
        Err(_) => None,
    }
}

/// Calls `BuildHasher::hash_one` on a default-built `DefaultHasher`, which
/// hashes the vector as `DefaultHasher::new()`, `Hash::hash` and
/// `Hasher::finish` do.
#[verifier::external_body]
pub(crate) fn hash_bytes(bytes: &Vec<u8>) -> (h: u64)
    ensures
        h == byte_hash(bytes@),
{
    std::hash::BuildHasher::hash_one(
        &std::hash::BuildHasherDefault::<std::collections::hash_map::DefaultHasher>::default(),
        bytes,
    )
}

} // verus!
