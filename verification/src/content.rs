//! What a piece of clipboard content is: its category, its signature, and,
//! for images carried as `data:` URLs, the bytes and pixels inside.
use vstd::prelude::*;
use crate::text::{
    has_prefix, contains_text, first_index_of, chars_of, chars_start_with, chars_contain_str,
    chars_contain_char, string_from_range, string_from_chars, find_char,
};
use crate::codec::{
    base64_encoding, base64_decoding, base64_encode, base64_decode, is_base64_char, rgba_decoding,
    lemma_base64_alphabet,
};

verus! {

broadcast use vstd::string::group_string_axioms;

/// Content that is an image carried as a `data:image...` URL.
pub open spec fn is_image_text(c: Seq<char>) -> bool {
    has_prefix(c, "data:image"@)
}

/// Content that looks like program text because it holds a keyword.
pub open spec fn has_code_keyword(c: Seq<char>) -> bool {
    ||| contains_text(c, "function"@)
    ||| contains_text(c, "const "@)
    ||| contains_text(c, "let "@)
    ||| contains_text(c, "var "@)
    ||| contains_text(c, "import "@)
    ||| contains_text(c, "class "@)
    ||| contains_text(c, "def "@)
    ||| contains_text(c, "return"@)
    ||| contains_text(c, "<html>"@)
    ||| contains_text(c, "<?php"@)
    ||| contains_text(c, "public "@)
}

/// The category a history item gets: `image`, `code` or `text`.
pub open spec fn category_of(c: Seq<char>) -> Seq<char> {
    if is_image_text(c) {
        "image"@
    } else if has_code_keyword(c) {
        "code"@
    } else if c.contains(';') && c.contains('{') && c.contains('}') {
        "code"@
    } else {
        "text"@
    }
}

/// The signature of a piece of content: its first 100 characters.
pub open spec fn signature_of(c: Seq<char>) -> Seq<char> {
    if c.len() <= 100 {
        c
    } else {
        c.take(100)
    }
}

/// Whether `content` is an image `data:` URL.
pub fn is_image_content(content: &str) -> (r: bool)
    ensures
        r == is_image_text(content@),
{
    let h = chars_of(content);
    let p = chars_of("data:image");
    chars_start_with(&h, &p)
}

/// Sorts content into `image`, `code` or `text`.
pub fn detect_category(content: &str) -> (category: String)
    ensures
        category@ == category_of(content@),
{
    let h = chars_of(content);
    let p = chars_of("data:image");
    if chars_start_with(&h, &p) {
        return String::from_str("image");
    }
    if chars_contain_str(&h, "function") || chars_contain_str(&h, "const ")
        || chars_contain_str(&h, "let ") || chars_contain_str(&h, "var ")
        || chars_contain_str(&h, "import ") || chars_contain_str(&h, "class ")
        || chars_contain_str(&h, "def ") || chars_contain_str(&h, "return")
        || chars_contain_str(&h, "<html>") || chars_contain_str(&h, "<?php")
        || chars_contain_str(&h, "public ") {
        return String::from_str("code");
    }
    if chars_contain_char(&h, ';') && chars_contain_char(&h, '{') && chars_contain_char(&h, '}') {
        return String::from_str("code");
    }
    String::from_str("text")
}

/// The signature of `content` (its first 100 characters), used to recognise
/// content that the application itself put on the clipboard or that the
/// user deleted.
pub fn signature_for(content: &str) -> (sig: String)
    ensures
        sig@ == signature_of(content@),
{
    let h = chars_of(content);
    let n = if h.len() <= 100 { h.len() } else { 100 };
    let sig = string_from_range(&h, 0, n);
    assert(h@.subrange(0, n as int) =~= signature_of(content@));
    sig
}

/// The part of a `data:` URL after its first comma.
pub open spec fn data_url_payload(c: Seq<char>) -> Option<Seq<char>> {
    match first_index_of(c, ',') {
        Some(i) => Some(c.skip(i + 1)),
        None => None,
    }
}

/// `s` with every `\r\n` pair removed (scanning from the left).
pub open spec fn without_crlf(s: Seq<char>) -> Seq<char>
    decreases s.len(),
{
    if s.len() == 0 {
        s
    } else if s.len() >= 2 && s[0] == '\r' && s[1] == '\n' {
        without_crlf(s.skip(2))
    } else {
        seq![s[0]] + without_crlf(s.skip(1))
    }
}

/// `s` with every `\n` removed.
pub open spec fn without_lf(s: Seq<char>) -> Seq<char>
    decreases s.len(),
{
    if s.len() == 0 {
        s
    } else if s[0] == '\n' {
        without_lf(s.skip(1))
    } else {
        seq![s[0]] + without_lf(s.skip(1))
    }
}

/// Base64 text with line breaks removed: first every `\r\n`, then every `\n`.
pub open spec fn without_line_breaks(s: Seq<char>) -> Seq<char> {
    without_lf(without_crlf(s))
}

/// The Base64 text inside an image `data:` URL, line breaks removed.
pub open spec fn image_base64_text(c: Seq<char>) -> Option<Seq<char>> {
    match data_url_payload(c) {
        Some(p) => Some(without_line_breaks(p)),
        None => None,
    }
}

/// The image `data:` URL for PNG bytes.
pub open spec fn png_data_url(png: Seq<u8>) -> Seq<char> {
    "data:image/png;base64,"@ + base64_encoding(png)
}

/// The bytes an image `data:` URL carries: its Base64 text, decoded.
pub open spec fn data_url_image_bytes(c: Seq<char>) -> Option<Seq<u8>> {
    match image_base64_text(c) {
        Some(t) => match base64_decoding(t) {
            Ok(b) => Some(b),
            Err(_) => None,
        },
        None => None,
    }
}

/// Width, height and RGBA8 pixels of the image an image `data:` URL carries.
pub open spec fn data_url_image(c: Seq<char>) -> Option<(u32, u32, Seq<u8>)> {
    match data_url_image_bytes(c) {
        Some(b) => match rgba_decoding(b) {
            Ok(d) => Some(d),
            Err(_) => None,
        },
        None => None,
    }
}

/// Text made of Base64 characters has no line breaks to remove.
proof fn lemma_base64_text_unbroken(t: Seq<char>)
    requires
        forall|i: int| 0 <= i < t.len() ==> is_base64_char(#[trigger] t[i]),
    ensures
        without_crlf(t) == t,
        without_lf(t) == t,
    decreases t.len(),
{
    if t.len() > 0 {
        let rest = t.skip(1);
        assert forall|i: int| 0 <= i < rest.len() implies is_base64_char(#[trigger] rest[i]) by {
            assert(rest[i] == t[i + 1]);
        }
        lemma_base64_text_unbroken(rest);
        assert(is_base64_char(t[0]));
        assert(seq![t[0]] + rest =~= t);
    }
}

/// In `prefix + rest`, where the only comma of `prefix` is its last
/// character, the first comma is that one.
proof fn lemma_first_comma_ends_prefix(prefix: Seq<char>, rest: Seq<char>)
    requires
        prefix.len() > 0,
        prefix.last() == ',',
        forall|j: int| 0 <= j < prefix.len() - 1 ==> prefix[j] != ',',
    ensures
        first_index_of(prefix + rest, ',') == Some(prefix.len() - 1),
{
    let s = prefix + rest;
    let k = prefix.len() - 1;
    assert(s[k] == ',');
    assert(s.contains(','));
    assert(forall|j: int| 0 <= j < k ==> s[j] == prefix[j]);
    let i = choose|i: int| 0 <= i < s.len() && s[i] == ',' && forall|j: int| 0 <= j < i ==> s[j] != ',';
    assert(0 <= k < s.len() && s[k] == ',' && forall|j: int| 0 <= j < k ==> s[j] != ',');
    if i < k {
        assert(s[i] == prefix[i]);
    }
    if i > k {
        assert(s[k] != ',');
    }
}

/// The PNG `data:` URL of `png` is an image `data:` URL that carries `png`
/// back, given that Base64 text decodes to what it encodes.
proof fn lemma_png_url_carries(png: Seq<u8>)
    requires
        base64_decoding(base64_encoding(png)) matches Ok(b) && b == png,
    ensures
        is_image_text(png_data_url(png)),
        image_base64_text(png_data_url(png)) == Some(base64_encoding(png)),
        data_url_image_bytes(png_data_url(png)) == Some(png),
{
    reveal_strlit("data:image/png;base64,");
    reveal_strlit("data:image");
    let prefix = "data:image/png;base64,"@;
    let t = base64_encoding(png);
    let url = prefix + t;
    assert(prefix.len() == 22);
    assert(url.take(10) =~= "data:image"@);
    lemma_first_comma_ends_prefix(prefix, t);
    assert(url.skip(22) =~= t);
    lemma_base64_alphabet(png);
    lemma_base64_text_unbroken(t);
}

fn remove_crlf(v: &Vec<char>) -> (out: Vec<char>)
    ensures
        out@ == without_crlf(v@),
{
    let mut out: Vec<char> = Vec::new();
    let mut i: usize = 0;
    assert(v@.skip(0) =~= v@);
    assert(out@ + without_crlf(v@) =~= without_crlf(v@));
    while i < v.len()
        invariant
            i <= v.len(),
            without_crlf(v@) == out@ + without_crlf(v@.skip(i as int)),
        decreases v.len() - i,
    {
        let ghost rest = v@.skip(i as int);
        let ghost before = out@;
        if v[i] == '\r' && i + 1 < v.len() && v[i + 1] == '\n' {
            assert(rest[0] == '\r' && rest[1] == '\n');
            assert(rest.skip(2) =~= v@.skip(i + 2));
            i += 2;
        } else {
            assert(!(rest.len() >= 2 && rest[0] == '\r' && rest[1] == '\n'));
            assert(rest.skip(1) =~= v@.skip(i + 1));
            assert(without_crlf(rest) == seq![rest[0]] + without_crlf(rest.skip(1)));
            out.push(v[i]);
            i += 1;
            assert(before + (seq![rest[0]] + without_crlf(rest.skip(1))) =~= out@ + without_crlf(
                v@.skip(i as int),
            ));
        }
    }
    assert(v@.skip(i as int) =~= Seq::<char>::empty());
    assert(out@ + Seq::<char>::empty() =~= out@);
    out
}

fn remove_lf(v: &Vec<char>) -> (out: Vec<char>)
    ensures
        out@ == without_lf(v@),
{
    let mut out: Vec<char> = Vec::new();
    let mut i: usize = 0;
    assert(v@.skip(0) =~= v@);
    assert(out@ + without_lf(v@) =~= without_lf(v@));
    while i < v.len()
        invariant
            i <= v.len(),
            without_lf(v@) == out@ + without_lf(v@.skip(i as int)),
        decreases v.len() - i,
    {
        let ghost rest = v@.skip(i as int);
        let ghost before = out@;
        assert(rest.skip(1) =~= v@.skip(i + 1));
        if v[i] != '\n' {
            assert(without_lf(rest) == seq![rest[0]] + without_lf(rest.skip(1)));
            out.push(v[i]);
            assert(before + (seq![rest[0]] + without_lf(rest.skip(1))) =~= out@ + without_lf(
                rest.skip(1),
            ));
        } else {
            assert(without_lf(rest) == without_lf(rest.skip(1)));
        }
        i += 1;
    }
    assert(v@.skip(i as int) =~= Seq::<char>::empty());
    assert(out@ + Seq::<char>::empty() =~= out@);
    out
}

/// Removes line breaks from Base64 text, as `replace("\r\n", "")` followed
/// by `replace('\n', "")` does.
pub fn strip_line_breaks(s: &str) -> (r: String)
    ensures
        r@ == without_line_breaks(s@),
{
    let v = chars_of(s);
    let a = remove_crlf(&v);
    let b = remove_lf(&a);
    string_from_chars(&b)
}

/// The Base64 text inside an image `data:` URL: what follows the first
/// comma, line breaks removed; `None` when there is no comma.
pub fn image_base64(content: &str) -> (r: Option<String>)
    ensures
        r matches Some(t) ==> image_base64_text(content@) == Some(t@),
        r is None ==> image_base64_text(content@) is None,
{
    let v = chars_of(content);
    match find_char(&v, ',') {
        Some(i) => {
            assert(i < v.len());
            let payload = string_from_range(&v, i + 1, v.len());
            assert(payload@ =~= v@.skip(i + 1));
            Some(strip_line_breaks(payload.as_str()))
        },
        None => None,
    }
}

/// The bytes of the image inside a `data:` URL: what follows the first comma,
/// line breaks removed, Base64-decoded. `None` when there is no comma or the
/// text is not valid Base64.
pub fn image_bytes_from_data_url(content: &str) -> (r: Option<Vec<u8>>)
    ensures
        r matches Some(b) ==> (image_base64_text(content@) matches Some(t)
            && base64_decoding(t) matches Ok(d) && d == b@),
        r is None ==> (image_base64_text(content@) matches Some(t) ==> base64_decoding(t) is Err),
{
    match image_base64(content) {
        Some(t) => match base64_decode(t.as_str()) {
            Ok(b) => Some(b),
            Err(_) => None,
        },
        None => None,
    }
}

/// The `data:` URL that carries PNG bytes; reading the URL back gives the
/// same bytes.
pub fn png_to_data_url(png: &Vec<u8>) -> (url: String)
    ensures
        url@ == png_data_url(png@),
        is_image_text(url@),
        data_url_image_bytes(url@) == Some(png@),
{
    let prefix = String::from_str("data:image/png;base64,");
    let encoded = base64_encode(png.as_slice());
    proof {
        lemma_png_url_carries(png@);
    }
    prefix.concat(encoded.as_str())
}

/// The kind a message to the phone carries: `image` for image URLs, else `text`.
pub fn message_kind(content: &str) -> (kind: String)
    ensures
        kind@ == (if is_image_text(content@) { "image"@ } else { "text"@ }),
{
    if is_image_content(content) {
        String::from_str("image")
    } else {
        String::from_str("text")
    }
}

/// One server-sent event frame carrying `data` as a `clipboard-update` event.
pub fn sse_frame(data: &str) -> (frame: String)
    ensures
        frame@ == "event: clipboard-update\ndata: "@ + data@ + "\n\n"@,
{
    let head = String::from_str("event: clipboard-update\ndata: ");
    let with_data = head.concat(data);
    with_data.concat("\n\n")
}

/// Content that is not an image `data:` URL and holds any of the eleven
/// keywords is code; content that starts with `data:image` is an image.
pub proof fn law_keywords_make_code(c: Seq<char>)
    ensures
        has_prefix(c, "data:image"@) ==> category_of(c) == "image"@,
        !has_prefix(c, "data:image"@) && (contains_text(c, "function"@) || contains_text(c, "const "@)
            || contains_text(c, "let "@) || contains_text(c, "var "@) || contains_text(c, "import "@)
            || contains_text(c, "class "@) || contains_text(c, "def "@) || contains_text(c, "return"@)
            || contains_text(c, "<html>"@) || contains_text(c, "<?php"@) || contains_text(c, "public "@))
            ==> category_of(c) == "code"@,
{
}

} // verus!
