//! Choosing the translation direction and assembling the translated text.
use vstd::prelude::*;
use crate::text::{chars_of, is_blank, is_blank_text};

verus! {

broadcast use vstd::string::group_string_axioms;

/// `c` is a CJK unified ideograph (U+4E00 to U+9FFF).
pub open spec fn is_cjk(c: char) -> bool {
    0x4E00 <= (c as u32) && (c as u32) <= 0x9FFF
}

/// `s` holds at least one CJK unified ideograph.
pub open spec fn has_cjk(s: Seq<char>) -> bool {
    exists|i: int| 0 <= i < s.len() && is_cjk(#[trigger] s[i])
}

/// The language `content` is translated into: English when it holds Chinese
/// characters, else simplified Chinese. The source language is detected by
/// the service.
pub fn translation_target(content: &str) -> (lang: String)
    ensures
        lang@ == (if has_cjk(content@) { "en"@ } else { "zh-CN"@ }),
{
    let v = chars_of(content);
    let mut i: usize = 0;
    while i < v.len()
        invariant
            i <= v.len(),
            v@ == content@,
            forall|k: int| 0 <= k < i ==> !is_cjk(#[trigger] v@[k]),
        decreases v.len() - i,
    {
        let c = v[i] as u32;
        if 0x4E00 <= c && c <= 0x9FFF {
            assert(is_cjk(content@[i as int]));
            return String::from_str("en");
        }
        i += 1;
    }
    String::from_str("zh-CN")
}

/// Refuses text that is empty once trimmed: `内容为空`.
pub fn check_translation_input(content: &str) -> (r: Result<(), String>)
    ensures
        is_blank_text(content@) ==> (r matches Err(e) && e@ == "内容为空"@),
        !is_blank_text(content@) ==> r is Ok,
{
    if is_blank(content) {
        Err(String::from_str("内容为空"))
    } else {
        Ok(())
    }
}

/// The concatenation of the segments that are present.
pub open spec fn joined_segments(segments: Seq<Option<String>>) -> Seq<char>
    decreases segments.len(),
{
    if segments.len() == 0 {
        Seq::empty()
    } else {
        joined_segments(segments.drop_last()) + match segments.last() {
            Some(s) => s@,
            None => Seq::empty(),
        }
    }
}

/// The translation assembled from the service's sentence segments (`None`
/// for a sentence without text): their concatenation, or the error
/// `Google翻译结果为空` when that is empty.
pub fn join_translation(segments: &Vec<Option<String>>) -> (r: Result<String, String>)
    ensures
        joined_segments(segments@).len() == 0 ==> (r matches Err(e) && e@ == "Google翻译结果为空"@),
        joined_segments(segments@).len() > 0 ==> (r matches Ok(t) && t@ == joined_segments(segments@)),
{
    let mut out = String::new();
    let mut i: usize = 0;
    while i < segments.len()
        invariant
            i <= segments.len(),
            out@ == joined_segments(segments@.take(i as int)),
        decreases segments.len() - i,
    {
        assert(segments@.take(i + 1).drop_last() =~= segments@.take(i as int));
        match &segments[i] {
            Some(s) => out.append(s.as_str()),
            None => {},
        }
        i += 1;
        assert(out@ =~= joined_segments(segments@.take(i as int)));
    }
    assert(segments@.take(segments@.len() as int) =~= segments@);
    if out.as_str().is_empty() {
        Err(String::from_str("Google翻译结果为空"))
    } else {
        Ok(out)
    }
}

/// A JSON value, as far as reading the translation service's reply needs it.
pub enum Json {
    /// An array.
    Array(Vec<Json>),
    /// A string.
    Text(String),
    /// Anything else: null, a boolean, a number or an object.
    Other,
}

/// The text of one sentence entry of the reply: the entry's first element,
/// when the entry is an array whose first element is a string.
pub open spec fn sentence_text(entry: Json) -> Option<Seq<char>> {
    match entry {
        Json::Array(items) => if items@.len() > 0 {
            match items@[0] {
                Json::Text(t) => Some(t@),
                _ => None,
            }
        } else {
            None
        },
        _ => None,
    }
}

/// The sentence entries of the reply: its first element, when the reply is
/// an array whose first element is an array; else none.
pub open spec fn reply_sentences(reply: Json) -> Seq<Json> {
    match reply {
        Json::Array(items) => if items@.len() > 0 {
            match items@[0] {
                Json::Array(sentences) => sentences@,
                _ => Seq::empty(),
            }
        } else {
            Seq::empty()
        },
        _ => Seq::empty(),
    }
}

/// The optional text inside an optional `String`.
pub open spec fn segment_view(o: Option<String>) -> Option<Seq<char>> {
    match o {
        Some(s) => Some(s@),
        None => None,
    }
}

fn entry_text(entry: &Json) -> (t: Option<String>)
    ensures
        segment_view(t) == sentence_text(*entry),
{
    match entry {
        Json::Array(items) => {
            if items.len() > 0 {
                match &items[0] {
                    Json::Text(t) => Some(t.clone()),
                    _ => None,
                }
            } else {
                None
            }
        },
        _ => None,
    }
}

/// The sentence segments of the translation service's reply, in order: for
/// each sentence entry, its text (`None` for an entry without one). The
/// segments are joined by `join_translation`.
pub fn translation_segments(reply: &Json) -> (segs: Vec<Option<String>>)
    ensures
        segs@.len() == reply_sentences(*reply).len(),
        forall|i: int| 0 <= i < segs@.len() ==> segment_view(#[trigger] segs@[i]) == sentence_text(
            reply_sentences(*reply)[i],
        ),
{
    let mut segs: Vec<Option<String>> = Vec::new();
    match reply {
        Json::Array(items) => {
            if items.len() > 0 {
                match &items[0] {
                    Json::Array(sentences) => {
                        let mut i: usize = 0;
                        while i < sentences.len()
                            invariant
                                i <= sentences@.len(),
                                sentences@ == reply_sentences(*reply),
                                segs@.len() == i,
                                forall|k: int| 0 <= k < i ==> segment_view(#[trigger] segs@[k]) == sentence_text(
                                    sentences@[k],
                                ),
                            decreases sentences.len() - i,
                        {
                            let t = entry_text(&sentences[i]);
                            segs.push(t);
                            i += 1;
                        }
                    },
                    _ => {},
                }
            }
        },
        _ => {},
    }
    segs
}

/// The target is English whenever any character, at any position, lies in
/// U+4E00..U+9FFF, and simplified Chinese only when none does.
pub proof fn law_cjk_anywhere_means_english(s: Seq<char>)
    ensures
        has_cjk(s) <==> exists|i: int| 0 <= i < s.len() && 0x4E00 <= (#[trigger] s[i] as u32) <= 0x9FFF,
        forall|i: int| 0 <= i < s.len() && 0x4E00 <= (#[trigger] s[i] as u32) <= 0x9FFF ==> has_cjk(s),
        !has_cjk(s) ==> forall|i: int| 0 <= i < s.len() ==> !(0x4E00 <= (#[trigger] s[i] as u32) <= 0x9FFF),
{
    assert forall|i: int| 0 <= i < s.len() && 0x4E00 <= (#[trigger] s[i] as u32) <= 0x9FFF implies has_cjk(s) by {
        assert(is_cjk(s[i]));
    }
    if has_cjk(s) {
        let i = choose|i: int| 0 <= i < s.len() && is_cjk(#[trigger] s[i]);
        assert(0 <= i < s.len() && 0x4E00 <= (s[i] as u32) <= 0x9FFF);
    }
}

} // verus!
