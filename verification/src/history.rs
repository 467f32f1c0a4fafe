//! History items, the signatures of deleted content, and the settings the
//! history database starts with.
use vstd::prelude::*;
use crate::content::{signature_of, signature_for, category_of, detect_category};
use crate::text::{is_blank, is_blank_text};

verus! {

broadcast use vstd::string::group_string_axioms;

/// One entry of the clipboard history.
#[derive(Clone)]
pub struct HistoryItem {
    pub id: i64,
    pub content: String,
    pub created_at: String,
    pub category: String,
}

impl HistoryItem {
    /// The item a history row makes; a row whose category cannot be read
    /// gets the category `text`.
    pub fn from_row(id: i64, content: String, created_at: String, category: Option<String>) -> (item: Self)
        ensures
            item.id == id,
            item.content@ == content@,
            item.created_at@ == created_at@,
            item.category@ == (match category {
                Some(c) => c@,
                None => "text"@,
            }),
    {
        let category = match category {
            Some(c) => c,
            None => String::from_str("text"),
        };
        HistoryItem { id, content, created_at, category }
    }
}

/// Signatures of content the user deleted since the history was last
/// cleared. A forced sync does not bring such content back.
pub struct DeletedSignatures {
    sigs: Vec<String>,
}

impl View for DeletedSignatures {
    type V = Set<Seq<char>>;

    closed spec fn view(&self) -> Set<Seq<char>> {
        Set::new(|s: Seq<char>| exists|i: int| 0 <= i < self.sigs@.len() && #[trigger] self.sigs@[i]@ == s)
    }
}

impl DeletedSignatures {
    /// No deleted content.
    pub fn new() -> (d: Self)
        ensures
            d@ == Set::<Seq<char>>::empty(),
    {
        let d = DeletedSignatures { sigs: Vec::new() };
        assert(d@ =~= Set::<Seq<char>>::empty());
        d
    }

    /// Whether `sig` is the signature of deleted content.
    pub fn contains_signature(&self, sig: &String) -> (r: bool)
        ensures
            r == self@.contains(sig@),
    {
        let mut i: usize = 0;
        while i < self.sigs.len()
            invariant
                i <= self.sigs@.len(),
                forall|k: int| 0 <= k < i ==> self.sigs@[k]@ != sig@,
            decreases self.sigs.len() - i,
        {
            if self.sigs[i] == *sig {
                assert(self.sigs@[i as int]@ == sig@);
                return true;
            }
            i += 1;
        }
        false
    }

    /// Records that the user deleted `content`.
    pub fn note_deleted(&mut self, content: &str)
        ensures
            final(self)@ == old(self)@.insert(signature_of(content@)),
    {
        let sig = signature_for(content);
        if !self.contains_signature(&sig) {
            self.sigs.push(sig);
            assert forall|s: Seq<char>| final(self)@.contains(s) <==> old(self)@.insert(signature_of(content@)).contains(s) by {
                if old(self)@.contains(s) {
                    let i = choose|i: int| 0 <= i < old(self).sigs@.len() && #[trigger] old(self).sigs@[i]@ == s;
                    assert(self.sigs@[i]@ == s);
                }
                if final(self)@.contains(s) && s != signature_of(content@) {
                    let i = choose|i: int| 0 <= i < self.sigs@.len() && #[trigger] self.sigs@[i]@ == s;
                    assert(i < old(self).sigs@.len());
                    assert(old(self).sigs@[i]@ == s);
                }
                if s == signature_of(content@) {
                    assert(self.sigs@[self.sigs@.len() - 1]@ == s);
                }
            }
            assert(final(self)@ =~= old(self)@.insert(signature_of(content@)));
        } else {
            assert(old(self)@.insert(signature_of(content@)) =~= old(self)@);
        }
    }

    /// Forgets every deleted signature (the history was cleared).
    pub fn clear(&mut self)
        ensures
            final(self)@ == Set::<Seq<char>>::empty(),
    {
        self.sigs = Vec::new();
        assert(final(self)@ =~= Set::<Seq<char>>::empty());
    }
}

/// A forced sync brings the clipboard text `text` into the history only if
/// it is not empty and was not deleted by the user.
pub open spec fn resync_allows(deleted: Set<Seq<char>>, text: Seq<char>) -> bool {
    text.len() > 0 && !deleted.contains(signature_of(text))
}

/// Content a forced sync may add, with its category.
pub struct ResyncItem {
    pub content: String,
    pub category: String,
}

/// What a forced sync may add for the clipboard text `text` (`None` when the
/// clipboard has no text): the text and its category, unless it is empty or
/// was deleted by the user.
pub fn resync_candidate(deleted: &DeletedSignatures, text: Option<String>) -> (r: Option<ResyncItem>)
    ensures
        r is Some <==> (text matches Some(t) && resync_allows(deleted@, t@)),
        r matches Some(item) ==> (text matches Some(t) && item.content@ == t@ && item.category@
            == category_of(t@)),
{
    match text {
        Some(t) => {
            if t.as_str().is_empty() {
                return None;
            }
            let sig = signature_for(t.as_str());
            if deleted.contains_signature(&sig) {
                return None;
            }
            let category = detect_category(t.as_str());
            Some(ResyncItem { content: t, category })
        },
        None => None,
    }
}

/// Whether a forced sync inserts its candidate, given whether the history
/// already holds it (`None` when that could not be found out, which counts
/// as "already there").
pub fn insert_missed(already_present: Option<bool>) -> (insert: bool)
    ensures
        insert == (already_present == Some(false)),
{
    match already_present {
        Some(present) => !present,
        None => false,
    }
}

/// Deleted content does not come back: once the user deleted `content`, a
/// forced sync that finds it on the clipboard does not add it, until the
/// history is cleared; after clearing, any non-empty text is allowed again.
pub proof fn law_deleted_content_stays_deleted(deleted: Set<Seq<char>>, content: Seq<char>)
    ensures
        !resync_allows(deleted.insert(signature_of(content)), content),
        content.len() > 0 ==> resync_allows(Set::<Seq<char>>::empty(), content),
{
}

/// The settings a new database starts with, as (key, value) pairs.
pub open spec fn default_settings_spec() -> Seq<(Seq<char>, Seq<char>)> {
    seq![
        ("history_limit"@, "200"@),
        ("server_port"@, "19527"@),
        ("privacy_mode"@, "false"@),
        ("shortcut"@, "Alt+V"@),
        ("theme"@, "system"@),
        ("disable_search"@, "false"@),
        ("file_save_path"@, ""@),
        ("follow_mouse"@, "false"@),
    ]
}

fn setting(key: &str, value: &str) -> (p: (String, String))
    ensures
        p.0@ == key@,
        p.1@ == value@,
{
    (String::from_str(key), String::from_str(value))
}

/// The settings a new database starts with (inserted unless already set).
pub fn default_settings() -> (d: Vec<(String, String)>)
    ensures
        d@.len() == default_settings_spec().len(),
        forall|i: int| 0 <= i < d@.len() ==> (#[trigger] d@[i]).0@ == default_settings_spec()[i].0
            && d@[i].1@ == default_settings_spec()[i].1,
{
    let mut d: Vec<(String, String)> = Vec::new();
    d.push(setting("history_limit", "200"));
    d.push(setting("server_port", "19527"));
    d.push(setting("privacy_mode", "false"));
    d.push(setting("shortcut", "Alt+V"));
    d.push(setting("theme", "system"));
    d.push(setting("disable_search", "false"));
    d.push(setting("file_save_path", ""));
    d.push(setting("follow_mouse", "false"));
    d
}

/// A stored path when one is set (non-empty), else `fallback`.
pub open spec fn stored_or(stored: Option<Seq<char>>, fallback: Seq<char>) -> Seq<char> {
    match stored {
        Some(s) => if s.len() > 0 { s } else { fallback },
        None => fallback,
    }
}

/// The optional text inside an optional `String`.
pub open spec fn opt_view(o: Option<String>) -> Option<Seq<char>> {
    match o {
        Some(s) => Some(s@),
        None => None,
    }
}

/// The folder where received files go, from the `file_save_path` setting
/// (`None` when it could not be read): the setting when it is not empty,
/// else `fallback` (the user's download folder).
pub fn stored_or_default(stored: Option<String>, fallback: String) -> (p: String)
    ensures
        p@ == stored_or(opt_view(stored), fallback@),
{
    match stored {
        Some(s) => if s.as_str().is_empty() { fallback } else { s },
        None => fallback,
    }
}

/// The folder where files from the phone go: the folder held in memory when
/// it is not empty, else the stored setting when it is not empty, else
/// `fallback`.
pub fn configured_save_path(current: String, stored: Option<String>, fallback: String) -> (p: String)
    ensures
        p@ == (if current@.len() > 0 { current@ } else { stored_or(opt_view(stored), fallback@) }),
{
    if !current.as_str().is_empty() {
        current
    } else {
        stored_or_default(stored, fallback)
    }
}

/// Refuses a save folder that is empty once trimmed: `路径为空`.
pub fn check_save_path(path: &str) -> (r: Result<(), String>)
    ensures
        is_blank_text(path@) ==> (r matches Err(e) && e@ == "路径为空"@),
        !is_blank_text(path@) ==> r is Ok,
{
    if is_blank(path) {
        Err(String::from_str("路径为空"))
    } else {
        Ok(())
    }
}

/// A forced sync refuses non-empty clipboard text only when the text's own
/// signature, its first 100 characters, is among the deleted signatures; a
/// deleted signature that is merely a prefix of the text does not block it.
pub proof fn law_resync_refuses_only_deleted_signature(deleted: Set<Seq<char>>, text: Seq<char>)
    ensures
        resync_allows(deleted, text) <==> (text.len() > 0 && !deleted.contains(
            if text.len() <= 100 { text } else { text.take(100) },
        )),
        text.len() == 0 ==> !resync_allows(deleted, text),
        0 < text.len() <= 100 && !deleted.contains(text) ==> resync_allows(deleted, text),
        forall|p: Seq<char>|
            0 < text.len() <= 100 && p.len() < text.len() && deleted == Set::<Seq<char>>::empty().insert(p)
                ==> #[trigger] resync_allows(Set::<Seq<char>>::empty().insert(p), text),
{
    assert forall|p: Seq<char>|
        0 < text.len() <= 100 && p.len() < text.len() && deleted == Set::<Seq<char>>::empty().insert(p)
            implies #[trigger] resync_allows(Set::<Seq<char>>::empty().insert(p), text) by {
        assert(text != p);
    }
}

} // verus!
