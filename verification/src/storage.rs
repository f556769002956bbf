//! Saved notes and transcripts: their file names, their listing order, what a
//! note file holds and which deletions are allowed.
//!
//! Reading directories, writing and removing files are I/O and stand outside
//! the library.

use vstd::prelude::*;

use crate::errors::CoreError;
use crate::events::AppEvent;
use crate::names::{name_or_default, MeetingNames};
use crate::numbers::{decimal, decimal_string, parse_u64, parse_unsigned};
use crate::paths::{
    file_stem, file_stem_of, is_safe_child, path_extension, path_extension_of, path_result_matches,
    path_starts_with, resolve_notes_dir, resolve_transcripts_dir, safe_filename, safe_filename_of,
    notes_dir_of, data_subdir_of, PathEnv,
};
use crate::settings::{validated_model, Settings};
use crate::text::{
    chars_of, eq, join, join_exec, lemma_non_empty_push, non_empty, split, split_exec, split_once,
    split_once_exec, string_of, trim,
};
use crate::types::{MeetingNotes, StoredDocument, StoredDocumentKind};

verus! {

broadcast use vstd::seq_lib::group_seq_properties, crate::views::lemma_char_vec_deep_view;

// ---------------------------------------------------------------------------
// Note files
// ---------------------------------------------------------------------------

/// What a note file holds: the notes' Markdown, or, when that is blank, a
/// minimal document around the summary.
pub open spec fn note_file_text(summary: Seq<char>, markdown: Seq<char>) -> Seq<char> {
    if trim(markdown).len() == 0 {
        "# Meeting Notes\n\n## Summary\n\n"@ + summary + "\n"@
    } else {
        markdown
    }
}

/// Renders notes for their file.
pub fn render_markdown(notes: &MeetingNotes) -> (r: String)
    ensures
        r@ == note_file_text(notes.summary@, notes.markdown@),
{
    if crate::text::str_is_blank(notes.markdown.as_str()) {
        let mut r = "# Meeting Notes\n\n## Summary\n\n".to_owned();
        r.append(notes.summary.as_str());
        r.append("\n");
        return r;
    }
    notes.markdown.clone()
}

/// Name of the note file saved at `unix_seconds` for a meeting.
pub open spec fn note_file_name_of(unix_seconds: nat, meeting_name: Seq<char>) -> Seq<char> {
    decimal(unix_seconds) + "_"@ + safe_filename_of(meeting_name) + ".md"@
}

/// File name for new notes: Unix time, `_`, the safe meeting name and `.md`.
pub fn note_file_name(unix_seconds: u64, meeting_name: &str) -> (r: String)
    ensures
        r@ == note_file_name_of(unix_seconds as nat, meeting_name@),
{
    let mut r = decimal_string(unix_seconds);
    r.append("_");
    r.append(safe_filename(meeting_name).as_str());
    r.append(".md");
    r
}

// ---------------------------------------------------------------------------
// Document names
// ---------------------------------------------------------------------------

/// A file-name fragment as a title: its `_`-separated words joined by
/// spaces, or `Meeting` when there are none.
pub open spec fn humanised(value: Seq<char>) -> Seq<char> {
    let collapsed = join(non_empty(split(value, '_')), " "@);
    if collapsed.len() == 0 {
        "Meeting"@
    } else {
        collapsed
    }
}

/// Turns a file-name fragment into a title.
pub fn humanise_title(value: &str) -> (r: String)
    ensures
        r@ == humanised(value@),
{
    let v = chars_of(value);
    let parts = split_exec(&v, '_');
    let mut kept: Vec<Vec<char>> = Vec::new();
    let mut k: usize = 0;
    while k < parts.len()
        invariant
            k <= parts.len(),
            parts.deep_view() == split(v@, '_'),
            kept.deep_view() == non_empty(split(v@, '_').take(k as int)),
        decreases parts.len() - k,
    {
        let ghost all = split(v@, '_');
        assert(all.take(k + 1) =~= all.take(k as int).push(all[k as int]));
        assert(all[k as int] == parts@[k as int]@);
        proof {
            lemma_non_empty_push(all.take(k as int), all[k as int]);
        }
        if parts[k].len() > 0 {
            let ghost prev = kept.deep_view();
            kept.push(parts[k].clone());
            assert(kept.deep_view() =~= prev.push(all[k as int]));
        }
        k += 1;
    }
    assert(split(v@, '_').take(parts.len() as int) =~= split(v@, '_'));
    let collapsed = join_exec(&kept, &chars_of(" "));
    if collapsed.len() == 0 {
        "Meeting".to_owned()
    } else {
        string_of(&collapsed)
    }
}

/// The timestamp and title that a document's file stem encodes: the number
/// before the first `_` (zero when it is none) and the rest as a title; a
/// stem without `_` is all title.
pub open spec fn stem_fields(stem: Seq<char>) -> (nat, Seq<char>) {
    match split_once(stem, '_') {
        Some(parts) => (
            match parse_unsigned(parts.0, u64::MAX as nat) {
                Some(n) => n,
                None => 0,
            },
            humanised(parts.1),
        ),
        None => (0, humanised(stem)),
    }
}

/// Reads a document's timestamp and title from its path; a path without a
/// file name is no document.
pub fn parse_document(path: &str, kind: StoredDocumentKind) -> (r: Option<StoredDocument>)
    ensures
        match file_stem_of(path@) {
            None => r is None,
            Some(stem) => r matches Some(d) && d.kind == kind && d.path@ == path@
                && d.timestamp_seconds as nat == stem_fields(stem).0 && d.title@ == stem_fields(stem).1,
        },
{
    let stem = match file_stem(path) {
        Some(s) => s,
        None => {
            return None;
        },
    };
    let sv = chars_of(stem.as_str());
    let (timestamp, title) = match split_once_exec(&sv, '_') {
        Some((head, tail)) => {
            let ts = match parse_u64(&head) {
                Some(n) => n,
                None => 0,
            };
            (ts, humanise_title(string_of(&tail).as_str()))
        },
        None => (0, humanise_title(stem.as_str())),
    };
    Some(StoredDocument { kind, path: path.to_owned(), title, timestamp_seconds: timestamp })
}

/// A directory entry is listed when it is a file with the kind's extension
/// and a file name.
pub fn document_from_entry(path: &str, is_file: bool, kind: StoredDocumentKind, extension: &str) -> (r: Option<StoredDocument>)
    ensures
        !is_file || path_extension_of(path@) != Some(extension@) ==> r is None,
        is_file && path_extension_of(path@) == Some(extension@) ==> match file_stem_of(path@) {
            None => r is None,
            Some(stem) => r matches Some(d) && d.kind == kind && d.path@ == path@
                && d.timestamp_seconds as nat == stem_fields(stem).0 && d.title@ == stem_fields(stem).1,
        },
{
    if !is_file {
        return None;
    }
    match path_extension(path) {
        Some(e) => {
            if !eq(&chars_of(e.as_str()), &chars_of(extension)) {
                return None;
            }
        },
        None => {
            return None;
        },
    }
    parse_document(path, kind)
}

/// The extension of a document kind's files.
pub fn document_extension(kind: StoredDocumentKind) -> (r: &'static str)
    ensures
        r@ == if kind == StoredDocumentKind::Note { "md"@ } else { "txt"@ },
{
    match kind {
        StoredDocumentKind::Note => "md",
        StoredDocumentKind::Transcript => "txt",
    }
}

// ---------------------------------------------------------------------------
// Listing order
// ---------------------------------------------------------------------------

/// Lexicographic order of characters by code point, which is the byte order
/// of their UTF-8 encodings.
pub open spec fn text_lt(a: Seq<char>, b: Seq<char>) -> bool
    decreases a.len(),
{
    if a.len() == 0 {
        b.len() > 0
    } else if b.len() == 0 {
        false
    } else if a[0] != b[0] {
        (a[0] as u32) < (b[0] as u32)
    } else {
        text_lt(a.drop_first(), b.drop_first())
    }
}

/// `text_lt` is irreflexive and asymmetric.
pub proof fn lemma_text_lt_asymmetric(a: Seq<char>, b: Seq<char>)
    ensures
        !(text_lt(a, b) && text_lt(b, a)),
        !text_lt(a, a),
    decreases a.len(),
{
    if a.len() > 0 && b.len() > 0 && a[0] == b[0] {
        lemma_text_lt_asymmetric(a.drop_first(), b.drop_first());
    }
    if a.len() > 0 {
        lemma_text_lt_asymmetric(a.drop_first(), a.drop_first());
    }
}

/// `text_lt` is transitive.
pub proof fn lemma_text_lt_transitive(a: Seq<char>, b: Seq<char>, c: Seq<char>)
    requires
        text_lt(a, b),
        text_lt(b, c),
    ensures
        text_lt(a, c),
    decreases a.len(),
{
    if a.len() > 0 && b.len() > 0 && c.len() > 0 && a[0] == b[0] && b[0] == c[0] {
        lemma_text_lt_transitive(a.drop_first(), b.drop_first(), c.drop_first());
    }
}

/// Documents are listed newest first, then by title.
pub open spec fn listed_before(a: StoredDocument, b: StoredDocument) -> bool {
    a.timestamp_seconds > b.timestamp_seconds || (a.timestamp_seconds == b.timestamp_seconds
        && text_lt(a.title@, b.title@))
}

/// No document is listed after one that should come after it.
pub open spec fn listing_sorted(s: Seq<StoredDocument>) -> bool {
    forall|i: int, j: int| 0 <= i < j < s.len() ==> !listed_before(#[trigger] s[j], #[trigger] s[i])
}

/// Whether `a` comes strictly before `b` in a listing.
fn title_less(a: &Vec<char>, b: &Vec<char>) -> (r: bool)
    ensures
        r == text_lt(a@, b@),
{
    let mut i: usize = 0;
    while i < a.len() && i < b.len() && a[i] == b[i]
        invariant
            i <= a@.len(),
            i <= b@.len(),
            text_lt(a@, b@) == text_lt(a@.skip(i as int), b@.skip(i as int)),
        decreases a@.len() - i,
    {
        assert(a@.skip(i as int).drop_first() =~= a@.skip(i + 1));
        assert(b@.skip(i as int).drop_first() =~= b@.skip(i + 1));
        i += 1;
    }
    if i == a.len() {
        i < b.len()
    } else if i == b.len() {
        false
    } else {
        (a[i] as u32) < (b[i] as u32)
    }
}

/// Whether `a` is listed strictly before `b`.
fn document_before(a: &StoredDocument, b: &StoredDocument) -> (r: bool)
    ensures
        r == listed_before(*a, *b),
{
    if a.timestamp_seconds != b.timestamp_seconds {
        return a.timestamp_seconds > b.timestamp_seconds;
    }
    title_less(&chars_of(a.title.as_str()), &chars_of(b.title.as_str()))
}

/// `listed_before` is a strict order.
pub proof fn lemma_listed_before_order(a: StoredDocument, b: StoredDocument, c: StoredDocument)
    ensures
        !(listed_before(a, b) && listed_before(b, a)),
        listed_before(a, b) && listed_before(b, c) ==> listed_before(a, c),
{
    lemma_text_lt_asymmetric(a.title@, b.title@);
    if listed_before(a, b) && listed_before(b, c) && a.timestamp_seconds == b.timestamp_seconds
        && b.timestamp_seconds == c.timestamp_seconds {
        lemma_text_lt_transitive(a.title@, b.title@, c.title@);
    }
}

/// Orders documents for listing, newest first and then by title. The result
/// holds the same documents; where two documents tie on both, which comes
/// first is left open.
pub fn sort_documents(docs: Vec<StoredDocument>) -> (r: Vec<StoredDocument>)
    ensures
        listing_sorted(r@),
        r@.to_multiset() == docs@.to_multiset(),
{
    let mut sorted: Vec<StoredDocument> = Vec::new();
    let mut rest = docs;
    let ghost initial = rest@;
    proof {
        broadcast use vstd::multiset::group_multiset_axioms;

        assert(sorted@.to_multiset() =~= vstd::multiset::Multiset::<StoredDocument>::empty());
        assert(sorted@.to_multiset().add(rest@.to_multiset()) =~= initial.to_multiset());
    }
    while rest.len() > 0
        invariant
            listing_sorted(sorted@),
            sorted@.to_multiset().add(rest@.to_multiset()) == initial.to_multiset(),
        decreases rest@.len(),
    {
        let ghost before_rest = rest@;
        let d = rest.remove(0);
        proof {
            vstd::seq_lib::to_multiset_remove(before_rest, 0);
            vstd::seq_lib::to_multiset_contains(before_rest, d);
        }
        let mut p: usize = 0;
        while p < sorted.len() && !document_before(&d, &sorted[p])
            invariant
                p <= sorted@.len(),
                forall|k: int| 0 <= k < p ==> !listed_before(d, #[trigger] sorted@[k]),
            decreases sorted@.len() - p,
        {
            p += 1;
        }
        proof {
            let s = sorted@;
            let n = s.insert(p as int, d);
            s.insert_ensures(p as int, d);
            assert forall|i: int, j: int| 0 <= i < j < n.len() implies !listed_before(#[trigger] n[j], #[trigger] n[i]) by {
                if j == p {
                    assert(!listed_before(d, s[i]));
                } else if i == p {
                    let jj = j - 1;
                    assert(n[j] == s[jj]);
                    lemma_listed_before_order(s[jj], d, s[p as int]);
                    lemma_listed_before_order(d, s[p as int], s[jj]);
                    if p < jj {
                        assert(!listed_before(s[jj], s[p as int]));
                    }
                } else {
                    let ii = if i < p { i } else { i - 1 };
                    let jj = if j < p { j } else { j - 1 };
                    assert(n[i] == s[ii] && n[j] == s[jj]);
                }
            }
            vstd::seq_lib::to_multiset_insert(s, p as int, d);
            broadcast use vstd::multiset::group_multiset_axioms;

            assert(n.to_multiset().add(before_rest.to_multiset().remove(d)) =~= s.to_multiset().add(
                before_rest.to_multiset(),
            ));
        }
        sorted.insert(p, d);
    }
    proof {
        broadcast use vstd::multiset::group_multiset_axioms;

        assert(rest@.to_multiset() =~= vstd::multiset::Multiset::<StoredDocument>::empty());
        assert(sorted@.to_multiset().add(rest@.to_multiset()) =~= sorted@.to_multiset());
    }
    sorted
}

// ---------------------------------------------------------------------------
// Deletion
// ---------------------------------------------------------------------------

/// The directory that holds documents of a kind.
pub fn document_base_dir(settings: &Settings, kind: StoredDocumentKind, env: &PathEnv) -> (r: Result<String, CoreError>)
    ensures
        kind == StoredDocumentKind::Note ==> match r {
            Ok(p) => notes_dir_of(settings.storage.notes_dir@, *env) == Ok::<Seq<char>, ()>(p@),
            Err(_) => notes_dir_of(settings.storage.notes_dir@, *env) is Err,
        },
        kind == StoredDocumentKind::Transcript ==> path_result_matches(r, data_subdir_of(*env, "transcripts"@), "data"@),
{
    match kind {
        StoredDocumentKind::Note => resolve_notes_dir(settings, env),
        StoredDocumentKind::Transcript => resolve_transcripts_dir(env),
    }
}

/// Deleting is allowed only inside the managed directory; both paths are
/// canonical.
pub fn check_document_path(canonical_base: &str, canonical_candidate: &str) -> (r: Result<(), String>)
    ensures
        path_starts_with(canonical_candidate@, canonical_base@) ==> r is Ok,
        !path_starts_with(canonical_candidate@, canonical_base@) ==> (r matches Err(m) && m@
            == "refusing to access "@ + canonical_candidate@ + " outside "@ + canonical_base@),
{
    if is_safe_child(canonical_base, canonical_candidate) {
        return Ok(());
    }
    let mut m = "refusing to access ".to_owned();
    m.append(canonical_candidate);
    m.append(" outside ");
    m.append(canonical_base);
    Err(m)
}


// ---------------------------------------------------------------------------
// The storage loop
// ---------------------------------------------------------------------------

/// What the storage loop does after an event.
#[derive(Debug)]
pub enum StorageAction {
    /// Nothing.
    Nothing,
    /// Write `content` to a file named by [`note_file_name`] in the notes
    /// directory, then announce it with `NoteSaved`.
    SaveNotes { meeting_id: u128, meeting_name: String, content: String },
    /// Check the path with [`check_document_path`] against
    /// [`document_base_dir`], remove it, then announce `DocumentDeleted`.
    DeleteDocument { path: String, kind: StoredDocumentKind },
    /// Leave the loop.
    Stop,
}

/// The storage loop: meeting names until their notes are saved, and the
/// current settings.
#[derive(Debug)]
pub struct StorageState {
    /// Names of the meetings whose notes are pending.
    pub names: MeetingNames,
    /// Current settings.
    pub settings: Settings,
}

impl StorageState {
    /// No names known; the settings are validated.
    pub fn new(settings: &Settings) -> (r: Self)
        ensures
            r.names.names() == Map::<u128, Seq<char>>::empty(),
            r.settings@ == validated_model(settings@),
    {
        StorageState { names: MeetingNames::new(), settings: settings.validated() }
    }

    /// Reacts to an event from the bus.
    pub fn handle_event(&mut self, event: AppEvent) -> (action: StorageAction)
        ensures
            match event {
                AppEvent::MeetingStarted { id, name, .. } => final(self).names.names() == old(self).names.names().insert(id, name@)
                    && final(self).settings == old(self).settings && action is Nothing,
                AppEvent::SummarisationReady { meeting_id, notes } => {
                    &&& final(self).names.names() == old(self).names.names().remove(meeting_id)
                    &&& final(self).settings == old(self).settings
                    &&& action matches StorageAction::SaveNotes { meeting_id: i, meeting_name, content }
                    &&& i == meeting_id
                    &&& meeting_name@ == name_or_default(old(self).names.names(), meeting_id)
                    &&& content@ == note_file_text(notes.summary@, notes.markdown@)
                },
                AppEvent::DeleteDocumentRequested { path, kind } => final(self).names.names() == old(self).names.names()
                    && final(self).settings == old(self).settings
                    && (action matches StorageAction::DeleteDocument { path: p, kind: k } && p@ == path@ && k == kind),
                AppEvent::SettingsChanged(updated) => final(self).names.names() == old(self).names.names()
                    && final(self).settings@ == validated_model(updated@) && action is Nothing,
                AppEvent::QuitRequested => final(self).names.names() == old(self).names.names()
                    && final(self).settings == old(self).settings && action is Stop,
                _ => final(self).names.names() == old(self).names.names() && final(self).settings == old(self).settings
                    && action is Nothing,
            },
    {
        match event {
            AppEvent::MeetingStarted { id, name, .. } => {
                self.names.insert(id, name);
                StorageAction::Nothing
            },
            AppEvent::SummarisationReady { meeting_id, notes } => {
                let meeting_name = self.names.take(meeting_id);
                StorageAction::SaveNotes { meeting_id, meeting_name, content: render_markdown(&notes) }
            },
            AppEvent::DeleteDocumentRequested { path, kind } => StorageAction::DeleteDocument { path, kind },
            AppEvent::SettingsChanged(updated) => {
                self.settings = updated.validated();
                StorageAction::Nothing
            },
            AppEvent::QuitRequested => StorageAction::Stop,
            _ => StorageAction::Nothing,
        }
    }
}

} // verus!
