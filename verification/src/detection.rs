//! Hyprland-based Microsoft Teams meeting detection.
//!
//! The library decides, from the Hyprland client list, whether a Teams meeting
//! window is open and what it is called, and drives the detection state
//! machine; asking `hyprctl` and listening on the Hyprland socket is I/O that
//! the application performs.

use vstd::prelude::*;

use crate::paths::{join_path, path_join};
use crate::settings::Settings;
use crate::events::{is_meeting_ended, is_meeting_started, AppEvent};
use crate::types::{strings_view, DetectionSource};
use crate::text::{
    chars_of, contains, contains_exec, ends_with, ends_with_exec, eq, is_blank, is_ws,
    join, join_exec, lemma_non_empty_push, lemma_trim_len, lemma_trim_start_len, lower, lower_exec, non_empty, split,
    split_exec, split_once, split_once_exec, string_of, subvec, trim, trim_exec, trim_start,
    trim_start_exec, lemma_split_len,
};

verus! {

broadcast use vstd::seq_lib::group_seq_properties, crate::views::lemma_char_vec_deep_view;

// ---------------------------------------------------------------------------
// Title vocabularies
// ---------------------------------------------------------------------------

/// Name used when a Teams window carries no usable meeting title.
pub open spec fn teams_label() -> Seq<char> {
    "Microsoft Teams"@
}

/// Window-title suffixes that Teams itself appends.
pub open spec fn teams_title_suffixes() -> Seq<Seq<char>> {
    seq![
        " | Microsoft Teams"@,
        " - Microsoft Teams"@,
        " \u{2013} Microsoft Teams"@,
        " \u{2014} Microsoft Teams"@,
        " | teams.microsoft.com"@,
        " - teams.microsoft.com"@,
        " \u{2013} teams.microsoft.com"@,
        " \u{2014} teams.microsoft.com"@,
    ]
}

/// Window-title suffixes that browsers append.
pub open spec fn browser_title_suffixes() -> Seq<Seq<char>> {
    seq![
        " | Google Chrome"@,
        " - Google Chrome"@,
        " | Chromium"@,
        " - Chromium"@,
        " | Mozilla Firefox"@,
        " - Mozilla Firefox"@,
        " | Firefox"@,
        " - Firefox"@,
        " | Brave"@,
        " - Brave"@,
        " | Zen Browser"@,
        " - Zen Browser"@,
        " | Microsoft Edge"@,
        " - Microsoft Edge"@,
    ]
}

/// Lower-case title segments of Teams navigation views, which are not meetings.
pub open spec fn non_meeting_title_prefixes() -> Seq<Seq<char>> {
    seq![
        "activity"@,
        "calendar"@,
        "calls"@,
        "chat"@,
        "files"@,
        "teams"@,
        "tasks"@,
        "communities"@,
        "more"@,
        "meeting compact view"@,
        "teams and channels"@,
        "waiting for network..."@,
    ]
}

/// Every suffix in the two suffix lists is non-empty.
pub proof fn lemma_suffixes_nonempty()
    ensures
        forall|i: int| 0 <= i < teams_title_suffixes().len() ==> #[trigger] teams_title_suffixes()[i].len() > 0,
        forall|i: int| 0 <= i < browser_title_suffixes().len() ==> #[trigger] browser_title_suffixes()[i].len() > 0,
{
    reveal_strlit(" | Microsoft Teams");
    reveal_strlit(" - Microsoft Teams");
    reveal_strlit(" \u{2013} Microsoft Teams");
    reveal_strlit(" \u{2014} Microsoft Teams");
    reveal_strlit(" | teams.microsoft.com");
    reveal_strlit(" - teams.microsoft.com");
    reveal_strlit(" \u{2013} teams.microsoft.com");
    reveal_strlit(" \u{2014} teams.microsoft.com");
    reveal_strlit(" | Google Chrome");
    reveal_strlit(" - Google Chrome");
    reveal_strlit(" | Chromium");
    reveal_strlit(" - Chromium");
    reveal_strlit(" | Mozilla Firefox");
    reveal_strlit(" - Mozilla Firefox");
    reveal_strlit(" | Firefox");
    reveal_strlit(" - Firefox");
    reveal_strlit(" | Brave");
    reveal_strlit(" - Brave");
    reveal_strlit(" | Zen Browser");
    reveal_strlit(" - Zen Browser");
    reveal_strlit(" | Microsoft Edge");
    reveal_strlit(" - Microsoft Edge");
}

// ---------------------------------------------------------------------------
// Meeting-name normalisation (specification)
// ---------------------------------------------------------------------------

/// The first suffix of `list` that `s` ends with, stripped and trimmed.
pub open spec fn strip_first_suffix(s: Seq<char>, list: Seq<Seq<char>>) -> Option<Seq<char>>
    decreases list.len(),
{
    if list.len() == 0 {
        None
    } else if ends_with(s, list[0]) {
        Some(trim(s.subrange(0, s.len() - list[0].len())))
    } else {
        strip_first_suffix(s, list.drop_first())
    }
}

/// One stripping step: a browser suffix if one matches, else a Teams suffix.
pub open spec fn strip_step(s: Seq<char>) -> Option<Seq<char>> {
    match strip_first_suffix(s, browser_title_suffixes()) {
        Some(n) => Some(n),
        None => strip_first_suffix(s, teams_title_suffixes()),
    }
}

/// Stripping through a list of non-empty suffixes shortens the sequence.
pub proof fn lemma_strip_first_suffix_shorter(s: Seq<char>, list: Seq<Seq<char>>)
    requires
        forall|i: int| 0 <= i < list.len() ==> #[trigger] list[i].len() > 0,
    ensures
        strip_first_suffix(s, list) matches Some(n) ==> n.len() < s.len(),
    decreases list.len(),
{
    if list.len() > 0 {
        if ends_with(s, list[0]) {
            lemma_trim_len(s.subrange(0, s.len() - list[0].len()));
        } else {
            assert forall|i: int| 0 <= i < list.drop_first().len() implies #[trigger] list.drop_first()[i].len() > 0 by {
                assert(list.drop_first()[i] == list[i + 1]);
            }
            lemma_strip_first_suffix_shorter(s, list.drop_first());
        }
    }
}

/// A stripping step shortens the title.
pub proof fn lemma_strip_step_shorter(s: Seq<char>)
    ensures
        strip_step(s) matches Some(n) ==> n.len() < s.len(),
{
    lemma_suffixes_nonempty();
    lemma_strip_first_suffix_shorter(s, browser_title_suffixes());
    lemma_strip_first_suffix_shorter(s, teams_title_suffixes());
}

/// Repeatedly strips browser and Teams suffixes while the title changes.
pub open spec fn strip_all_suffixes(s: Seq<char>) -> Seq<char>
    decreases s.len(),
{
    match strip_step(s) {
        Some(n) => if n != s {
            proof {
                lemma_strip_step_shorter(s);
            }
            strip_all_suffixes(n)
        } else {
            s
        },
        None => s,
    }
}

/// All characters are ASCII digits.
pub open spec fn all_ascii_digits(s: Seq<char>) -> bool {
    forall|i: int| 0 <= i < s.len() ==> '0' <= #[trigger] s[i] && s[i] <= '9'
}

/// Removes leading unread-count badges such as `(12) ` from a trimmed title.
pub open spec fn strip_badges_from(t: Seq<char>) -> Seq<char>
    decreases t.len(),
{
    if t.len() > 0 && t[0] == '(' {
        match split_once(t.drop_first(), ')') {
            Some((count, suffix)) => if count.len() > 0 && all_ascii_digits(count) {
                proof {
                    crate::text::lemma_find_char(t.drop_first(), ')');
                    lemma_trim_start_len(suffix);
                }
                strip_badges_from(trim_start(suffix))
            } else {
                t
            },
            None => t,
        }
    } else {
        t
    }
}

/// `strip_leading_notification_badges`: trims, then removes leading badges.
pub open spec fn strip_badges(s: Seq<char>) -> Seq<char> {
    strip_badges_from(trim(s))
}

/// The cleaned segments of a `|`-separated title.
pub open spec fn clean_segments(s: Seq<char>) -> Seq<Seq<char>> {
    non_empty(split(s, '|').map_values(|seg: Seq<char>| trim(strip_badges(seg))))
}

/// `normalize_meeting_name`: the meeting name carried by a window title.
pub open spec fn normalized_meeting_name(raw: Seq<char>) -> Option<Seq<char>> {
    let trimmed = trim(raw);
    if trimmed.len() == 0 {
        None
    } else {
        let joined = join(clean_segments(strip_all_suffixes(trimmed)), " | "@);
        if joined.len() == 0 {
            Some(teams_label())
        } else if lower(joined) == "microsoft teams"@ || contains(
            lower(joined),
            "teams.microsoft.com"@,
        ) {
            Some(teams_label())
        } else {
            Some(joined)
        }
    }
}

/// The lower-cased, badge-free, non-empty segments of a meeting name.
pub open spec fn title_segments(name: Seq<char>) -> Seq<Seq<char>> {
    non_empty(split(name, '|').map_values(|seg: Seq<char>| lower(strip_badges(seg))))
}

/// `is_meeting_title_allowed`: the name is neither empty, the bare Teams label,
/// nor a Teams navigation view.
pub open spec fn meeting_title_allowed(name: Seq<char>) -> bool {
    let segments = title_segments(name);
    &&& segments.len() > 0
    &&& !(segments.len() == 1 && segments[0] == "microsoft teams"@)
    &&& !(exists|i: int| 0 <= i < segments.len() && non_meeting_title_prefixes().contains(#[trigger] segments[i]))
}

// ---------------------------------------------------------------------------
// Meeting-name normalisation (implementation)
// ---------------------------------------------------------------------------

/// The Teams suffix list.
fn teams_suffixes_exec() -> (r: Vec<Vec<char>>)
    ensures
        r.deep_view() == teams_title_suffixes(),
{
    let r = vec![
        chars_of(" | Microsoft Teams"),
        chars_of(" - Microsoft Teams"),
        chars_of(" \u{2013} Microsoft Teams"),
        chars_of(" \u{2014} Microsoft Teams"),
        chars_of(" | teams.microsoft.com"),
        chars_of(" - teams.microsoft.com"),
        chars_of(" \u{2013} teams.microsoft.com"),
        chars_of(" \u{2014} teams.microsoft.com"),
    ];
    assert(r.deep_view() =~= teams_title_suffixes());
    r
}

/// The browser suffix list.
fn browser_suffixes_exec() -> (r: Vec<Vec<char>>)
    ensures
        r.deep_view() == browser_title_suffixes(),
{
    let r = vec![
        chars_of(" | Google Chrome"),
        chars_of(" - Google Chrome"),
        chars_of(" | Chromium"),
        chars_of(" - Chromium"),
        chars_of(" | Mozilla Firefox"),
        chars_of(" - Mozilla Firefox"),
        chars_of(" | Firefox"),
        chars_of(" - Firefox"),
        chars_of(" | Brave"),
        chars_of(" - Brave"),
        chars_of(" | Zen Browser"),
        chars_of(" - Zen Browser"),
        chars_of(" | Microsoft Edge"),
        chars_of(" - Microsoft Edge"),
    ];
    assert(r.deep_view() =~= browser_title_suffixes());
    r
}

/// The navigation-view segment list.
fn non_meeting_prefixes_exec() -> (r: Vec<Vec<char>>)
    ensures
        r.deep_view() == non_meeting_title_prefixes(),
{
    let r = vec![
        chars_of("activity"),
        chars_of("calendar"),
        chars_of("calls"),
        chars_of("chat"),
        chars_of("files"),
        chars_of("teams"),
        chars_of("tasks"),
        chars_of("communities"),
        chars_of("more"),
        chars_of("meeting compact view"),
        chars_of("teams and channels"),
        chars_of("waiting for network..."),
    ];
    assert(r.deep_view() =~= non_meeting_title_prefixes());
    r
}

/// `strip_known_suffixes`: strips the first matching suffix and trims.
pub fn strip_known_suffixes(value: &Vec<char>, suffixes: &Vec<Vec<char>>) -> (r: Option<Vec<char>>)
    ensures
        r.deep_view() == strip_first_suffix(value@, suffixes.deep_view()),
{
    let ghost list = suffixes.deep_view();
    let mut i: usize = 0;
    assert(list.subrange(0, list.len() as int) =~= list);
    while i < suffixes.len()
        invariant
            i <= suffixes.len(),
            list == suffixes.deep_view(),
            strip_first_suffix(value@, list) == strip_first_suffix(
                value@,
                list.subrange(i as int, list.len() as int),
            ),
        decreases suffixes.len() - i,
    {
        let ghost rest = list.subrange(i as int, list.len() as int);
        assert(rest[0] == suffixes@[i as int]@);
        if ends_with_exec(value, &suffixes[i]) {
            let prefix = subvec(value, 0, value.len() - suffixes[i].len());
            return Some(trim_exec(&prefix));
        }
        assert(rest.drop_first() =~= list.subrange(i + 1, list.len() as int));
        i += 1;
    }
    None
}

/// One stripping step.
fn strip_step_exec(value: &Vec<char>, browser: &Vec<Vec<char>>, teams: &Vec<Vec<char>>) -> (r: Option<Vec<char>>)
    requires
        browser.deep_view() == browser_title_suffixes(),
        teams.deep_view() == teams_title_suffixes(),
    ensures
        r.deep_view() == strip_step(value@),
{
    match strip_known_suffixes(value, browser) {
        Some(n) => Some(n),
        None => strip_known_suffixes(value, teams),
    }
}

/// Strips suffixes until none matches.
fn strip_all_suffixes_exec(value: &Vec<char>) -> (r: Vec<char>)
    ensures
        r@ == strip_all_suffixes(value@),
{
    let browser = browser_suffixes_exec();
    let teams = teams_suffixes_exec();
    let mut cur = value.clone();
    loop
        invariant
            browser.deep_view() == browser_title_suffixes(),
            teams.deep_view() == teams_title_suffixes(),
            strip_all_suffixes(cur@) == strip_all_suffixes(value@),
        decreases cur@.len(),
    {
        proof {
            lemma_strip_step_shorter(cur@);
        }
        match strip_step_exec(&cur, &browser, &teams) {
            Some(next) => {
                if eq(&next, &cur) {
                    return cur;
                }
                cur = next;
            },
            None => {
                return cur;
            },
        }
    }
}

/// `strip_leading_notification_badges`.
pub fn strip_leading_notification_badges(value: &Vec<char>) -> (r: Vec<char>)
    ensures
        r@ == strip_badges(value@),
{
    let mut t = trim_exec(value);
    loop
        invariant
            strip_badges_from(t@) == strip_badges(value@),
        decreases t@.len(),
    {
        if t.len() == 0 || t[0] != '(' {
            return t;
        }
        let rest = subvec(&t, 1, t.len());
        assert(rest@ =~= t@.drop_first());
        match split_once_exec(&rest, ')') {
            Some((count, suffix)) => {
                let mut digits = count.len() > 0;
                let mut k: usize = 0;
                while k < count.len()
                    invariant
                        k <= count.len(),
                        digits == (count.len() > 0 && forall|j: int| 0 <= j < k ==> '0' <= #[trigger] count@[j] && count@[j] <= '9'),
                    decreases count.len() - k,
                {
                    if !('0' <= count[k] && count[k] <= '9') {
                        digits = false;
                    }
                    k += 1;
                }
                assert(digits == (count@.len() > 0 && all_ascii_digits(count@)));
                if !digits {
                    return t;
                }
                proof {
                    crate::text::lemma_find_char(rest@, ')');
                    lemma_trim_start_len(suffix@);
                }
                t = trim_start_exec(&suffix);
            },
            None => {
                return t;
            },
        }
    }
}

/// The cleaned, non-empty segments of a title, joined back with ` | `.
fn clean_segments_exec(s: &Vec<char>) -> (r: Vec<Vec<char>>)
    ensures
        r.deep_view() == clean_segments(s@),
{
    let parts = split_exec(s, '|');
    let ghost mapped = split(s@, '|').map_values(|seg: Seq<char>| trim(strip_badges(seg)));
    let mut out: Vec<Vec<char>> = Vec::new();
    let mut i: usize = 0;
    while i < parts.len()
        invariant
            i <= parts.len(),
            parts.deep_view() == split(s@, '|'),
            mapped == split(s@, '|').map_values(|seg: Seq<char>| trim(strip_badges(seg))),
            out.deep_view() == non_empty(mapped.take(i as int)),
        decreases parts.len() - i,
    {
        let badge_free = strip_leading_notification_badges(&parts[i]);
        let seg = trim_exec(&badge_free);
        assert(mapped[i as int] == seg@) by {
            assert(parts.deep_view()[i as int] == parts@[i as int]@);
        }
        assert(mapped.take(i + 1) =~= mapped.take(i as int).push(mapped[i as int]));
        proof {
            lemma_non_empty_push(mapped.take(i as int), mapped[i as int]);
        }
        if seg.len() > 0 {
            let ghost prev = out.deep_view();
            out.push(seg);
            assert(out.deep_view() =~= prev.push(mapped[i as int]));
        }
        i += 1;
    }
    assert(mapped.take(parts.len() as int) =~= mapped);
    out
}

/// `normalize_meeting_name`: the meeting name carried by a window title.
pub fn normalize_meeting_name(raw_title: &str) -> (r: Option<String>)
    ensures
        match r {
            Some(name) => normalized_meeting_name(raw_title@) == Some(name@),
            None => normalized_meeting_name(raw_title@) is None,
        },
{
    let raw = chars_of(raw_title);
    let trimmed = trim_exec(&raw);
    if trimmed.len() == 0 {
        return None;
    }
    let stripped = strip_all_suffixes_exec(&trimmed);
    let segments = clean_segments_exec(&stripped);
    let sep = chars_of(" | ");
    let joined = join_exec(&segments, &sep);
    if joined.len() == 0 {
        return Some("Microsoft Teams".to_owned());
    }
    let lowered = lower_exec(&joined);
    let label = chars_of("microsoft teams");
    let host = chars_of("teams.microsoft.com");
    if eq(&lowered, &label) || contains_exec(&lowered, &host) {
        return Some("Microsoft Teams".to_owned());
    }
    Some(string_of(&joined))
}

/// One title segment without leading notification badges, in lower case.
pub fn normalized_title_segment(segment: &Vec<char>) -> (r: Vec<char>)
    ensures
        r@ == lower(strip_badges(segment@)),
{
    lower_exec(&strip_leading_notification_badges(segment))
}

/// `normalized_title_segments`.
pub fn normalized_title_segments(name: &Vec<char>) -> (r: Vec<Vec<char>>)
    ensures
        r.deep_view() == title_segments(name@),
{
    let parts = split_exec(name, '|');
    let ghost mapped = split(name@, '|').map_values(|seg: Seq<char>| lower(strip_badges(seg)));
    let mut out: Vec<Vec<char>> = Vec::new();
    let mut i: usize = 0;
    while i < parts.len()
        invariant
            i <= parts.len(),
            parts.deep_view() == split(name@, '|'),
            mapped == split(name@, '|').map_values(|seg: Seq<char>| lower(strip_badges(seg))),
            out.deep_view() == non_empty(mapped.take(i as int)),
        decreases parts.len() - i,
    {
        let seg = normalized_title_segment(&parts[i]);
        assert(mapped[i as int] == seg@) by {
            assert(parts.deep_view()[i as int] == parts@[i as int]@);
        }
        assert(mapped.take(i + 1) =~= mapped.take(i as int).push(mapped[i as int]));
        proof {
            lemma_non_empty_push(mapped.take(i as int), mapped[i as int]);
        }
        if seg.len() > 0 {
            let ghost prev = out.deep_view();
            out.push(seg);
            assert(out.deep_view() =~= prev.push(mapped[i as int]));
        }
        i += 1;
    }
    assert(mapped.take(parts.len() as int) =~= mapped);
    out
}

/// `is_meeting_title_allowed`.
pub fn is_meeting_title_allowed(name: &str) -> (r: bool)
    ensures
        r == meeting_title_allowed(name@),
{
    let name_chars = chars_of(name);
    let segments = normalized_title_segments(&name_chars);
    let ghost segs = segments.deep_view();
    if segments.len() == 0 {
        return false;
    }
    let label = chars_of("microsoft teams");
    if segments.len() == 1 && eq(&segments[0], &label) {
        return false;
    }
    let prefixes = non_meeting_prefixes_exec();
    let mut i: usize = 0;
    while i < segments.len()
        invariant
            i <= segments.len(),
            segs == segments.deep_view(),
            segs == title_segments(name@),
            prefixes.deep_view() == non_meeting_title_prefixes(),
            forall|j: int| 0 <= j < i ==> !non_meeting_title_prefixes().contains(#[trigger] segs[j]),
        decreases segments.len() - i,
    {
        let mut k: usize = 0;
        while k < prefixes.len()
            invariant
                i < segments.len(),
                k <= prefixes.len(),
                segs == segments.deep_view(),
                segs == title_segments(name@),
                prefixes.deep_view() == non_meeting_title_prefixes(),
                forall|j: int| 0 <= j < k ==> non_meeting_title_prefixes()[j] != segs[i as int],
            decreases prefixes.len() - k,
        {
            if eq(&segments[i], &prefixes[k]) {
                assert(non_meeting_title_prefixes()[k as int] == segs[i as int]);
                assert(non_meeting_title_prefixes().contains(segs[i as int]));
                return false;
            }
            k += 1;
        }
        i += 1;
    }
    true
}

// ---------------------------------------------------------------------------
// Clients and candidates
// ---------------------------------------------------------------------------

/// One window as reported by `hyprctl clients -j`.
#[derive(Debug, Clone, PartialEq, Eq)]
pub struct HyprlandClient {
    /// Window address.
    pub address: String,
    /// Window class.
    pub class_name: String,
    /// Initial window class.
    pub initial_class: String,
    /// Current window title.
    pub title: String,
    /// Initial window title.
    pub initial_title: String,
    /// Whether the window is mapped.
    pub mapped: bool,
    /// Whether the window is hidden.
    pub hidden: bool,
}

/// A window that looks like a Teams meeting.
#[derive(Debug, Clone, PartialEq, Eq)]
pub struct MeetingCandidate {
    /// Window address.
    pub address: String,
    /// Meeting name derived from the title.
    pub name: String,
    /// How strongly the window matches.
    pub score: u8,
}

/// The meeting that detection currently tracks.
#[derive(Debug, Clone, PartialEq, Eq)]
pub struct DetectedMeeting {
    /// Meeting identifier.
    pub id: u128,
    /// Address of the meeting window.
    pub address: String,
    /// Meeting name.
    pub name: String,
}

/// Model of a [`HyprlandClient`].
pub struct ClientView {
    pub address: Seq<char>,
    pub title: Seq<char>,
    pub initial_title: Seq<char>,
    pub mapped: bool,
    pub hidden: bool,
}

/// Model of a [`MeetingCandidate`].
pub struct CandidateView {
    pub address: Seq<char>,
    pub name: Seq<char>,
    pub score: u8,
}

/// Model of a [`DetectedMeeting`].
pub struct MeetingView {
    pub id: u128,
    pub address: Seq<char>,
    pub name: Seq<char>,
}

impl View for HyprlandClient {
    type V = ClientView;

    open spec fn view(&self) -> ClientView {
        ClientView {
            address: self.address@,
            title: self.title@,
            initial_title: self.initial_title@,
            mapped: self.mapped,
            hidden: self.hidden,
        }
    }
}

impl View for MeetingCandidate {
    type V = CandidateView;

    open spec fn view(&self) -> CandidateView {
        CandidateView { address: self.address@, name: self.name@, score: self.score }
    }
}

impl View for DetectedMeeting {
    type V = MeetingView;

    open spec fn view(&self) -> MeetingView {
        MeetingView { id: self.id, address: self.address@, name: self.name@ }
    }
}

/// The view of an optional candidate.
pub open spec fn candidate_opt_view(c: Option<MeetingCandidate>) -> Option<CandidateView> {
    match c {
        Some(c) => Some(c@),
        None => None,
    }
}

/// The view of an optional detected meeting.
pub open spec fn meeting_opt_view(m: Option<DetectedMeeting>) -> Option<MeetingView> {
    match m {
        Some(m) => Some(m@),
        None => None,
    }
}

/// `title_match_score`: 2 when either title names Teams, else no match.
pub open spec fn title_score(title: Seq<char>, initial_title: Seq<char>) -> Option<u8> {
    let t = lower(title);
    let it = lower(initial_title);
    if contains(t, "microsoft teams"@) || contains(it, "microsoft teams"@) || contains(
        t,
        "teams.microsoft.com"@,
    ) || contains(it, "teams.microsoft.com"@) {
        Some(2u8)
    } else {
        None
    }
}

/// `meeting_name_from_client`: the title's meeting name, else the initial
/// title's, else the Teams label.
pub open spec fn client_meeting_name(c: ClientView) -> Seq<char> {
    match normalized_meeting_name(c.title) {
        Some(n) => n,
        None => match normalized_meeting_name(c.initial_title) {
            Some(n) => n,
            None => teams_label(),
        },
    }
}

/// `meeting_candidate_from_client`.
pub open spec fn candidate_of(c: ClientView) -> Option<CandidateView> {
    let address = trim(c.address);
    if address.len() == 0 {
        None
    } else {
        let name = client_meeting_name(c);
        if !meeting_title_allowed(name) {
            None
        } else {
            match title_score(c.title, c.initial_title) {
                Some(score) => Some(CandidateView { address, name, score }),
                None => None,
            }
        }
    }
}

/// The candidate of a client, counting only mapped, visible windows.
pub open spec fn visible_candidate(c: ClientView) -> Option<CandidateView> {
    if c.mapped && !c.hidden {
        candidate_of(c)
    } else {
        None
    }
}

/// `select_meeting_candidate`: the best-scoring candidate, the last one among equals.
pub open spec fn select_candidate(cs: Seq<ClientView>) -> Option<CandidateView>
    decreases cs.len(),
{
    if cs.len() == 0 {
        None
    } else {
        let prev = select_candidate(cs.drop_last());
        match visible_candidate(cs.last()) {
            Some(c) => match prev {
                Some(p) => if c.score >= p.score {
                    Some(c)
                } else {
                    Some(p)
                },
                None => Some(c),
            },
            None => prev,
        }
    }
}

/// A window scores 2 as a Teams window when its title or its initial title
/// names Microsoft Teams or its web address, in any letter case, so a Teams
/// window whose title now shows the meeting still counts; a window that names
/// neither is not scored. The two titles play the same part.
pub proof fn law_teams_window_score(title: Seq<char>, initial_title: Seq<char>)
    ensures
        title_score(title, initial_title) == title_score(initial_title, title),
        contains(lower(initial_title), "microsoft teams"@) ==> title_score(title, initial_title) == Some(2u8),
        contains(lower(initial_title), "teams.microsoft.com"@) ==> title_score(title, initial_title) == Some(2u8),
        contains(lower(title), "microsoft teams"@) ==> title_score(title, initial_title) == Some(2u8),
        contains(lower(title), "teams.microsoft.com"@) ==> title_score(title, initial_title) == Some(2u8),
        !contains(lower(title), "microsoft teams"@) && !contains(lower(initial_title), "microsoft teams"@)
            && !contains(lower(title), "teams.microsoft.com"@) && !contains(lower(initial_title), "teams.microsoft.com"@)
            ==> title_score(title, initial_title) is None,
{
}

/// A lone mapped, visible window with an address and an allowed meeting
/// name whose initial title names Microsoft Teams is picked, with score 2,
/// whatever its current title.
pub proof fn law_teams_window_picked_by_initial_title(c: ClientView)
    requires
        c.mapped && !c.hidden,
        trim(c.address).len() > 0,
        meeting_title_allowed(client_meeting_name(c)),
        contains(lower(c.initial_title), "microsoft teams"@),
    ensures
        select_candidate(seq![c]) == Some(CandidateView {
            address: trim(c.address),
            name: client_meeting_name(c),
            score: 2u8,
        }),
{
    let cs = seq![c];
    assert(cs.drop_last() =~= Seq::<ClientView>::empty());
    assert(select_candidate(cs.drop_last()) is None);
    assert(cs.last() == c);
    law_teams_window_score(c.title, c.initial_title);
    assert(candidate_of(c) == Some(CandidateView { address: trim(c.address), name: client_meeting_name(c), score: 2u8 }));
    assert(visible_candidate(cs.last()) == candidate_of(c));
}

/// The views of a list of clients.
pub open spec fn client_views(cs: Seq<HyprlandClient>) -> Seq<ClientView> {
    cs.map_values(|c: HyprlandClient| c@)
}

/// `title_match_score`.
pub fn title_match_score(client: &HyprlandClient) -> (r: Option<u8>)
    ensures
        r == title_score(client.title@, client.initial_title@),
{
    let title = lower_exec(&chars_of(client.title.as_str()));
    let initial_title = lower_exec(&chars_of(client.initial_title.as_str()));
    let teams = chars_of("microsoft teams");
    let host = chars_of("teams.microsoft.com");
    if contains_exec(&title, &teams) || contains_exec(&initial_title, &teams) || contains_exec(
        &title,
        &host,
    ) || contains_exec(&initial_title, &host) {
        Some(2)
    } else {
        None
    }
}

/// `meeting_name_from_client`.
pub fn meeting_name_from_client(client: &HyprlandClient) -> (r: String)
    ensures
        r@ == client_meeting_name(client@),
{
    match normalize_meeting_name(client.title.as_str()) {
        Some(n) => n,
        None => match normalize_meeting_name(client.initial_title.as_str()) {
            Some(n) => n,
            None => "Microsoft Teams".to_owned(),
        },
    }
}

/// `meeting_candidate_from_client`.
pub fn meeting_candidate_from_client(client: &HyprlandClient) -> (r: Option<MeetingCandidate>)
    ensures
        candidate_opt_view(r) == candidate_of(client@),
{
    let address = trim_exec(&chars_of(client.address.as_str()));
    if address.len() == 0 {
        return None;
    }
    let name = meeting_name_from_client(client);
    if !is_meeting_title_allowed(name.as_str()) {
        return None;
    }
    match title_match_score(client) {
        Some(score) => Some(MeetingCandidate { address: string_of(&address), name, score }),
        None => None,
    }
}

/// `select_meeting_candidate`: the best Teams meeting window among the clients.
pub fn select_meeting_candidate(clients: &[HyprlandClient]) -> (r: Option<MeetingCandidate>)
    ensures
        candidate_opt_view(r) == select_candidate(client_views(clients@)),
{
    let mut best: Option<MeetingCandidate> = None;
    let mut i: usize = 0;
    while i < clients.len()
        invariant
            i <= clients.len(),
            candidate_opt_view(best) == select_candidate(client_views(clients@).take(i as int)),
        decreases clients.len() - i,
    {
        let ghost views = client_views(clients@);
        assert(views.take(i + 1).drop_last() =~= views.take(i as int));
        assert(views.take(i + 1).last() == clients@[i as int]@);
        let client = &clients[i];
        if client.mapped && !client.hidden {
            match meeting_candidate_from_client(client) {
                Some(c) => {
                    let replace = match &best {
                        Some(p) => c.score >= p.score,
                        None => true,
                    };
                    if replace {
                        best = Some(c);
                    }
                },
                None => {},
            }
        }
        i += 1;
    }
    assert(client_views(clients@).take(clients.len() as int) =~= client_views(clients@));
    best
}

// ---------------------------------------------------------------------------
// Detection state machine
// ---------------------------------------------------------------------------

/// Number of `MeetingStarted` events in a sequence.
pub open spec fn count_started(events: Seq<AppEvent>) -> int
    decreases events.len(),
{
    if events.len() == 0 {
        0
    } else {
        count_started(events.drop_last()) + if events.last() is MeetingStarted {
            1int
        } else {
            0int
        }
    }
}

/// Number of `MeetingEnded` events in a sequence.
pub open spec fn count_ended(events: Seq<AppEvent>) -> int
    decreases events.len(),
{
    if events.len() == 0 {
        0
    } else {
        count_ended(events.drop_last()) + if events.last() is MeetingEnded {
            1int
        } else {
            0int
        }
    }
}

/// 1 when a meeting is tracked, else 0.
pub open spec fn live_count(m: Option<DetectedMeeting>) -> int {
    if m is Some {
        1
    } else {
        0
    }
}

/// The meeting tracked after applying `candidate` to `active`; a new meeting
/// takes the identifier `fresh_id`.
pub open spec fn next_meeting(active: Option<MeetingView>, candidate: Option<CandidateView>, fresh_id: u128) -> Option<MeetingView> {
    match (active, candidate) {
        (None, Some(c)) => Some(MeetingView { id: fresh_id, address: c.address, name: c.name }),
        (Some(m), Some(c)) => if m.address == c.address {
            Some(MeetingView { id: m.id, address: m.address, name: c.name })
        } else {
            Some(MeetingView { id: fresh_id, address: c.address, name: c.name })
        },
        (Some(_), None) => None,
        (None, None) => None,
    }
}

/// The events published when applying `candidate` to `active`.
pub open spec fn detection_events_ok(events: Seq<AppEvent>, active: Option<MeetingView>, candidate: Option<CandidateView>, fresh_id: u128) -> bool {
    match (active, candidate) {
        (None, Some(c)) => events.len() == 1 && is_meeting_started(
            events[0],
            fresh_id,
            c.name,
            DetectionSource::Hyprland,
        ),
        (Some(m), Some(c)) => if m.address == c.address {
            events.len() == 0
        } else {
            events.len() == 2 && is_meeting_ended(events[0], m.id) && is_meeting_started(
                events[1],
                fresh_id,
                c.name,
                DetectionSource::Hyprland,
            )
        },
        (Some(m), None) => events.len() == 1 && is_meeting_ended(events[0], m.id),
        (None, None) => events.len() == 0,
    }
}

/// A meeting-started event for a Hyprland detection.
fn started_event(id: u128, name: &String) -> (e: AppEvent)
    ensures
        is_meeting_started(e, id, name@, DetectionSource::Hyprland),
{
    AppEvent::MeetingStarted { id, name: name.clone(), source: DetectionSource::Hyprland }
}

/// `end_detected_meeting`: stops tracking the meeting and announces its end.
pub fn end_detected_meeting(active_meeting: &mut Option<DetectedMeeting>) -> (events: Vec<AppEvent>)
    ensures
        *final(active_meeting) is None,
        match *old(active_meeting) {
            Some(m) => events@.len() == 1 && is_meeting_ended(events@[0], m.id),
            None => events@.len() == 0,
        },
        count_started(events@) - count_ended(events@) == live_count(*final(active_meeting)) - live_count(*old(active_meeting)),
{
    let mut events: Vec<AppEvent> = Vec::new();
    match active_meeting.take() {
        Some(meeting) => {
            events.push(AppEvent::MeetingEnded { id: meeting.id });
            assert(events@.drop_last() =~= Seq::<AppEvent>::empty());
            assert(count_started(events@.drop_last()) == 0);
            assert(count_ended(events@.drop_last()) == 0);
        },
        None => {},
    }
    events
}

/// `apply_detected_candidate`: moves the detection state machine to the
/// candidate seen now and returns the events to publish.
pub fn apply_detected_candidate(
    active_meeting: &mut Option<DetectedMeeting>,
    candidate: Option<MeetingCandidate>,
    fresh_id: u128,
) -> (events: Vec<AppEvent>)
    ensures
        meeting_opt_view(*final(active_meeting)) == next_meeting(
            meeting_opt_view(*old(active_meeting)),
            candidate_opt_view(candidate),
            fresh_id,
        ),
        detection_events_ok(
            events@,
            meeting_opt_view(*old(active_meeting)),
            candidate_opt_view(candidate),
            fresh_id,
        ),
        count_started(events@) - count_ended(events@) == live_count(*final(active_meeting)) - live_count(*old(active_meeting)),
{
    let mut events: Vec<AppEvent> = Vec::new();
    match candidate {
        Some(c) => {
            let same = match active_meeting {
                Some(m) => eq(&chars_of(m.address.as_str()), &chars_of(c.address.as_str())),
                None => false,
            };
            if same {
                match active_meeting {
                    Some(m) => {
                        m.name = c.name;
                    },
                    None => {},
                }
            } else {
                let ended = end_detected_meeting(active_meeting);
                let e = started_event(fresh_id, &c.name);
                events = ended;
                events.push(e);
                *active_meeting = Some(DetectedMeeting { id: fresh_id, address: c.address, name: c.name });
                assert(events@.drop_last() == ended@);
                assert(ended@.len() == 0 ==> ended@ =~= Seq::<AppEvent>::empty());
                assert(ended@.len() == 1 ==> ended@.drop_last() =~= Seq::<AppEvent>::empty());
            }
        },
        None => {
            events = end_detected_meeting(active_meeting);
        },
    }
    events
}

// ---------------------------------------------------------------------------
// Detection loop
// ---------------------------------------------------------------------------

/// File name of Hyprland's event socket.
pub const HYPRLAND_SOCKET_NAME: &'static str = ".socket2.sock";

/// First delay, in seconds, before reconnecting to the event socket.
pub const HYPRLAND_RECONNECT_DELAY_SECS: u64 = 5;

/// Longest delay, in seconds, between reconnection attempts.
pub const HYPRLAND_MAX_RECONNECT_DELAY_SECS: u64 = 60;

/// Seconds between polls of the Hyprland client list.
pub const HYPRLAND_POLL_INTERVAL_SECS: u64 = 15;

/// `detection_enabled`: automatic detection is on and the session is Hyprland.
pub fn detection_enabled(settings: &Settings, hyprland_session: bool) -> (r: bool)
    ensures
        r == (settings.meeting.auto_detect && hyprland_session),
{
    settings.meeting.auto_detect && hyprland_session
}

/// What the detection loop does after an event from the bus.
#[derive(Debug)]
pub struct DetectionStep {
    /// Events to publish, in order.
    pub publish: Vec<AppEvent>,
    /// Whether the client list should be inspected again.
    pub refresh: bool,
    /// Whether the loop ends.
    pub stop: bool,
}

/// The state of the detection loop.
#[derive(Debug)]
pub struct DetectionState {
    /// `meeting.auto_detect` of the current settings.
    pub auto_detect: bool,
    /// Whether Rustle runs inside Hyprland.
    pub hyprland_session: bool,
    /// The meeting that detection tracks.
    pub active_meeting: Option<DetectedMeeting>,
    /// A meeting started by another source (such as the user), which pauses detection.
    pub external_meeting_id: Option<u128>,
}

impl DetectionState {
    /// Starts detection with the loaded settings and nothing tracked.
    pub fn new(settings: &Settings, hyprland_session: bool) -> (r: Self)
        ensures
            r.auto_detect == settings.meeting.auto_detect,
            r.hyprland_session == hyprland_session,
            r.active_meeting is None,
            r.external_meeting_id is None,
    {
        DetectionState {
            auto_detect: settings.meeting.auto_detect,
            hyprland_session,
            active_meeting: None,
            external_meeting_id: None,
        }
    }

    /// Whether detection runs.
    pub fn enabled(&self) -> (r: bool)
        ensures
            r == (self.auto_detect && self.hyprland_session),
    {
        self.auto_detect && self.hyprland_session
    }

    /// Reacts to an application event.
    pub fn handle_event(&mut self, event: &AppEvent) -> (step: DetectionStep)
        ensures
            final(self).hyprland_session == old(self).hyprland_session,
            count_started(step.publish@) - count_ended(step.publish@) == live_count(final(self).active_meeting) - live_count(old(self).active_meeting),
            match *event {
                AppEvent::MeetingStarted { id, source, .. } => if source != DetectionSource::Hyprland {
                    &&& final(self).external_meeting_id == Some(id)
                    &&& final(self).active_meeting is None
                    &&& final(self).auto_detect == old(self).auto_detect
                    &&& !step.refresh && !step.stop
                    &&& match old(self).active_meeting {
                        Some(m) => step.publish@.len() == 1 && is_meeting_ended(step.publish@[0], m.id),
                        None => step.publish@.len() == 0,
                    }
                } else {
                    unchanged_step(*old(self), *final(self), step)
                },
                AppEvent::MeetingEnded { id } => if old(self).external_meeting_id == Some(id) {
                    &&& final(self).external_meeting_id is None
                    &&& meeting_opt_view(final(self).active_meeting) == meeting_opt_view(old(self).active_meeting)
                    &&& final(self).auto_detect == old(self).auto_detect
                    &&& step.publish@.len() == 0 && step.refresh && !step.stop
                } else {
                    unchanged_step(*old(self), *final(self), step)
                },
                AppEvent::SettingsChanged(settings) => {
                    let was = old(self).auto_detect && old(self).hyprland_session;
                    let is = settings.meeting.auto_detect && old(self).hyprland_session;
                    &&& final(self).auto_detect == settings.meeting.auto_detect
                    &&& final(self).external_meeting_id == old(self).external_meeting_id
                    &&& step.refresh == (!was && is)
                    &&& !step.stop
                    &&& if is {
                        meeting_opt_view(final(self).active_meeting) == meeting_opt_view(old(self).active_meeting)
                            && step.publish@.len() == 0
                    } else {
                        final(self).active_meeting is None && match old(self).active_meeting {
                            Some(m) => step.publish@.len() == 1 && is_meeting_ended(step.publish@[0], m.id),
                            None => step.publish@.len() == 0,
                        }
                    }
                },
                AppEvent::QuitRequested => {
                    &&& final(self).active_meeting is None
                    &&& final(self).auto_detect == old(self).auto_detect
                    &&& final(self).external_meeting_id == old(self).external_meeting_id
                    &&& step.stop && !step.refresh
                    &&& match old(self).active_meeting {
                        Some(m) => step.publish@.len() == 1 && is_meeting_ended(step.publish@[0], m.id),
                        None => step.publish@.len() == 0,
                    }
                },
                _ => unchanged_step(*old(self), *final(self), step),
            },
    {
        match event {
            AppEvent::MeetingStarted { id, source, .. } => {
                if *source != DetectionSource::Hyprland {
                    self.external_meeting_id = Some(*id);
                    let publish = end_detected_meeting(&mut self.active_meeting);
                    return DetectionStep { publish, refresh: false, stop: false };
                }
                DetectionStep { publish: Vec::new(), refresh: false, stop: false }
            },
            AppEvent::MeetingEnded { id } => {
                if self.external_meeting_id == Some(*id) {
                    self.external_meeting_id = None;
                    return DetectionStep { publish: Vec::new(), refresh: true, stop: false };
                }
                DetectionStep { publish: Vec::new(), refresh: false, stop: false }
            },
            AppEvent::SettingsChanged(settings) => {
                let was_enabled = self.enabled();
                self.auto_detect = settings.meeting.auto_detect;
                let is_enabled = self.enabled();
                let publish = if !is_enabled {
                    end_detected_meeting(&mut self.active_meeting)
                } else {
                    Vec::new()
                };
                DetectionStep { publish, refresh: !was_enabled && is_enabled, stop: false }
            },
            AppEvent::QuitRequested => {
                let publish = end_detected_meeting(&mut self.active_meeting);
                DetectionStep { publish, refresh: false, stop: true }
            },
            _ => DetectionStep { publish: Vec::new(), refresh: false, stop: false },
        }
    }

    /// `reconcile_detected_meeting`: while another source owns the meeting,
    /// ends any detected one; otherwise applies the client-list snapshot (an
    /// error in taking it changes nothing).
    pub fn reconcile(
        &mut self,
        snapshot: Result<Option<MeetingCandidate>, String>,
        fresh_id: u128,
    ) -> (events: Vec<AppEvent>)
        ensures
            final(self).auto_detect == old(self).auto_detect,
            final(self).hyprland_session == old(self).hyprland_session,
            final(self).external_meeting_id == old(self).external_meeting_id,
            count_started(events@) - count_ended(events@) == live_count(final(self).active_meeting) - live_count(old(self).active_meeting),
            old(self).external_meeting_id is Some ==> {
                &&& final(self).active_meeting is None
                &&& match old(self).active_meeting {
                    Some(m) => events@.len() == 1 && is_meeting_ended(events@[0], m.id),
                    None => events@.len() == 0,
                }
            },
            old(self).external_meeting_id is None ==> match snapshot {
                Ok(candidate) => {
                    &&& meeting_opt_view(final(self).active_meeting) == next_meeting(
                        meeting_opt_view(old(self).active_meeting),
                        candidate_opt_view(candidate),
                        fresh_id,
                    )
                    &&& detection_events_ok(
                        events@,
                        meeting_opt_view(old(self).active_meeting),
                        candidate_opt_view(candidate),
                        fresh_id,
                    )
                },
                Err(_) => meeting_opt_view(final(self).active_meeting) == meeting_opt_view(old(self).active_meeting)
                    && events@.len() == 0,
            },
    {
        if self.external_meeting_id.is_some() {
            return end_detected_meeting(&mut self.active_meeting);
        }
        match snapshot {
            Ok(candidate) => apply_detected_candidate(&mut self.active_meeting, candidate, fresh_id),
            Err(_) => Vec::new(),
        }
    }
}

/// Nothing changes and nothing is published.
pub open spec fn unchanged_step(before: DetectionState, after: DetectionState, step: DetectionStep) -> bool {
    &&& after.auto_detect == before.auto_detect
    &&& after.external_meeting_id == before.external_meeting_id
    &&& meeting_opt_view(after.active_meeting) == meeting_opt_view(before.active_meeting)
    &&& step.publish@.len() == 0
    &&& !step.refresh
    &&& !step.stop
}

/// Whether the event socket listener is connected or polling.
#[derive(Debug, Clone, Copy, PartialEq, Eq, Structural)]
pub enum ListenerMode {
    /// Only the poll interval drives detection.
    Polling,
    /// Socket events drive detection.
    Connected,
}

/// How a listener transition is reported.
#[derive(Debug, Clone, Copy, PartialEq, Eq, Structural)]
pub enum ListenerTransition {
    /// The mode did not change (an informational message).
    Unchanged,
    /// The listener connected again (an informational recovery message).
    Recovered,
    /// The listener fell back to polling (a warning).
    Degraded,
}

/// `log_listener_transition`: records the new mode and says how to report it.
pub fn log_listener_transition(mode: &mut ListenerMode, next_mode: ListenerMode) -> (r: ListenerTransition)
    ensures
        *final(mode) == next_mode,
        r == if *old(mode) == next_mode {
            ListenerTransition::Unchanged
        } else if next_mode == ListenerMode::Connected {
            ListenerTransition::Recovered
        } else {
            ListenerTransition::Degraded
        },
{
    if *mode == next_mode {
        return ListenerTransition::Unchanged;
    }
    let r = match next_mode {
        ListenerMode::Connected => ListenerTransition::Recovered,
        ListenerMode::Polling => ListenerTransition::Degraded,
    };
    *mode = next_mode;
    r
}

/// `next_reconnect_delay`: doubles the delay, capped at the maximum and never
/// below the first delay.
pub fn next_reconnect_delay(current_secs: u64) -> (r: u64)
    ensures
        r == if current_secs * 2 > HYPRLAND_MAX_RECONNECT_DELAY_SECS {
            HYPRLAND_MAX_RECONNECT_DELAY_SECS
        } else if current_secs * 2 < HYPRLAND_RECONNECT_DELAY_SECS {
            HYPRLAND_RECONNECT_DELAY_SECS
        } else {
            (current_secs * 2) as u64
        },
        HYPRLAND_RECONNECT_DELAY_SECS <= r <= HYPRLAND_MAX_RECONNECT_DELAY_SECS,
{
    let doubled = match current_secs.checked_mul(2) {
        Some(d) => d,
        None => u64::MAX,
    };
    let capped = if doubled > HYPRLAND_MAX_RECONNECT_DELAY_SECS {
        HYPRLAND_MAX_RECONNECT_DELAY_SECS
    } else {
        doubled
    };
    if capped < HYPRLAND_RECONNECT_DELAY_SECS {
        HYPRLAND_RECONNECT_DELAY_SECS
    } else {
        capped
    }
}

/// `hyprland_socket_path_from_signature`: the legacy socket location under `/tmp/hypr`.
pub fn hyprland_socket_path_from_signature(signature: &str) -> (r: String)
    ensures
        r@ == path_join(path_join("/tmp/hypr"@, signature@), HYPRLAND_SOCKET_NAME@),
{
    let dir = join_path("/tmp/hypr", signature);
    join_path(dir.as_str(), HYPRLAND_SOCKET_NAME)
}

/// `hyprland_socket_candidates` before ordering by existence: the runtime-dir
/// socket when `XDG_RUNTIME_DIR` is set and not empty, then the legacy socket
/// unless it is the same path.
pub fn hyprland_socket_candidates(signature: &str, runtime_dir: Option<&str>) -> (r: Vec<String>)
    ensures
        ({
            let legacy = path_join(path_join("/tmp/hypr"@, signature@), HYPRLAND_SOCKET_NAME@);
            match runtime_dir {
                Some(d) if d@.len() > 0 => {
                    let primary = path_join(path_join(path_join(d@, "hypr"@), signature@), HYPRLAND_SOCKET_NAME@);
                    &&& r@.len() >= 1 && r@[0]@ == primary
                    &&& if primary == legacy { r@.len() == 1 } else { r@.len() == 2 && r@[1]@ == legacy }
                },
                _ => r@.len() == 1 && r@[0]@ == legacy,
            }
        }),
{
    let mut candidates: Vec<String> = Vec::new();
    let legacy = hyprland_socket_path_from_signature(signature);
    match runtime_dir {
        Some(d) => {
            if !d.is_empty() {
                let hypr = join_path(d, "hypr");
                let dir = join_path(hypr.as_str(), signature);
                candidates.push(join_path(dir.as_str(), HYPRLAND_SOCKET_NAME));
            }
        },
        None => {},
    }
    let duplicate = candidates.len() == 1 && eq(&chars_of(candidates[0].as_str()), &chars_of(legacy.as_str()));
    if !duplicate {
        candidates.push(legacy);
    }
    candidates
}

/// The elements of `c` whose flag in `e` equals `want`, in order.
pub open spec fn kept_where(c: Seq<Seq<char>>, e: Seq<bool>, want: bool) -> Seq<Seq<char>>
    decreases c.len(),
{
    if c.len() == 0 || e.len() == 0 {
        Seq::empty()
    } else {
        let rest = kept_where(c.drop_last(), e.drop_last(), want);
        if e.last() == want {
            rest.push(c.last())
        } else {
            rest
        }
    }
}

/// Orders socket candidates so that those that exist come first, keeping
/// the order within each group (a stable sort on "does not exist").
pub fn order_by_existence(candidates: &Vec<String>, exists: &Vec<bool>) -> (r: Vec<String>)
    requires
        exists@.len() == candidates@.len(),
    ensures
        strings_view(r@) == kept_where(strings_view(candidates@), exists@, true) + kept_where(
            strings_view(candidates@),
            exists@,
            false,
        ),
{
    let mut first: Vec<String> = Vec::new();
    let mut rest: Vec<String> = Vec::new();
    let ghost all = strings_view(candidates@);
    let mut i: usize = 0;
    while i < candidates.len()
        invariant
            i <= candidates@.len(),
            exists@.len() == candidates@.len(),
            all == strings_view(candidates@),
            strings_view(first@) == kept_where(all.take(i as int), exists@.take(i as int), true),
            strings_view(rest@) == kept_where(all.take(i as int), exists@.take(i as int), false),
        decreases candidates@.len() - i,
    {
        proof {
            assert(all.take(i + 1).drop_last() =~= all.take(i as int));
            assert(exists@.take(i + 1).drop_last() =~= exists@.take(i as int));
            assert(all.take(i + 1).last() == candidates@[i as int]@);
        }
        let ghost f0 = first@;
        let ghost r0 = rest@;
        let c = candidates[i].clone();
        if exists[i] {
            first.push(c);
            assert(strings_view(first@) =~= strings_view(f0).push(candidates@[i as int]@));
        } else {
            rest.push(c);
            assert(strings_view(rest@) =~= strings_view(r0).push(candidates@[i as int]@));
        }
        i += 1;
    }
    proof {
        assert(all.take(candidates@.len() as int) =~= all);
        assert(exists@.take(candidates@.len() as int) =~= exists@);
    }
    let ghost fv = strings_view(first@);
    let ghost rv = strings_view(rest@);
    first.append(&mut rest);
    assert(strings_view(first@) =~= fv + rv);
    first
}

/// The Hyprland events that can change the set of meeting windows.
pub open spec fn relevant_event_names() -> Seq<Seq<char>> {
    seq![
        "openwindow"@,
        "closewindow"@,
        "windowtitle"@,
        "windowtitlev2"@,
        "activewindow"@,
        "activewindowv2"@,
    ]
}

/// `i` is the first position of `p` in `s`.
pub open spec fn first_occurrence(s: Seq<char>, p: Seq<char>, i: int) -> bool {
    &&& crate::text::occurs_at(s, p, i)
    &&& forall|j: int| 0 <= j < i ==> !crate::text::occurs_at(s, p, j)
}

/// `is_relevant_hyprland_event`: the event name before the first `>>` is one
/// that can change meeting windows.
pub open spec fn relevant_event(line: Seq<char>) -> bool {
    exists|i: int| first_occurrence(line, ">>"@, i) && relevant_event_names().contains(
        #[trigger] line.subrange(0, i),
    )
}

/// `is_relevant_hyprland_event`.
pub fn is_relevant_hyprland_event(line: &str) -> (r: bool)
    ensures
        r == relevant_event(line@),
{
    let s = chars_of(line);
    let sep = chars_of(">>");
    proof {
        reveal_strlit(">>");
    }
    let mut i: usize = 0;
    while i < s.len()
        invariant
            i <= s.len(),
            s@ == line@,
            sep@ == ">>"@,
            forall|j: int| 0 <= j < i ==> !crate::text::occurs_at(s@, sep@, j),
        decreases s.len() - i,
    {
        if crate::text::occurs_at_exec(&s, &sep, i) {
            let name = subvec(&s, 0, i);
            let names = vec![
                chars_of("openwindow"),
                chars_of("closewindow"),
                chars_of("windowtitle"),
                chars_of("windowtitlev2"),
                chars_of("activewindow"),
                chars_of("activewindowv2"),
            ];
            assert(names.deep_view() =~= relevant_event_names());
            let mut k: usize = 0;
            while k < names.len()
                invariant
                    k <= names.len(),
                    i < s.len(),
                    s@ == line@,
                    sep@ == ">>"@,
                    name@ == s@.subrange(0, i as int),
                    crate::text::occurs_at(s@, sep@, i as int),
                    forall|j: int| 0 <= j < i ==> !crate::text::occurs_at(s@, sep@, j),
                    names.deep_view() == relevant_event_names(),
                    forall|j: int| 0 <= j < k ==> relevant_event_names()[j] != name@,
                decreases names.len() - k,
            {
                if eq(&names[k], &name) {
                    assert(relevant_event_names()[k as int] == name@);
                    assert(first_occurrence(line@, ">>"@, i as int));
                    return true;
                }
                k += 1;
            }
            assert(!relevant_event_names().contains(name@));
            assert forall|j: int| first_occurrence(line@, ">>"@, j) implies j == i by {
                if j > i {
                    assert(!crate::text::occurs_at(line@, ">>"@, i as int));
                }
            }
            return false;
        }
        i += 1;
    }
    assert forall|j: int| !first_occurrence(line@, ">>"@, j) by {
        if 0 <= j && j < s.len() {
        }
    }
    false
}

} // verus!
