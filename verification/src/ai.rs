//! AI summarisation: the prompts, the checks and clean-up applied to model
//! output, the notes made from it, and the notes written when no model could
//! be used.
//!
//! Running a model and talking to an Ollama server are I/O; their output is
//! handed back to the functions here.

use vstd::prelude::*;

use crate::events::AppEvent;
use crate::numbers::{decimal, decimal_string, int_error_message, int_error_text, parse_int, parse_u16_checked};
use crate::settings::{AiProvider, Settings};
use crate::text::{
    chars_of, contains, contains_exec, eq, join, join_exec, lines, lines_exec, lower, lower_exec,
    occurs_at, push_all, split_once, split_once_exec, starts_with, starts_with_exec, string_of,
    strip_prefix, strip_prefix_exec, strip_suffix, strip_suffix_exec, subvec, trim, trim_exec,
};
use crate::types::{MeetingNotes, NotificationUrgency, TranscriptSegment};

verus! {

broadcast use vstd::seq_lib::group_seq_properties, crate::views::lemma_char_vec_deep_view;

// ---------------------------------------------------------------------------
// Character helpers
// ---------------------------------------------------------------------------

/// `s` without its leading `c`s (`str::trim_start_matches` with a character).
pub open spec fn trim_start_char(s: Seq<char>, c: char) -> Seq<char>
    decreases s.len(),
{
    if s.len() > 0 && s[0] == c {
        trim_start_char(s.drop_first(), c)
    } else {
        s
    }
}

/// `s` without its trailing `c`s (`str::trim_end_matches` with a character).
pub open spec fn trim_end_char(s: Seq<char>, c: char) -> Seq<char>
    decreases s.len(),
{
    if s.len() > 0 && s.last() == c {
        trim_end_char(s.drop_last(), c)
    } else {
        s
    }
}

/// Removes the leading `c`s.
fn trim_start_char_exec(s: &Vec<char>, c: char) -> (r: Vec<char>)
    ensures
        r@ == trim_start_char(s@, c),
{
    let mut i: usize = 0;
    assert(s@.subrange(0, s@.len() as int) =~= s@);
    while i < s.len() && s[i] == c
        invariant
            i <= s@.len(),
            trim_start_char(s@, c) == trim_start_char(s@.subrange(i as int, s@.len() as int), c),
        decreases s@.len() - i,
    {
        assert(s@.subrange(i as int, s@.len() as int).drop_first() =~= s@.subrange(i + 1, s@.len() as int));
        i += 1;
    }
    subvec(s, i, s.len())
}

/// Removes the trailing `c`s.
fn trim_end_char_exec(s: &Vec<char>, c: char) -> (r: Vec<char>)
    ensures
        r@ == trim_end_char(s@, c),
{
    let mut j: usize = s.len();
    assert(s@.subrange(0, s@.len() as int) =~= s@);
    while j > 0 && s[j - 1] == c
        invariant
            j <= s@.len(),
            trim_end_char(s@, c) == trim_end_char(s@.subrange(0, j as int), c),
        decreases j,
    {
        assert(s@.subrange(0, j as int).drop_last() =~= s@.subrange(0, j - 1));
        j -= 1;
    }
    subvec(s, 0, j)
}

/// `strip_prefix(..).unwrap_or(..)`.
pub open spec fn without_prefix(s: Seq<char>, p: Seq<char>) -> Seq<char> {
    match strip_prefix(s, p) {
        Some(r) => r,
        None => s,
    }
}

/// `strip_suffix(..).unwrap_or(..)`.
pub open spec fn without_suffix(s: Seq<char>, p: Seq<char>) -> Seq<char> {
    match strip_suffix(s, p) {
        Some(r) => r,
        None => s,
    }
}

/// Removes a prefix when present.
fn without_prefix_exec(s: Vec<char>, p: &str) -> (r: Vec<char>)
    ensures
        r@ == without_prefix(s@, p@),
{
    match strip_prefix_exec(&s, &chars_of(p)) {
        Some(r) => r,
        None => s,
    }
}

/// Removes a suffix when present.
fn without_suffix_exec(s: Vec<char>, p: &str) -> (r: Vec<char>)
    ensures
        r@ == without_suffix(s@, p@),
{
    match strip_suffix_exec(&s, &chars_of(p)) {
        Some(r) => r,
        None => s,
    }
}

// ---------------------------------------------------------------------------
// Model output
// ---------------------------------------------------------------------------

/// The trimmed, non-blank lines of a text.
pub open spec fn content_lines(s: Seq<char>) -> Seq<Seq<char>> {
    lines(s).map_values(|l: Seq<char>| trim(l)).filter(|l: Seq<char>| l.len() > 0)
}

/// How many neighbouring lines repeat the one before.
pub open spec fn repeated_pairs(ls: Seq<Seq<char>>) -> nat
    decreases ls.len(),
{
    if ls.len() < 2 {
        0
    } else {
        repeated_pairs(ls.drop_last()) + if ls[ls.len() - 2] == ls.last() { 1nat } else { 0nat }
    }
}

/// How many different lines there are.
pub open spec fn distinct_count(ls: Seq<Seq<char>>) -> nat
    decreases ls.len(),
{
    if ls.len() == 0 {
        0
    } else {
        distinct_count(ls.drop_last()) + if ls.drop_last().contains(ls.last()) { 0nat } else { 1nat }
    }
}

/// Output that repeats itself: at least four lines, and either two repeated
/// neighbours or no more than a third of the lines different.
pub open spec fn degenerate(output: Seq<char>) -> bool {
    let ls = content_lines(output);
    ls.len() >= 4 && (repeated_pairs(ls) >= 2 || distinct_count(ls) * 3 <= ls.len())
}

/// The trimmed non-blank lines of a text.
fn content_lines_exec(s: &Vec<char>) -> (r: Vec<Vec<char>>)
    ensures
        r.deep_view() == content_lines(s@),
{
    let ls = lines_exec(s);
    let ghost trimmed = lines(s@).map_values(|l: Seq<char>| trim(l));
    let ghost keep = |l: Seq<char>| l.len() > 0;
    let mut out: Vec<Vec<char>> = Vec::new();
    let mut i: usize = 0;
    while i < ls.len()
        invariant
            i <= ls@.len(),
            ls.deep_view() == lines(s@),
            trimmed == lines(s@).map_values(|l: Seq<char>| trim(l)),
            keep == (|l: Seq<char>| l.len() > 0),
            out.deep_view() == trimmed.take(i as int).filter(keep),
        decreases ls@.len() - i,
    {
        let t = trim_exec(&ls[i]);
        proof {
            assert(ls.deep_view()[i as int] == ls@[i as int]@);
            assert(trimmed[i as int] == t@);
            assert(trimmed.take(i + 1) =~= trimmed.take(i as int).push(trimmed[i as int]));
            trimmed.take(i as int).lemma_filter_push(trimmed[i as int], keep);
        }
        if t.len() > 0 {
            let ghost prev = out.deep_view();
            out.push(t);
            assert(out.deep_view() =~= prev.push(trimmed[i as int]));
        }
        i += 1;
    }
    assert(trimmed.take(ls@.len() as int) =~= trimmed);
    out
}

/// Whether a line occurs among the first `n` of a list.
fn occurs_before(ls: &Vec<Vec<char>>, n: usize, line: &Vec<char>) -> (r: bool)
    requires
        n <= ls@.len(),
    ensures
        r == ls.deep_view().take(n as int).contains(line@),
{
    let mut k: usize = 0;
    while k < n
        invariant
            k <= n <= ls@.len(),
            forall|j: int| 0 <= j < k ==> ls.deep_view()[j] != line@,
        decreases n - k,
    {
        if eq(&ls[k], line) {
            assert(ls.deep_view().take(n as int)[k as int] == line@);
            return true;
        }
        k += 1;
    }
    false
}

/// Whether model output repeats itself too much to be notes.
pub fn looks_degenerate(output: &str) -> (r: bool)
    ensures
        r == degenerate(output@),
{
    let ls = content_lines_exec(&chars_of(output));
    let n = ls.len();
    if n < 4 {
        return false;
    }
    let ghost dv = ls.deep_view();
    let mut repeated: usize = 0;
    let mut distinct: usize = 0;
    let mut i: usize = 0;
    while i < n
        invariant
            i <= n == ls@.len(),
            dv == ls.deep_view(),
            repeated as nat == repeated_pairs(dv.take(i as int)),
            distinct as nat == distinct_count(dv.take(i as int)),
            repeated <= i,
            distinct <= i,
        decreases n - i,
    {
        proof {
            assert(dv.take(i + 1).drop_last() =~= dv.take(i as int));
            assert(dv.take(i + 1).last() == ls@[i as int]@);
            if i >= 1 {
                assert(dv.take(i + 1)[i - 1] == ls@[i - 1]@);
            }
        }
        if i >= 1 && eq(&ls[i - 1], &ls[i]) {
            repeated += 1;
        }
        if !occurs_before(&ls, i, &ls[i]) {
            distinct += 1;
        }
        i += 1;
    }
    assert(dv.take(n as int) =~= dv);
    repeated >= 2 || (distinct as u128) * 3 <= n as u128
}

/// The text inside an outer code fence, trimmed: after the opening fence's
/// line and before a closing fence.
pub open spec fn unfenced(output: Seq<char>) -> Seq<char> {
    let t = trim(output);
    match strip_prefix(t, "```"@) {
        None => t,
        Some(rest) => {
            let rest = trim_start_not_newline(rest);
            let rest = without_prefix(rest, "\n"@);
            trim(without_suffix(rest, "```"@))
        },
    }
}

/// `s` from its first newline on.
pub open spec fn trim_start_not_newline(s: Seq<char>) -> Seq<char>
    decreases s.len(),
{
    if s.len() > 0 && s[0] != '\n' {
        trim_start_not_newline(s.drop_first())
    } else {
        s
    }
}

/// Removes a Markdown code fence around the whole output.
pub fn strip_outer_code_fences(output: &str) -> (r: String)
    ensures
        r@ == unfenced(output@),
{
    let t = trim_exec(&chars_of(output));
    let rest = match strip_prefix_exec(&t, &chars_of("```")) {
        Some(rest) => rest,
        None => {
            return string_of(&t);
        },
    };
    let mut i: usize = 0;
    assert(rest@.subrange(0, rest@.len() as int) =~= rest@);
    while i < rest.len() && rest[i] != '\n'
        invariant
            i <= rest@.len(),
            trim_start_not_newline(rest@) == trim_start_not_newline(rest@.subrange(i as int, rest@.len() as int)),
        decreases rest@.len() - i,
    {
        assert(rest@.subrange(i as int, rest@.len() as int).drop_first() =~= rest@.subrange(i + 1, rest@.len() as int));
        i += 1;
    }
    let rest = subvec(&rest, i, rest.len());
    let rest = without_prefix_exec(rest, "\n");
    let body = without_suffix_exec(rest, "```");
    string_of(&trim_exec(&body))
}

/// The section that a heading-like line names.
pub open spec fn section_label(line: Seq<char>) -> Seq<char> {
    let t = trim(trim_start_char(trim(line), '#'));
    let t = without_prefix(t, "**"@);
    let t = without_suffix(t, "**"@);
    let t = without_prefix(t, "__"@);
    let t = without_suffix(t, "__"@);
    trim(trim_end_char(t, ':'))
}

/// The canonical name of a section heading written in any common style.
pub open spec fn canonical_section(line: Seq<char>) -> Option<Seq<char>> {
    if trim(line).len() == 0 {
        None
    } else {
        let l = lower(section_label(line));
        if l == "summary"@ {
            Some("Summary"@)
        } else if l == "key decisions"@ {
            Some("Key Decisions"@)
        } else if l == "action items"@ {
            Some("Action Items"@)
        } else if l == "attendees"@ {
            Some("Attendees"@)
        } else if l == "transcript"@ {
            Some("Transcript"@)
        } else {
            None
        }
    }
}

/// Recognises a section heading (`Summary`, `**Key Decisions**`, `## action
/// items:` and the like).
pub fn canonical_section_name(line: &str) -> (r: Option<&'static str>)
    ensures
        match r {
            Some(s) => canonical_section(line@) == Some(s@),
            None => canonical_section(line@) is None,
        },
{
    let t = trim_exec(&chars_of(line));
    if t.len() == 0 {
        return None;
    }
    let t = trim_exec(&trim_start_char_exec(&t, '#'));
    let t = without_prefix_exec(t, "**");
    let t = without_suffix_exec(t, "**");
    let t = without_prefix_exec(t, "__");
    let t = without_suffix_exec(t, "__");
    let t = trim_exec(&trim_end_char_exec(&t, ':'));
    let l = lower_exec(&t);
    if eq(&l, &chars_of("summary")) {
        Some("Summary")
    } else if eq(&l, &chars_of("key decisions")) {
        Some("Key Decisions")
    } else if eq(&l, &chars_of("action items")) {
        Some("Action Items")
    } else if eq(&l, &chars_of("attendees")) {
        Some("Attendees")
    } else if eq(&l, &chars_of("transcript")) {
        Some("Transcript")
    } else {
        None
    }
}

/// A line with a recognised heading rewritten as a level-two heading.
pub open spec fn normalised_line(line: Seq<char>) -> Seq<char> {
    match canonical_section(line) {
        Some(s) => "## "@ + s,
        None => line,
    }
}

/// The text with every recognised heading rewritten.
pub open spec fn normalised_headings(markdown: Seq<char>) -> Seq<char> {
    join(lines(markdown).map_values(|l: Seq<char>| normalised_line(l)), "\n"@)
}

/// Rewrites recognised section headings as `## Section`.
pub fn normalise_section_headings(markdown: &str) -> (r: String)
    ensures
        r@ == normalised_headings(markdown@),
{
    let ls = lines_exec(&chars_of(markdown));
    let ghost target = lines(markdown@).map_values(|l: Seq<char>| normalised_line(l));
    let mut out: Vec<Vec<char>> = Vec::new();
    let mut i: usize = 0;
    while i < ls.len()
        invariant
            i <= ls@.len(),
            ls.deep_view() == lines(markdown@),
            target == lines(markdown@).map_values(|l: Seq<char>| normalised_line(l)),
            out.deep_view() == target.take(i as int),
        decreases ls@.len() - i,
    {
        let line = string_of(&ls[i]);
        proof {
            assert(ls.deep_view()[i as int] == ls@[i as int]@);
        }
        let next = match canonical_section_name(line.as_str()) {
            Some(section) => {
                let mut v = chars_of("## ");
                push_all(&mut v, &chars_of(section));
                v
            },
            None => chars_of(line.as_str()),
        };
        let ghost prev = out.deep_view();
        out.push(next);
        proof {
            assert(out.deep_view() =~= prev.push(target[i as int]));
            assert(target.take(i + 1) =~= target.take(i as int).push(target[i as int]));
        }
        i += 1;
    }
    assert(target.take(ls@.len() as int) =~= target);
    string_of(&join_exec(&out, &chars_of("\n")))
}

/// The markdown trimmed, under a `# Meeting Notes` title unless it has one.
pub open spec fn titled(markdown: Seq<char>) -> Seq<char> {
    let t = trim(markdown);
    if starts_with(t, "# Meeting Notes"@) {
        t
    } else {
        "# Meeting Notes\n\n"@ + t
    }
}

/// Puts the `# Meeting Notes` title in front unless it is there.
pub fn ensure_title(markdown: &str) -> (r: String)
    ensures
        r@ == titled(markdown@),
{
    let t = trim_exec(&chars_of(markdown));
    if starts_with_exec(&t, &chars_of("# Meeting Notes")) {
        return string_of(&t);
    }
    let mut r = "# Meeting Notes\n\n".to_owned();
    r.append(string_of(&t).as_str());
    r
}

/// The five sections that notes may have.
pub open spec fn note_sections() -> Seq<Seq<char>> {
    seq!["## Summary"@, "## Key Decisions"@, "## Action Items"@, "## Attendees"@, "## Transcript"@]
}

/// How many of `sections` occur in `markdown`.
pub open spec fn sections_present(markdown: Seq<char>, sections: Seq<Seq<char>>) -> nat
    decreases sections.len(),
{
    if sections.len() == 0 {
        0
    } else {
        sections_present(markdown, sections.drop_last()) + if contains(markdown, sections.last()) {
            1nat
        } else {
            0nat
        }
    }
}

/// A line that says something: not blank and no heading.
pub open spec fn content_line(line: Seq<char>) -> bool {
    trim(line).len() > 0 && trim(line)[0] != '#'
}

/// Notes worth keeping: some content line, and at least two sections or the
/// title followed by a blank line.
pub open spec fn acceptable(markdown: Seq<char>) -> bool {
    &&& exists|i: int| 0 <= i < lines(markdown).len() && content_line(#[trigger] lines(markdown)[i])
    &&& (sections_present(markdown, note_sections()) >= 2 || starts_with(markdown, "# Meeting Notes\n\n"@))
}

/// Whether normalised markdown has enough structure to be notes.
pub fn is_acceptable_markdown(markdown: &str) -> (r: bool)
    ensures
        r == acceptable(markdown@),
{
    let m = chars_of(markdown);
    let sections = ["## Summary", "## Key Decisions", "## Action Items", "## Attendees", "## Transcript"];
    let mut count: usize = 0;
    let mut k: usize = 0;
    while k < 5
        invariant
            k <= 5,
            sections@.map_values(|s: &str| s@) == note_sections(),
            count as nat == sections_present(m@, note_sections().take(k as int)),
            count <= k,
        decreases 5 - k,
    {
        proof {
            assert(note_sections().take(k + 1).drop_last() =~= note_sections().take(k as int));
            assert(note_sections().take(k + 1).last() == sections@[k as int]@);
        }
        if contains_exec(&m, &chars_of(sections[k])) {
            count += 1;
        }
        k += 1;
    }
    assert(note_sections().take(5) =~= note_sections());
    let ls = lines_exec(&m);
    let mut has_content = false;
    let mut i: usize = 0;
    while i < ls.len()
        invariant
            i <= ls@.len(),
            ls.deep_view() == lines(m@),
            has_content == exists|j: int| 0 <= j < i && content_line(#[trigger] lines(m@)[j]),
        decreases ls@.len() - i,
    {
        let t = trim_exec(&ls[i]);
        proof {
            assert(ls.deep_view()[i as int] == ls@[i as int]@);
        }
        if t.len() > 0 && t[0] != '#' {
            assert(content_line(lines(m@)[i as int]));
            has_content = true;
        }
        i += 1;
    }
    has_content && (count >= 2 || starts_with_exec(&m, &chars_of("# Meeting Notes\n\n")))
}

/// What becomes of model output: trimmed, with headings rewritten and a
/// title; empty output and output without structure are errors.
pub open spec fn normalised_markdown(output: Seq<char>) -> Result<Seq<char>, Seq<char>> {
    let t = trim(output);
    if t.len() == 0 || t == "markdown"@ {
        Err("llama.cpp generation produced empty markdown"@)
    } else {
        let n = titled(normalised_headings(t));
        if acceptable(n) {
            Ok(n)
        } else {
            Err("llama.cpp generation produced invalid markdown structure"@)
        }
    }
}

/// The model-output view of a result.
pub open spec fn text_result(r: Result<String, String>) -> Result<Seq<char>, Seq<char>> {
    match r {
        Ok(s) => Ok(s@),
        Err(e) => Err(e@),
    }
}

/// Checks and normalises model output into notes Markdown.
pub fn normalise_markdown(output: &str) -> (r: Result<String, String>)
    ensures
        text_result(r) == normalised_markdown(output@),
{
    let t = trim_exec(&chars_of(output));
    if t.len() == 0 || eq(&t, &chars_of("markdown")) {
        return Err("llama.cpp generation produced empty markdown".to_owned());
    }
    let headings = normalise_section_headings(string_of(&t).as_str());
    let n = ensure_title(headings.as_str());
    if is_acceptable_markdown(n.as_str()) {
        Ok(n)
    } else {
        Err("llama.cpp generation produced invalid markdown structure".to_owned())
    }
}

/// What a finished llama.cpp generation yields: an error for blank or
/// repetitive output, else the normalised Markdown inside any code fence.
pub open spec fn generation_result(output: Seq<char>) -> Result<Seq<char>, Seq<char>> {
    if trim(output).len() == 0 {
        Err("llama.cpp generation produced no text"@)
    } else if degenerate(output) {
        Err("llama.cpp generation produced degenerate repetitive output"@)
    } else {
        normalised_markdown(unfenced(output))
    }
}

/// Turns the text that llama.cpp generated into notes Markdown.
pub fn finish_generation(output: &str) -> (r: Result<String, String>)
    ensures
        text_result(r) == generation_result(output@),
{
    if trim_exec(&chars_of(output)).len() == 0 {
        return Err("llama.cpp generation produced no text".to_owned());
    }
    if looks_degenerate(output) {
        return Err("llama.cpp generation produced degenerate repetitive output".to_owned());
    }
    let markdown = strip_outer_code_fences(output);
    normalise_markdown(markdown.as_str())
}

// ---------------------------------------------------------------------------
// Prompts
// ---------------------------------------------------------------------------

/// The request that llama.cpp receives with the transcript.
pub open spec fn llama_prompt(transcript: Seq<char>) -> Seq<char> {
    "Create meeting notes from this transcript. Return Markdown with exactly these headings: Summary, Key Decisions, Action Items, Attendees, Transcript. Keep each section concise and factual.\n\nTranscript:\n"@
        + trim(transcript)
}

/// The user prompt for llama.cpp.
pub fn llama_user_prompt(transcript: &str) -> (r: String)
    ensures
        r@ == llama_prompt(transcript@),
{
    let mut r = "Create meeting notes from this transcript. Return Markdown with exactly these headings: Summary, Key Decisions, Action Items, Attendees, Transcript. Keep each section concise and factual.\n\nTranscript:\n".to_owned();
    r.append(string_of(&trim_exec(&chars_of(transcript))).as_str());
    r
}

/// The prompt that an Ollama model receives: the configured system prompt,
/// the instructions and the transcript.
pub open spec fn ollama_prompt_text(system_prompt: Seq<char>, transcript: Seq<char>) -> Seq<char> {
    system_prompt
        + "\n\nReturn Markdown with exactly these headings: Summary, Key Decisions, Action Items, Attendees. Keep each section concise and factual. Do not infer topics, decisions, attendees, or action items that are not explicitly present in the transcript. Ignore icebreakers, jokes, setup chatter, and social examples unless they create a real decision or action item. Use 'None captured.' for Key Decisions or Action Items when none are explicit. Do not include any Transcript section or transcript breakdown.\n\nTranscript:\n"@
        + trim(transcript)
}

/// The Ollama prompt.
pub fn ollama_prompt(system_prompt: &str, transcript: &str) -> (r: String)
    ensures
        r@ == ollama_prompt_text(system_prompt@, transcript@),
{
    let mut r = system_prompt.to_owned();
    r.append("\n\nReturn Markdown with exactly these headings: Summary, Key Decisions, Action Items, Attendees. Keep each section concise and factual. Do not infer topics, decisions, attendees, or action items that are not explicitly present in the transcript. Ignore icebreakers, jokes, setup chatter, and social examples unless they create a real decision or action item. Use 'None captured.' for Key Decisions or Action Items when none are explicit. Do not include any Transcript section or transcript breakdown.\n\nTranscript:\n");
    r.append(string_of(&trim_exec(&chars_of(transcript))).as_str());
    r
}

// ---------------------------------------------------------------------------
// llama.cpp models
// ---------------------------------------------------------------------------

/// Where llama.cpp takes its model from.
#[derive(Debug, PartialEq, Eq)]
pub enum ModelLocation {
    /// A GGUF file on disk.
    File(String),
    /// A file of a Hugging Face repository, downloaded on demand.
    HuggingFace { repo: String, file: String },
}

/// Model of a `Result<ModelLocation, String>`.
pub enum LocationView {
    File(Seq<char>),
    HuggingFace(Seq<char>, Seq<char>),
    Invalid(Seq<char>),
}

/// The model view of a location result.
pub open spec fn location_view(r: Result<ModelLocation, String>) -> LocationView {
    match r {
        Ok(ModelLocation::File(p)) => LocationView::File(p@),
        Ok(ModelLocation::HuggingFace { repo, file }) => LocationView::HuggingFace(repo@, file@),
        Err(e) => LocationView::Invalid(e@),
    }
}

/// Where the configured llama.cpp model is: the model path when set; else
/// the Hugging Face repository (the `hf_repo` setting, or the model name when
/// it looks like one) and file.
pub open spec fn llama_location(model_path: Seq<char>, model: Seq<char>, hf_repo: Seq<char>, hf_model_file: Seq<char>) -> LocationView {
    if trim(model_path).len() > 0 {
        LocationView::File(trim(model_path))
    } else {
        let has_repo = trim(hf_repo).len() > 0;
        let named = crate::text::has_char(model, '/');
        if !has_repo && !named {
            LocationView::Invalid("llama.cpp requires `ai.model_path` or Hugging Face repo metadata"@)
        } else {
            let repo = if has_repo { trim(hf_repo) } else { trim(model) };
            if trim(hf_model_file).len() == 0 {
                LocationView::Invalid("llama.cpp requires `ai.hf_model_file` when downloading from Hugging Face"@)
            } else if !crate::text::has_char(repo, '/') {
                LocationView::Invalid("invalid Hugging Face model repo `"@ + repo + "`"@)
            } else {
                LocationView::HuggingFace(repo, trim(hf_model_file))
            }
        }
    }
}

/// Where llama.cpp loads its model from.
pub fn llama_model_location(settings: &Settings) -> (r: Result<ModelLocation, String>)
    ensures
        location_view(r) == llama_location(
            settings.ai.model_path@,
            settings.ai.model@,
            settings.ai.hf_repo@,
            settings.ai.hf_model_file@,
        ),
{
    let path = trim_exec(&chars_of(settings.ai.model_path.as_str()));
    if path.len() > 0 {
        return Ok(ModelLocation::File(string_of(&path)));
    }
    let hf_repo = trim_exec(&chars_of(settings.ai.hf_repo.as_str()));
    let model = chars_of(settings.ai.model.as_str());
    let repo = if hf_repo.len() > 0 {
        hf_repo
    } else if crate::text::has_char_exec(&model, '/') {
        trim_exec(&model)
    } else {
        return Err("llama.cpp requires `ai.model_path` or Hugging Face repo metadata".to_owned());
    };
    let file = trim_exec(&chars_of(settings.ai.hf_model_file.as_str()));
    if file.len() == 0 {
        return Err("llama.cpp requires `ai.hf_model_file` when downloading from Hugging Face".to_owned());
    }
    if !crate::text::has_char_exec(&repo, '/') {
        let mut m = "invalid Hugging Face model repo `".to_owned();
        m.append(string_of(&repo).as_str());
        m.append("`");
        return Err(m);
    }
    Ok(ModelLocation::HuggingFace { repo: string_of(&repo), file: string_of(&file) })
}

/// Why llama.cpp cannot summarise in a build without its inference engine.
pub fn provider_status() -> (r: Result<String, String>)
    ensures
        r matches Err(m) && m@ == "the llama-cpp-2 provider requires rebuilding with `--features provider-llama-cpp`"@,
{
    Err("the llama-cpp-2 provider requires rebuilding with `--features provider-llama-cpp`".to_owned())
}

/// llama.cpp is warmed up only when it is the configured provider.
pub fn needs_warm_up(settings: &Settings) -> (r: bool)
    ensures
        r == (settings.ai.provider == AiProvider::LlamaCpp),
{
    settings.ai.provider == AiProvider::LlamaCpp
}

// ---------------------------------------------------------------------------
// Ollama
// ---------------------------------------------------------------------------

/// Where an Ollama server listens.
#[derive(Debug, PartialEq, Eq)]
pub struct OllamaEndpoint {
    /// Host name or address.
    pub host: String,
    /// TCP port.
    pub port: u16,
    /// Path of the generate API.
    pub path: String,
}

/// `s` before the first `c`, or all of it.
pub open spec fn before_char(s: Seq<char>, c: char) -> Seq<char> {
    match split_once(s, c) {
        Some(parts) => parts.0,
        None => s,
    }
}

/// What an Ollama base URL gives: `http://host[:port][/...]`, port 11434 by
/// default.
pub open spec fn endpoint_of(base_url: Seq<char>) -> Result<(Seq<char>, u16), Seq<char>> {
    match strip_prefix(trim(base_url), "http://"@) {
        None => Err("only http:// Ollama endpoints are supported"@),
        Some(stripped) => {
            let host_port = before_char(stripped, '/');
            let host = before_char(host_port, ':');
            if host.len() == 0 {
                Err("Ollama endpoint is missing a host"@)
            } else {
                match split_once(host_port, ':') {
                    None => Ok((host, 11434u16)),
                    Some(parts) => match parse_int(parts.1, u16::MAX as nat) {
                        Ok(p) => Ok((host, p as u16)),
                        Err(e) => Err(int_error_message(e)),
                    },
                }
            }
        },
    }
}

/// The view of a parsed endpoint.
pub open spec fn endpoint_view(r: Result<OllamaEndpoint, String>) -> Result<(Seq<char>, u16), Seq<char>> {
    match r {
        Ok(e) => Ok((e.host@, e.port)),
        Err(m) => Err(m@),
    }
}

/// Parses the Ollama base URL; the API path is always `/api/generate`.
pub fn parse_endpoint(base_url: &str) -> (r: Result<OllamaEndpoint, String>)
    ensures
        endpoint_view(r) == endpoint_of(base_url@),
        r matches Ok(e) ==> e.path@ == "/api/generate"@,
{
    let trimmed = trim_exec(&chars_of(base_url));
    let stripped = match strip_prefix_exec(&trimmed, &chars_of("http://")) {
        Some(s) => s,
        None => {
            return Err("only http:// Ollama endpoints are supported".to_owned());
        },
    };
    let host_port = match split_once_exec(&stripped, '/') {
        Some((head, _)) => head,
        None => stripped,
    };
    let (host, port_text) = match split_once_exec(&host_port, ':') {
        Some((h, p)) => (h, Some(p)),
        None => (host_port, None),
    };
    if host.len() == 0 {
        return Err("Ollama endpoint is missing a host".to_owned());
    }
    let port: u16 = match port_text {
        None => 11434,
        Some(p) => match parse_u16_checked(&p) {
            Ok(v) => v,
            Err(e) => {
                return Err(int_error_text(e).to_owned());
            },
        },
    };
    Ok(OllamaEndpoint { host: string_of(&host), port, path: "/api/generate".to_owned() })
}

/// Number of bytes that a character takes in UTF-8.
pub open spec fn utf8_width(c: char) -> nat {
    let n = c as u32;
    if n < 0x80 {
        1
    } else if n < 0x800 {
        2
    } else if n < 0x10000 {
        3
    } else {
        4
    }
}

/// Number of bytes of a text in UTF-8 (`str::len`).
pub open spec fn utf8_len(s: Seq<char>) -> nat
    decreases s.len(),
{
    if s.len() == 0 {
        0
    } else {
        utf8_len(s.drop_last()) + utf8_width(s.last())
    }
}

/// The UTF-8 length of a text.
fn utf8_len_exec(s: &Vec<char>) -> (r: u128)
    ensures
        r as nat == utf8_len(s@),
{
    let mut total: u128 = 0;
    let mut i: usize = 0;
    while i < s.len()
        invariant
            i <= s@.len(),
            total as nat == utf8_len(s@.take(i as int)),
            total <= 4 * i,
        decreases s@.len() - i,
    {
        assert(s@.take(i + 1).drop_last() =~= s@.take(i as int));
        let n = s[i] as u32;
        let w: u128 = if n < 0x80 {
            1
        } else if n < 0x800 {
            2
        } else if n < 0x10000 {
            3
        } else {
            4
        };
        total = total + w;
        i += 1;
    }
    assert(s@.take(s@.len() as int) =~= s@);
    total
}

/// The HTTP request that asks an Ollama server to generate.
pub open spec fn ollama_request_text(path: Seq<char>, host: Seq<char>, body: Seq<char>) -> Seq<char> {
    "POST "@ + path + " HTTP/1.1\r\nHost: "@ + host
        + "\r\nContent-Type: application/json\r\nContent-Length: "@ + decimal(utf8_len(body))
        + "\r\nConnection: close\r\n\r\n"@ + body
}

/// Writes the HTTP request for an endpoint and a JSON body.
pub fn ollama_http_request(endpoint: &OllamaEndpoint, body: &str) -> (r: String)
    ensures
        r@ == ollama_request_text(endpoint.path@, endpoint.host@, body@),
{
    let mut r = "POST ".to_owned();
    r.append(endpoint.path.as_str());
    r.append(" HTTP/1.1\r\nHost: ");
    r.append(endpoint.host.as_str());
    r.append("\r\nContent-Type: application/json\r\nContent-Length: ");
    r.append(crate::numbers::decimal_string_wide(utf8_len_exec(&chars_of(body))).as_str());
    r.append("\r\nConnection: close\r\n\r\n");
    r.append(body);
    r
}

/// A lowercase hexadecimal digit.
pub open spec fn hex_digit(d: nat) -> char {
    if d < 10 {
        crate::numbers::digit_char(d)
    } else {
        ((d + 87) as u32) as char
    }
}

/// How `serde_json` writes a character inside a JSON string: `"` and `\`
/// behind a backslash, the control characters below U+0020 as `\b`, `\t`,
/// `\n`, `\f`, `\r` or `\u00XX`, and every other character as it is.
pub open spec fn json_escaped_char(c: char) -> Seq<char> {
    if c == '"' {
        seq!['\\', '"']
    } else if c == '\\' {
        seq!['\\', '\\']
    } else if c == '\u{8}' {
        seq!['\\', 'b']
    } else if c == '\t' {
        seq!['\\', 't']
    } else if c == '\n' {
        seq!['\\', 'n']
    } else if c == '\u{c}' {
        seq!['\\', 'f']
    } else if c == '\r' {
        seq!['\\', 'r']
    } else if (c as u32) < 0x20 {
        seq!['\\', 'u', '0', '0', hex_digit((c as u32 / 16) as nat), hex_digit((c as u32 % 16) as nat)]
    } else {
        seq![c]
    }
}

/// The characters of a string as `serde_json` escapes them.
pub open spec fn json_escaped(s: Seq<char>) -> Seq<char>
    decreases s.len(),
{
    if s.len() == 0 {
        Seq::empty()
    } else {
        json_escaped(s.drop_last()) + json_escaped_char(s.last())
    }
}

/// A JSON string literal.
pub open spec fn json_string(s: Seq<char>) -> Seq<char> {
    "\""@ + json_escaped(s) + "\""@
}

/// The JSON object `{"model": model, "prompt": prompt, "stream": false}` as
/// `serde_json` writes it compactly, keys in order.
pub open spec fn ollama_request_json(model: Seq<char>, prompt: Seq<char>) -> Seq<char> {
    "{\"model\":"@ + json_string(model) + ",\"prompt\":"@ + json_string(prompt) + ",\"stream\":false}"@
}

/// Serialises the Ollama generate request with `serde_json`: a map from the
/// three keys to a string, a string and `false`, written compactly by
/// `Value`'s `Display`. The map is ordered by key (`model`, `prompt`,
/// `stream`), no whitespace is written, and strings are escaped as
/// [`json_escaped_char`] says.
#[verifier::external_body]
fn ollama_request_body(model: &str, prompt: &str) -> (r: String)
    ensures
        r@ == ollama_request_json(model@, prompt@),
{
    let mut map = serde_json::Map::new();
    map.insert("model".to_owned(), serde_json::Value::String(model.to_owned()));
    map.insert("prompt".to_owned(), serde_json::Value::String(prompt.to_owned()));
    map.insert("stream".to_owned(), serde_json::Value::Bool(false));
    serde_json::Value::Object(map).to_string()
}

/// What `serde_json` makes of a response body: the string under the key
/// `response` when the body parses and has one, or the parse error's message.
pub uninterp spec fn json_response_field(body: Seq<char>) -> Result<Option<Seq<char>>, Seq<char>>;

/// Parses a response body with `serde_json::from_str` into a `Value` and
/// takes its `response` string (`Value::get`, `Value::as_str`). The result is
/// taken to be `json_response_field` of the body, which it depends on alone.
#[verifier::external_body]
fn response_field(body: &str) -> (r: Result<Option<String>, String>)
    ensures
        match r {
            Ok(Some(s)) => json_response_field(body@) == Ok::<Option<Seq<char>>, Seq<char>>(Some(s@)),
            Ok(None) => json_response_field(body@) == Ok::<Option<Seq<char>>, Seq<char>>(None),
            Err(e) => json_response_field(body@) == Err::<Option<Seq<char>>, Seq<char>>(e@),
        },
{
    match serde_json::from_str::<serde_json::Value>(body) {
        Ok(value) => Ok(value.get("response").and_then(serde_json::Value::as_str).map(str::to_owned)),
        Err(error) => Err(error.to_string()),
    }
}

/// The first position where `p` occurs in `s`.
#[verifier::opaque]
pub open spec fn first_occurrence(s: Seq<char>, p: Seq<char>) -> Option<int> {
    if exists|i: int| occurs_at(s, p, i) {
        Some(choose|i: int| occurs_at(s, p, i) && forall|j: int| 0 <= j < i ==> !occurs_at(s, p, j))
    } else {
        None
    }
}

/// The body of an HTTP response: what follows the first blank line, up to
/// any further blank line (`split("\r\n\r\n").nth(1)`).
pub open spec fn http_body(response: Seq<char>) -> Option<Seq<char>> {
    match first_occurrence(response, "\r\n\r\n"@) {
        None => None,
        Some(i) => {
            let rest = response.subrange(i + 4, response.len() as int);
            match first_occurrence(rest, "\r\n\r\n"@) {
                None => Some(rest),
                Some(j) => Some(rest.subrange(0, j)),
            }
        },
    }
}

/// The first position of `p` in `s`.
fn find_first(s: &Vec<char>, p: &Vec<char>) -> (r: Option<usize>)
    requires
        p@.len() > 0,
    ensures
        match r {
            Some(i) => first_occurrence(s@, p@) == Some(i as int) && occurs_at(s@, p@, i as int),
            None => first_occurrence(s@, p@) is None,
        },
{
    let mut i: usize = 0;
    while i < s.len()
        invariant
            i <= s@.len(),
            forall|j: int| 0 <= j < i ==> !occurs_at(s@, p@, j),
        decreases s@.len() - i,
    {
        if crate::text::occurs_at_exec(s, p, i) {
            proof {
                reveal(first_occurrence);
                let c = choose|k: int| occurs_at(s@, p@, k) && forall|j: int| 0 <= j < k ==> !occurs_at(s@, p@, j);
                assert(occurs_at(s@, p@, c));
                if c < i {
                    assert(!occurs_at(s@, p@, c));
                } else if c > i {
                    assert(!occurs_at(s@, p@, i as int));
                }
            }
            return Some(i);
        }
        i += 1;
    }
    proof {
        reveal(first_occurrence);
        if exists|k: int| occurs_at(s@, p@, k) {
            let k = choose|k: int| occurs_at(s@, p@, k);
            if k >= s@.len() {
                assert(p@.len() == 0 || k + p@.len() > s@.len());
                if p@.len() == 0 {
                    assert(occurs_at(s@, p@, 0));
                }
            }
        }
    }
    None
}

/// The generated notes in an Ollama reply: what the `response` field holds,
/// trimmed; a missing body, invalid JSON and blank text are errors.
pub open spec fn ollama_markdown(response: Seq<char>) -> Result<Seq<char>, Seq<char>> {
    match http_body(response) {
        None => Err("Ollama response did not include an HTTP body"@),
        Some(body) => generated_text(json_response_field(body)),
    }
}

/// What the `response` field gives.
pub open spec fn generated_text(field: Result<Option<Seq<char>>, Seq<char>>) -> Result<Seq<char>, Seq<char>> {
    match field {
        Err(e) => Err("invalid Ollama JSON: "@ + e),
        Ok(None) => Err("Ollama response did not include generated text"@),
        Ok(Some(t)) => if trim(t).len() == 0 {
            Err("Ollama response did not include generated text"@)
        } else {
            Ok(trim(t))
        },
    }
}

/// Takes the generated text out of the `response` field that was read.
pub fn generated_text_from_field(field: Result<Option<String>, String>) -> (r: Result<String, String>)
    ensures
        text_result(r) == generated_text(match field {
            Ok(Some(s)) => Ok(Some(s@)),
            Ok(None) => Ok(None),
            Err(e) => Err(e@),
        }),
{
    match field {
        Err(e) => {
            let mut m = "invalid Ollama JSON: ".to_owned();
            m.append(e.as_str());
            Err(m)
        },
        Ok(None) => Err("Ollama response did not include generated text".to_owned()),
        Ok(Some(t)) => {
            let trimmed = trim_exec(&chars_of(t.as_str()));
            if trimmed.len() == 0 {
                Err("Ollama response did not include generated text".to_owned())
            } else {
                Ok(string_of(&trimmed))
            }
        },
    }
}

/// The body of an HTTP reply.
fn http_body_exec(v: &Vec<char>) -> (r: Option<Vec<char>>)
    ensures
        match r {
            Some(b) => http_body(v@) == Some(b@),
            None => http_body(v@) is None,
        },
{
    let sep = chars_of("\r\n\r\n");
    proof {
        reveal_strlit("\r\n\r\n");
    }
    assert(sep@.len() == 4);
    let i = match find_first(v, &sep) {
        Some(i) => i,
        None => {
            return None;
        },
    };
    let n = v.len();
    let start = i + sep.len();
    let rest = subvec(v, start, n);
    match find_first(&rest, &sep) {
        Some(j) => Some(subvec(&rest, 0, j)),
        None => Some(rest),
    }
}

/// Reads the generated notes out of an Ollama HTTP reply.
pub fn ollama_response_markdown(response: &str) -> (r: Result<String, String>)
    ensures
        text_result(r) == ollama_markdown(response@),
{
    let body = match http_body_exec(&chars_of(response)) {
        Some(b) => b,
        None => {
            return Err("Ollama response did not include an HTTP body".to_owned());
        },
    };
    let field = response_field(string_of(&body).as_str());
    generated_text_from_field(field)
}

/// An Ollama request: where to send it and what to send.
#[derive(Debug)]
pub struct OllamaRequest {
    /// The server.
    pub endpoint: OllamaEndpoint,
    /// The whole HTTP request.
    pub request: String,
}

/// Prepares the request that asks Ollama for notes on a transcript; a blank
/// transcript and a bad endpoint are errors.
pub fn ollama_request(settings: &Settings, transcript: &str) -> (r: Result<OllamaRequest, String>)
    ensures
        trim(transcript@).len() == 0 ==> (r matches Err(m) && m@ == "transcript is empty"@),
        trim(transcript@).len() > 0 ==> match endpoint_of(settings.ai.ollama_url@) {
            Err(m) => r matches Err(e) && e@ == m,
            Ok((host, port)) => r matches Ok(q) && q.endpoint.host@ == host && q.endpoint.port == port
                && q.endpoint.path@ == "/api/generate"@ && q.request@ == ollama_request_text(
                "/api/generate"@,
                host,
                ollama_request_json(settings.ai.model@, ollama_prompt_text(settings.ai.system_prompt@, transcript@)),
            ),
        },
{
    if trim_exec(&chars_of(transcript)).len() == 0 {
        return Err("transcript is empty".to_owned());
    }
    let endpoint = match parse_endpoint(settings.ai.ollama_url.as_str()) {
        Ok(e) => e,
        Err(m) => {
            return Err(m);
        },
    };
    let prompt = ollama_prompt(settings.ai.system_prompt.as_str(), transcript);
    let body = ollama_request_body(settings.ai.model.as_str(), prompt.as_str());
    let request = ollama_http_request(&endpoint, body.as_str());
    Ok(OllamaRequest { endpoint, request })
}

// ---------------------------------------------------------------------------
// Notes
// ---------------------------------------------------------------------------

/// The summary of notes that no model wrote.
pub const SUMMARY_UNAVAILABLE: &'static str = "Summary unavailable";

/// A line that opens a section: a `#` heading or a label in bold.
pub open spec fn heading_line(line: Seq<char>) -> bool {
    let t = trim(line);
    t.len() > 0 && (t[0] == '#' || (t.len() >= 4 && ((starts_with(t, "**"@) && crate::text::ends_with(t, "**"@)) || (starts_with(t, "__"@) && crate::text::ends_with(t, "__"@)))))
}

/// A heading of a transcript section, such as `## Transcript` or
/// `**Transcript Breakdown**`.
pub open spec fn transcript_heading(line: Seq<char>) -> bool {
    heading_line(line) && starts_with(lower(section_label(line)), "transcript"@)
}

/// The lines outside transcript sections; a transcript section runs from its
/// heading to the next heading of another section.
pub open spec fn kept_lines(ls: Seq<Seq<char>>, skipping: bool) -> Seq<Seq<char>>
    decreases ls.len(),
{
    if ls.len() == 0 {
        Seq::empty()
    } else if transcript_heading(ls[0]) {
        kept_lines(ls.drop_first(), true)
    } else if skipping && !heading_line(ls[0]) {
        kept_lines(ls.drop_first(), true)
    } else {
        seq![ls[0]] + kept_lines(ls.drop_first(), false)
    }
}

/// Notes Markdown without any transcript section that a model generated.
pub open spec fn without_transcript(markdown: Seq<char>) -> Seq<char> {
    trim(join(kept_lines(lines(markdown), false), "\n"@))
}

/// The first content line, trimmed, or the fallback summary.
pub open spec fn summary_of(markdown: Seq<char>) -> Seq<char> {
    first_content(lines(markdown))
}

/// The first content line of a list, trimmed, or the fallback summary.
pub open spec fn first_content(ls: Seq<Seq<char>>) -> Seq<char>
    decreases ls.len(),
{
    if ls.len() == 0 {
        SUMMARY_UNAVAILABLE@
    } else if content_line(ls[0]) {
        trim(ls[0])
    } else {
        first_content(ls.drop_first())
    }
}

/// A line with visible text that is not a heading: trimmed, it is not empty
/// and does not start with `#`.
pub open spec fn visible_text_line(line: Seq<char>) -> bool {
    trim(line).len() > 0 && trim(line)[0] != '#'
}

/// The first content line among `ls` is at `k`, whatever lines come before.
proof fn lemma_first_content_at(ls: Seq<Seq<char>>, k: int)
    requires
        0 <= k < ls.len(),
        visible_text_line(ls[k]),
        forall|j: int| 0 <= j < k ==> !visible_text_line(#[trigger] ls[j]),
    ensures
        first_content(ls) == trim(ls[k]),
    decreases k,
{
    if k > 0 {
        assert(!visible_text_line(ls[0]));
        assert forall|j: int| 0 <= j < k - 1 implies !visible_text_line(#[trigger] ls.drop_first()[j]) by {
            assert(ls.drop_first()[j] == ls[j + 1]);
        }
        lemma_first_content_at(ls.drop_first(), k - 1);
    }
}

/// Without a content line there is no summary.
proof fn lemma_first_content_none(ls: Seq<Seq<char>>)
    requires
        forall|j: int| 0 <= j < ls.len() ==> !visible_text_line(#[trigger] ls[j]),
    ensures
        first_content(ls) == SUMMARY_UNAVAILABLE@,
    decreases ls.len(),
{
    if ls.len() > 0 {
        assert(!visible_text_line(ls[0]));
        assert forall|j: int| 0 <= j < ls.len() - 1 implies !visible_text_line(#[trigger] ls.drop_first()[j]) by {
            assert(ls.drop_first()[j] == ls[j + 1]);
        }
        lemma_first_content_none(ls.drop_first());
    }
}

/// The summary of notes is their first line with visible text that is not a
/// heading, trimmed, however many headings and blank lines come before it;
/// only notes without such a line have the fallback summary.
pub proof fn law_summary_is_first_content_line(markdown: Seq<char>, k: int)
    ensures
        0 <= k < lines(markdown).len() && visible_text_line(lines(markdown)[k]) && (forall|j: int|
            0 <= j < k ==> !visible_text_line(#[trigger] lines(markdown)[j])) ==> summary_of(markdown)
            == trim(lines(markdown)[k]),
        (forall|j: int| 0 <= j < lines(markdown).len() ==> !visible_text_line(#[trigger] lines(markdown)[j]))
            ==> summary_of(markdown) == SUMMARY_UNAVAILABLE@,
{
    let ls = lines(markdown);
    if 0 <= k < ls.len() && visible_text_line(ls[k]) && (forall|j: int| 0 <= j < k ==> !visible_text_line(#[trigger] ls[j])) {
        lemma_first_content_at(ls, k);
    }
    if forall|j: int| 0 <= j < ls.len() ==> !visible_text_line(#[trigger] ls[j]) {
        lemma_first_content_none(ls);
    }
}

/// Whether a line opens a section.
fn is_heading_line(line: &Vec<char>) -> (r: bool)
    ensures
        r == heading_line(line@),
{
    let t = trim_exec(line);
    if t.len() == 0 {
        return false;
    }
    if t[0] == '#' {
        return true;
    }
    t.len() >= 4 && ((starts_with_exec(&t, &chars_of("**")) && crate::text::ends_with_exec(&t, &chars_of("**")))
        || (starts_with_exec(&t, &chars_of("__")) && crate::text::ends_with_exec(&t, &chars_of("__"))))
}

/// The label of a heading-like line.
fn section_label_exec(line: &Vec<char>) -> (r: Vec<char>)
    ensures
        r@ == section_label(line@),
{
    let t = trim_exec(&trim_start_char_exec(&trim_exec(line), '#'));
    let t = without_prefix_exec(t, "**");
    let t = without_suffix_exec(t, "**");
    let t = without_prefix_exec(t, "__");
    let t = without_suffix_exec(t, "__");
    trim_exec(&trim_end_char_exec(&t, ':'))
}

/// Whether a line opens a transcript section.
fn is_transcript_heading(line: &Vec<char>) -> (r: bool)
    ensures
        r == transcript_heading(line@),
{
    is_heading_line(line) && starts_with_exec(&lower_exec(&section_label_exec(line)), &chars_of("transcript"))
}

/// Removes generated transcript sections from notes Markdown.
pub fn strip_transcript_sections(markdown: &str) -> (r: String)
    ensures
        r@ == without_transcript(markdown@),
{
    let ls = lines_exec(&chars_of(markdown));
    let ghost all = lines(markdown@);
    let mut out: Vec<Vec<char>> = Vec::new();
    let mut skipping = false;
    let mut i: usize = 0;
    while i < ls.len()
        invariant
            i <= ls@.len(),
            ls.deep_view() == all,
            out.deep_view() + kept_lines(all.skip(i as int), skipping) == kept_lines(all, false),
        decreases ls@.len() - i,
    {
        let ghost rest = all.skip(i as int);
        proof {
            assert(rest[0] == ls@[i as int]@);
            assert(rest.drop_first() =~= all.skip(i + 1));
        }
        if is_transcript_heading(&ls[i]) {
            skipping = true;
        } else if skipping && !is_heading_line(&ls[i]) {
        } else {
            let ghost prev = out.deep_view();
            out.push(ls[i].clone());
            proof {
                assert(out.deep_view() =~= prev.push(rest[0]));
                assert(prev + (seq![rest[0]] + kept_lines(rest.drop_first(), false)) =~= out.deep_view()
                    + kept_lines(rest.drop_first(), false));
            }
            skipping = false;
        }
        i += 1;
    }
    proof {
        assert(all.skip(ls@.len() as int) =~= Seq::<Seq<char>>::empty());
        assert(out.deep_view() + Seq::<Seq<char>>::empty() =~= out.deep_view());
    }
    string_of(&trim_exec(&join_exec(&out, &chars_of("\n"))))
}

/// The summary line of notes Markdown.
pub fn summary_line(markdown: &str) -> (r: String)
    ensures
        r@ == summary_of(markdown@),
{
    let ls = lines_exec(&chars_of(markdown));
    let ghost all = lines(markdown@);
    let mut i: usize = 0;
    while i < ls.len()
        invariant
            i <= ls@.len(),
            ls.deep_view() == all,
            all == lines(markdown@),
            first_content(all.skip(i as int)) == first_content(all),
        decreases ls@.len() - i,
    {
        let t = trim_exec(&ls[i]);
        proof {
            assert(all.skip(i as int)[0] == ls@[i as int]@);
            assert(all.skip(i as int).drop_first() =~= all.skip(i + 1));
        }
        if t.len() > 0 && t[0] != '#' {
            proof {
                assert(content_line(all.skip(i as int)[0]));
            }
            return string_of(&t);
        }
        i += 1;
    }
    assert(all.skip(ls@.len() as int) =~= Seq::<Seq<char>>::empty());
    SUMMARY_UNAVAILABLE.to_owned()
}

/// Notes made from model Markdown: generated transcript sections removed,
/// the first content line as summary. The transcript itself is not copied
/// into the notes; it stays in its draft.
pub fn notes_from_markdown(markdown: String, transcript: &str) -> (r: MeetingNotes)
    ensures
        r.markdown@ == without_transcript(markdown@),
        r.summary@ == summary_of(without_transcript(markdown@)),
        r.key_decisions@.len() == 0,
        r.action_items@.len() == 0,
        r.attendees@.len() == 0,
{
    let cleaned = strip_transcript_sections(markdown.as_str());
    let summary = summary_line(cleaned.as_str());
    MeetingNotes {
        summary,
        key_decisions: Vec::new(),
        action_items: Vec::new(),
        attendees: Vec::new(),
        markdown: cleaned,
    }
}

/// The Markdown of notes written without a model: the reason and a pointer
/// to the transcript draft, which is not copied in.
pub open spec fn fallback_markdown(reason: Seq<char>) -> Seq<char> {
    "# Meeting Notes\n\n## Summary\n\nSummary unavailable\n\n## Warning\n\n"@ + reason
        + "\n\nTranscript draft remains available separately.\n"@
}

/// Notes that say why no model summarised the meeting. The transcript is
/// not copied into them; it stays in its draft.
pub fn summarise_with_reason(transcript: &str, reason: &str) -> (r: MeetingNotes)
    ensures
        r.summary@ == SUMMARY_UNAVAILABLE@,
        r.markdown@ == fallback_markdown(reason@),
        r.key_decisions@.len() == 0,
        r.action_items@.len() == 0,
        r.attendees@.len() == 0,
{
    let mut markdown = "# Meeting Notes\n\n## Summary\n\nSummary unavailable\n\n## Warning\n\n".to_owned();
    markdown.append(reason);
    markdown.append("\n\nTranscript draft remains available separately.\n");
    MeetingNotes {
        summary: SUMMARY_UNAVAILABLE.to_owned(),
        key_decisions: Vec::new(),
        action_items: Vec::new(),
        attendees: Vec::new(),
        markdown,
    }
}

/// The text handed to a model: each segment's trimmed text, blank ones left
/// out, one per line.
pub open spec fn transcript_text_of(texts: Seq<Seq<char>>) -> Seq<char> {
    join(texts.map_values(|t: Seq<char>| trim(t)).filter(|t: Seq<char>| t.len() > 0), "\n"@)
}

/// The texts of segments.
pub open spec fn segment_texts(segments: Seq<TranscriptSegment>) -> Seq<Seq<char>> {
    segments.map_values(|s: TranscriptSegment| s.text@)
}

/// Joins the transcript segments into the text that is summarised.
pub fn transcript_text(segments: &Vec<TranscriptSegment>) -> (r: String)
    ensures
        r@ == transcript_text_of(segment_texts(segments@)),
{
    let ghost trimmed = segment_texts(segments@).map_values(|t: Seq<char>| trim(t));
    let ghost keep = |t: Seq<char>| t.len() > 0;
    let mut parts: Vec<Vec<char>> = Vec::new();
    let mut i: usize = 0;
    while i < segments.len()
        invariant
            i <= segments@.len(),
            trimmed == segment_texts(segments@).map_values(|t: Seq<char>| trim(t)),
            keep == (|t: Seq<char>| t.len() > 0),
            parts.deep_view() == trimmed.take(i as int).filter(keep),
        decreases segments@.len() - i,
    {
        let t = trim_exec(&chars_of(segments[i].text.as_str()));
        proof {
            assert(trimmed[i as int] == t@);
            assert(trimmed.take(i + 1) =~= trimmed.take(i as int).push(trimmed[i as int]));
            trimmed.take(i as int).lemma_filter_push(trimmed[i as int], keep);
        }
        if t.len() > 0 {
            let ghost prev = parts.deep_view();
            parts.push(t);
            assert(parts.deep_view() =~= prev.push(trimmed[i as int]));
        }
        i += 1;
    }
    assert(trimmed.take(segments@.len() as int) =~= trimmed);
    string_of(&join_exec(&parts, &chars_of("\n")))
}

/// Why a hosted provider was not used.
pub const HOSTED_PROVIDER_REASON: &'static str = "The configured hosted AI provider is not implemented yet; hosted summarisation is not supported in Rustle v0.1.";

/// Notes and, when they are a fallback, the warning to show.
#[derive(Debug)]
pub struct SummarisationOutcome {
    /// The notes to save.
    pub notes: MeetingNotes,
    /// Why the notes are a fallback.
    pub warning: Option<String>,
}

/// The reason that a local provider's failure gives.
pub open spec fn failure_reason(provider: AiProvider, error: Seq<char>) -> Seq<char> {
    match provider {
        AiProvider::LlamaCpp => "llama.cpp summarisation unavailable: "@ + error,
        AiProvider::Ollama => "Ollama summarisation unavailable: "@ + error,
        _ => HOSTED_PROVIDER_REASON@,
    }
}

/// What a summarisation attempt ends with. llama.cpp and Ollama notes come
/// from their Markdown, or, when they failed, are a fallback naming the
/// error; hosted providers are not supported and always fall back.
pub fn summarisation_outcome(provider: AiProvider, generated: Result<String, String>, transcript: &str) -> (r: SummarisationOutcome)
    ensures
        match (provider, generated) {
            (AiProvider::LlamaCpp, Ok(md)) | (AiProvider::Ollama, Ok(md)) => r.warning is None
                && r.notes.markdown@ == without_transcript(md@)
                && r.notes.summary@ == summary_of(without_transcript(md@)),
            (AiProvider::LlamaCpp, Err(e)) | (AiProvider::Ollama, Err(e)) => r.warning matches Some(w)
                && w@ == failure_reason(provider, e@) && r.notes.summary@ == SUMMARY_UNAVAILABLE@
                && r.notes.markdown@ == fallback_markdown(failure_reason(provider, e@)),
            _ => r.warning matches Some(w) && w@ == HOSTED_PROVIDER_REASON@ && r.notes.summary@
                == SUMMARY_UNAVAILABLE@ && r.notes.markdown@ == fallback_markdown(HOSTED_PROVIDER_REASON@),
        },
{
    match provider {
        AiProvider::LlamaCpp | AiProvider::Ollama => match generated {
            Ok(md) => SummarisationOutcome { notes: notes_from_markdown(md, transcript), warning: None },
            Err(e) => {
                let mut reason = (if provider == AiProvider::LlamaCpp {
                    "llama.cpp summarisation unavailable: "
                } else {
                    "Ollama summarisation unavailable: "
                }).to_owned();
                reason.append(e.as_str());
                let notes = summarise_with_reason(transcript, reason.as_str());
                SummarisationOutcome { notes, warning: Some(reason) }
            },
        },
        _ => {
            let notes = summarise_with_reason(transcript, HOSTED_PROVIDER_REASON);
            SummarisationOutcome { notes, warning: Some(HOSTED_PROVIDER_REASON.to_owned()) }
        },
    }
}

/// The body of the notification about fallback notes.
pub open spec fn warning_body(meeting_name: Seq<char>, warning: Seq<char>) -> Seq<char> {
    "Rustle saved fallback notes for "@ + meeting_name + ". "@ + warning
}

/// The notification that fallback notes were saved.
pub fn summarisation_warning_notification(meeting_name: &str, warning: &str) -> (r: AppEvent)
    ensures
        crate::events::is_notification(r, "Notes fallback saved"@, warning_body(meeting_name@, warning@), NotificationUrgency::Critical),
{
    let mut body = "Rustle saved fallback notes for ".to_owned();
    body.append(meeting_name);
    body.append(". ");
    body.append(warning);
    AppEvent::NotificationRequested { title: "Notes fallback saved".to_owned(), body, urgency: NotificationUrgency::Critical }
}

/// The events that report a summarisation: a warning about fallback notes,
/// when there is one, then the notes.
pub fn summarisation_events(meeting_id: u128, meeting_name: &str, outcome: SummarisationOutcome) -> (r: Vec<AppEvent>)
    ensures
        match outcome.warning {
            Some(w) => r@.len() == 2 && crate::events::is_notification(r@[0], "Notes fallback saved"@, warning_body(meeting_name@, w@), NotificationUrgency::Critical)
                && r@[1] == (AppEvent::SummarisationReady { meeting_id, notes: outcome.notes }),
            None => r@ == seq![AppEvent::SummarisationReady { meeting_id, notes: outcome.notes }],
        },
{
    let mut r: Vec<AppEvent> = Vec::new();
    let SummarisationOutcome { notes, warning } = outcome;
    if let Some(w) = warning {
        r.push(summarisation_warning_notification(meeting_name, w.as_str()));
    }
    r.push(AppEvent::SummarisationReady { meeting_id, notes });
    r
}

// ---------------------------------------------------------------------------
// The summarisation loop
// ---------------------------------------------------------------------------

/// What the summarisation loop does after an event.
#[derive(Debug)]
pub enum AiAction {
    /// Nothing.
    Nothing,
    /// Load the settings, summarise the transcript with the configured
    /// provider ([`summarisation_outcome`]) and publish
    /// [`summarisation_events`].
    Summarise { meeting_id: u128, meeting_name: String, transcript: String },
    /// Start loading the llama.cpp backend.
    WarmUp,
    /// Leave the loop.
    Stop,
}

/// The summarisation loop remembers meeting names.
#[derive(Debug)]
pub struct AiState {
    /// Names of the meetings seen so far.
    pub names: crate::names::MeetingNames,
}

impl AiState {
    /// No names known.
    pub fn new() -> (r: Self)
        ensures
            r.names.names() == Map::<u128, Seq<char>>::empty(),
    {
        AiState { names: crate::names::MeetingNames::new() }
    }

    /// Reacts to an event from the bus.
    pub fn handle_event(&mut self, event: AppEvent) -> (action: AiAction)
        ensures
            match event {
                AppEvent::MeetingStarted { id, name, .. } => final(self).names.names() == old(self).names.names().insert(id, name@)
                    && action is Nothing,
                AppEvent::TranscriptionReady { meeting_id, segments } => final(self).names.names() == old(self).names.names()
                    && (action matches AiAction::Summarise { meeting_id: i, meeting_name, transcript } && i == meeting_id
                        && meeting_name@ == crate::names::name_or_default(old(self).names.names(), meeting_id)
                        && transcript@ == transcript_text_of(segment_texts(segments@))),
                AppEvent::SettingsChanged(s) => final(self).names.names() == old(self).names.names()
                    && if s.ai.provider == AiProvider::LlamaCpp { action is WarmUp } else { action is Nothing },
                AppEvent::QuitRequested => final(self).names.names() == old(self).names.names() && action is Stop,
                _ => final(self).names.names() == old(self).names.names() && action is Nothing,
            },
    {
        match event {
            AppEvent::MeetingStarted { id, name, .. } => {
                self.names.insert(id, name);
                AiAction::Nothing
            },
            AppEvent::TranscriptionReady { meeting_id, segments } => {
                let transcript = transcript_text(&segments);
                let meeting_name = self.names.name_of(meeting_id);
                AiAction::Summarise { meeting_id, meeting_name, transcript }
            },
            AppEvent::SettingsChanged(s) => {
                if needs_warm_up(&s.validated()) {
                    AiAction::WarmUp
                } else {
                    AiAction::Nothing
                }
            },
            AppEvent::QuitRequested => AiAction::Stop,
            _ => AiAction::Nothing,
        }
    }
}

} // verus!
