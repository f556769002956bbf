//! The llama.cpp model benchmark: which models are tried, with which
//! settings, and how each run is reported. Running the models and timing
//! them stand outside the library.

use vstd::prelude::*;

use crate::ai::{content_line, SUMMARY_UNAVAILABLE};
use crate::numbers::{decimal, decimal_string, parse_u64, parse_unsigned};
use crate::settings::{default_settings, AiProvider, Settings};
use crate::text::{chars_of, lines, lines_exec, string_of, subvec, trim, trim_exec};
use crate::types::MeetingNotes;

verus! {

broadcast use vstd::seq_lib::group_seq_properties, crate::views::lemma_char_vec_deep_view;

/// The transcript that every model summarises.
pub const BENCHMARK_TRANSCRIPT: &'static str = "Alex: We agreed to keep the manual transcript flow for the MVP while automatic capture is still being built.\nPriya: The main risk is that users may not know when summarisation is happening, so progress logging should stay visible.\nSam: I will verify the generated note format and make sure action items are easy to scan.";

/// How long a run may take, in seconds, unless configured otherwise.
pub const DEFAULT_BENCHMARK_TIMEOUT_SECS: u64 = 30;

/// A model to benchmark: a Hugging Face repository and a GGUF file in it.
#[derive(Debug, Clone, Copy, PartialEq, Eq)]
pub struct LlamaCppBenchmarkModel {
    /// Repository.
    pub repo: &'static str,
    /// File.
    pub file: &'static str,
}

/// The benchmarked models, smallest first.
pub open spec fn benchmark_model_names() -> Seq<(Seq<char>, Seq<char>)> {
    seq![
        ("bartowski/SmolLM2-360M-Instruct-GGUF"@, "SmolLM2-360M-Instruct-Q4_K_M.gguf"@),
        ("Qwen/Qwen2.5-0.5B-Instruct-GGUF"@, "qwen2.5-0.5b-instruct-q4_k_m.gguf"@),
        ("bartowski/Llama-3.2-1B-Instruct-GGUF"@, "Llama-3.2-1B-Instruct-IQ3_M.gguf"@),
        ("Qwen/Qwen2.5-1.5B-Instruct-GGUF"@, "qwen2.5-1.5b-instruct-q2_k.gguf"@),
    ]
}

/// The models that the benchmark runs.
pub fn benchmark_models() -> (r: Vec<LlamaCppBenchmarkModel>)
    ensures
        r@.map_values(|m: LlamaCppBenchmarkModel| (m.repo@, m.file@)) == benchmark_model_names(),
{
    let mut r: Vec<LlamaCppBenchmarkModel> = Vec::new();
    r.push(LlamaCppBenchmarkModel { repo: "bartowski/SmolLM2-360M-Instruct-GGUF", file: "SmolLM2-360M-Instruct-Q4_K_M.gguf" });
    r.push(LlamaCppBenchmarkModel { repo: "Qwen/Qwen2.5-0.5B-Instruct-GGUF", file: "qwen2.5-0.5b-instruct-q4_k_m.gguf" });
    r.push(LlamaCppBenchmarkModel { repo: "bartowski/Llama-3.2-1B-Instruct-GGUF", file: "Llama-3.2-1B-Instruct-IQ3_M.gguf" });
    r.push(LlamaCppBenchmarkModel { repo: "Qwen/Qwen2.5-1.5B-Instruct-GGUF", file: "qwen2.5-1.5b-instruct-q2_k.gguf" });
    assert(r@.map_values(|m: LlamaCppBenchmarkModel| (m.repo@, m.file@)) =~= benchmark_model_names());
    r
}

/// The settings of a benchmark run: the defaults with llama.cpp loading the
/// model from Hugging Face.
pub fn benchmark_settings(model: &LlamaCppBenchmarkModel) -> (r: Settings)
    ensures
        r.general == default_settings().general,
        r.meeting == default_settings().meeting,
        r.audio@ == default_settings().audio,
        r.transcription@ == default_settings().transcription,
        r.storage@ == default_settings().storage,
        r.ai.provider == AiProvider::LlamaCpp,
        r.ai.model@ == model.repo@,
        r.ai.hf_repo@ == model.repo@,
        r.ai.hf_model_file@ == model.file@,
        r.ai.model_path@ == Seq::<char>::empty(),
        r.ai.api_key@ == default_settings().ai.api_key,
        r.ai.ollama_url@ == default_settings().ai.ollama_url,
        r.ai.system_prompt@ == default_settings().ai.system_prompt,
{
    let mut settings = Settings::default();
    settings.ai.provider = AiProvider::LlamaCpp;
    settings.ai.model = model.repo.to_owned();
    settings.ai.hf_repo = model.repo.to_owned();
    settings.ai.hf_model_file = model.file.to_owned();
    settings.ai.model_path = String::new();
    settings
}

/// The timeout of a run: the variable's value when it is a positive number,
/// else thirty seconds.
pub fn benchmark_timeout_secs(value: Option<&str>) -> (r: u64)
    ensures
        r == match value {
            Some(v) => match parse_unsigned(v@, u64::MAX as nat) {
                Some(n) if n > 0 => n as u64,
                _ => DEFAULT_BENCHMARK_TIMEOUT_SECS,
            },
            None => DEFAULT_BENCHMARK_TIMEOUT_SECS,
        },
{
    match value {
        Some(v) => match parse_u64(&chars_of(v)) {
            Some(n) => if n > 0 {
                n
            } else {
                DEFAULT_BENCHMARK_TIMEOUT_SECS
            },
            None => DEFAULT_BENCHMARK_TIMEOUT_SECS,
        },
        None => DEFAULT_BENCHMARK_TIMEOUT_SECS,
    }
}

/// Where a run's model comes from, for the report.
pub open spec fn model_source_of(s: Settings) -> Seq<char> {
    if trim(s.ai.model_path@).len() > 0 {
        "path:"@ + s.ai.model_path@
    } else if trim(s.ai.hf_repo@).len() > 0 {
        if trim(s.ai.hf_model_file@).len() > 0 {
            "hf:"@ + s.ai.hf_repo@ + "#"@ + s.ai.hf_model_file@
        } else {
            "hf:"@ + s.ai.hf_repo@
        }
    } else if s.ai.provider == AiProvider::Ollama {
        s.ai.ollama_url@
    } else {
        "provider-default"@
    }
}

/// Describes where the model of a run comes from.
pub fn model_source(settings: &Settings) -> (r: String)
    ensures
        r@ == model_source_of(*settings),
{
    if trim_exec(&chars_of(settings.ai.model_path.as_str())).len() > 0 {
        let mut r = "path:".to_owned();
        r.append(settings.ai.model_path.as_str());
        return r;
    }
    if trim_exec(&chars_of(settings.ai.hf_repo.as_str())).len() > 0 {
        let mut r = "hf:".to_owned();
        r.append(settings.ai.hf_repo.as_str());
        if trim_exec(&chars_of(settings.ai.hf_model_file.as_str())).len() > 0 {
            r.append("#");
            r.append(settings.ai.hf_model_file.as_str());
        }
        return r;
    }
    match settings.ai.provider {
        AiProvider::Ollama => settings.ai.ollama_url.clone(),
        _ => "provider-default".to_owned(),
    }
}

/// The first content line of a list, trimmed, if any.
pub open spec fn first_content_line(ls: Seq<Seq<char>>) -> Option<Seq<char>>
    decreases ls.len(),
{
    if ls.len() == 0 {
        None
    } else if content_line(ls[0]) {
        Some(trim(ls[0]))
    } else {
        first_content_line(ls.drop_first())
    }
}

/// The preview of generated notes: the first 120 characters of their first
/// content line.
pub open spec fn preview_of(markdown: Seq<char>) -> Seq<char> {
    let line = match first_content_line(lines(markdown)) {
        Some(l) => l,
        None => "No preview available."@,
    };
    if line.len() > 120 {
        line.take(120)
    } else {
        line
    }
}

/// The first content line of a text, trimmed.
fn first_content_line_exec(markdown: &str) -> (r: Option<Vec<char>>)
    ensures
        match r {
            Some(l) => first_content_line(lines(markdown@)) == Some(l@),
            None => first_content_line(lines(markdown@)) is None,
        },
{
    let ls = lines_exec(&chars_of(markdown));
    let ghost all = lines(markdown@);
    let mut i: usize = 0;
    while i < ls.len()
        invariant
            i <= ls@.len(),
            ls.deep_view() == all,
            all == lines(markdown@),
            first_content_line(all.skip(i as int)) == first_content_line(all),
        decreases ls@.len() - i,
    {
        let t = trim_exec(&ls[i]);
        proof {
            assert(all.skip(i as int)[0] == ls@[i as int]@);
            assert(all.skip(i as int).drop_first() =~= all.skip(i + 1));
        }
        if t.len() > 0 && t[0] != '#' {
            proof {
                assert(content_line(all.skip(i as int)[0]));
            }
            return Some(t);
        }
        i += 1;
    }
    assert(all.skip(ls@.len() as int) =~= Seq::<Seq<char>>::empty());
    None
}

/// The first content line among `ls` is at `k`, whatever lines come before.
proof fn lemma_first_content_line_at(ls: Seq<Seq<char>>, k: int)
    requires
        0 <= k < ls.len(),
        crate::ai::visible_text_line(ls[k]),
        forall|j: int| 0 <= j < k ==> !crate::ai::visible_text_line(#[trigger] ls[j]),
    ensures
        first_content_line(ls) == Some(trim(ls[k])),
    decreases k,
{
    if k > 0 {
        assert(!crate::ai::visible_text_line(ls[0]));
        assert forall|j: int| 0 <= j < k - 1 implies !crate::ai::visible_text_line(#[trigger] ls.drop_first()[j]) by {
            assert(ls.drop_first()[j] == ls[j + 1]);
        }
        lemma_first_content_line_at(ls.drop_first(), k - 1);
    }
}

/// The preview of a run's notes starts their first line with visible text
/// that is not a heading, however many headings come before it: it is that
/// line, trimmed, cut to its first 120 characters.
pub proof fn law_preview_is_first_content_line(markdown: Seq<char>, k: int)
    requires
        0 <= k < lines(markdown).len(),
        crate::ai::visible_text_line(lines(markdown)[k]),
        forall|j: int| 0 <= j < k ==> !crate::ai::visible_text_line(#[trigger] lines(markdown)[j]),
    ensures
        preview_of(markdown).len() == if trim(lines(markdown)[k]).len() > 120 { 120 } else { trim(lines(markdown)[k]).len() },
        forall|i: int| 0 <= i < preview_of(markdown).len() ==> #[trigger] preview_of(markdown)[i] == trim(lines(markdown)[k])[i],
{
    lemma_first_content_line_at(lines(markdown), k);
}

/// Previews generated notes.
pub fn preview(markdown: &str) -> (r: String)
    ensures
        r@ == preview_of(markdown@),
{
    let line = match first_content_line_exec(markdown) {
        Some(l) => l,
        None => chars_of("No preview available."),
    };
    if line.len() > 120 {
        string_of(&subvec(&line, 0, 120))
    } else {
        string_of(&line)
    }
}

/// How a benchmark run ended.
#[derive(Debug, Clone, Copy, PartialEq, Eq, Structural)]
pub enum BenchmarkStatus {
    /// The model wrote notes.
    Ready,
    /// Fallback notes were written instead.
    Fallback,
    /// The run did not finish in time.
    TimedOut,
}

impl BenchmarkStatus {
    /// The word that the report prints.
    pub fn label(&self) -> (r: &'static str)
        ensures
            r@ == match *self {
                BenchmarkStatus::Ready => "ready"@,
                BenchmarkStatus::Fallback => "fallback"@,
                BenchmarkStatus::TimedOut => "timed-out"@,
            },
    {
        match self {
            BenchmarkStatus::Ready => "ready",
            BenchmarkStatus::Fallback => "fallback",
            BenchmarkStatus::TimedOut => "timed-out",
        }
    }
}

/// The report of one benchmark run.
#[derive(Debug)]
pub struct ProviderBenchmarkResult {
    /// Provider benchmarked.
    pub provider: AiProvider,
    /// Model name.
    pub model: String,
    /// Where the model came from.
    pub model_source: String,
    /// Time spent warming up, in milliseconds.
    pub warmup_ms: u128,
    /// Time spent generating, in milliseconds.
    pub generation_ms: u128,
    /// Characters of generated Markdown.
    pub output_chars: usize,
    /// How the run ended.
    pub status: BenchmarkStatus,
    /// Start of the generated notes, or why there are none.
    pub preview: String,
}

/// Progress of a benchmark, reported as each model starts and finishes.
#[derive(Debug)]
pub enum BenchmarkProgress<'a> {
    /// A run begins for this repository.
    Starting(&'a str),
    /// A run ended.
    Finished(&'a ProviderBenchmarkResult),
}

/// The note shown for a run that timed out.
pub open spec fn timeout_preview(secs: nat) -> Seq<char> {
    "benchmark timed out after "@ + decimal(secs) + "s; set RUSTLE_BENCH_TIMEOUT_SECS to raise the limit"@
}

/// Reports a run from its settings, its timings and its notes (`None` when
/// it timed out after `timeout_secs`).
pub fn benchmark_result(
    settings: &Settings,
    warmup_ms: u128,
    generation_ms: u128,
    notes: Option<MeetingNotes>,
    timeout_secs: u64,
) -> (r: ProviderBenchmarkResult)
    ensures
        r.provider == AiProvider::LlamaCpp,
        r.model@ == settings.ai.model@,
        r.model_source@ == model_source_of(*settings),
        r.warmup_ms == warmup_ms,
        r.generation_ms == generation_ms,
        match notes {
            Some(n) => {
                &&& r.status == if n.summary@ == SUMMARY_UNAVAILABLE@ { BenchmarkStatus::Fallback } else { BenchmarkStatus::Ready }
                &&& r.output_chars == n.markdown@.len()
                &&& r.preview@ == preview_of(n.markdown@)
            },
            None => r.status == BenchmarkStatus::TimedOut && r.output_chars == 0 && r.preview@ == timeout_preview(timeout_secs as nat),
        },
{
    let (status, output_chars, preview_text) = match notes {
        Some(n) => {
            let fallback = crate::text::eq(&chars_of(n.summary.as_str()), &chars_of(SUMMARY_UNAVAILABLE));
            let chars = chars_of(n.markdown.as_str());
            (
                if fallback { BenchmarkStatus::Fallback } else { BenchmarkStatus::Ready },
                chars.len(),
                preview(n.markdown.as_str()),
            )
        },
        None => {
            let mut p = "benchmark timed out after ".to_owned();
            p.append(decimal_string(timeout_secs).as_str());
            p.append("s; set RUSTLE_BENCH_TIMEOUT_SECS to raise the limit");
            (BenchmarkStatus::TimedOut, 0, p)
        },
    };
    ProviderBenchmarkResult {
        provider: AiProvider::LlamaCpp,
        model: settings.ai.model.clone(),
        model_source: model_source(settings),
        warmup_ms,
        generation_ms,
        output_chars,
        status,
        preview: preview_text,
    }
}

} // verus!
