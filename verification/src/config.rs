//! Run configuration: everything that decides how a test run behaves.

use crate::binary64::Real;
use crate::binary64::{INFINITY, MANTISSA};
use crate::text::{chars_of, is_space, is_whitespace};
use vstd::arithmetic::power2::{lemma2_to64, lemma_pow2_strictly_increases, pow2};
use vstd::prelude::*;
use vstd::utf8::*;

verus! {

/// Which HTTP API style to speak.
#[derive(Debug, Clone, Copy, PartialEq, Eq, Structural)]
pub enum ApiKind {
    Openai,
    Anthropic,
    Raw,
    Responses,
}

impl ApiKind {
    pub open spec fn label(self) -> Seq<char> {
        match self {
            ApiKind::Openai => "openai"@,
            ApiKind::Anthropic => "anthropic"@,
            ApiKind::Raw => "raw"@,
            ApiKind::Responses => "responses"@,
        }
    }

    pub fn as_str(self) -> (r: &'static str)
        ensures
            r@ == self.label(),
    {
        match self {
            ApiKind::Openai => "openai",
            ApiKind::Anthropic => "anthropic",
            ApiKind::Raw => "raw",
            ApiKind::Responses => "responses",
        }
    }
}

/// One burst within a [`LoadPattern::Spike`]. `at_secs` is measured from the
/// start of the run; `duration_secs` is how long the burst lasts.
#[derive(Debug, Clone, Copy, PartialEq, Eq, Structural)]
pub struct SpikeSpec {
    pub at_secs: Real,
    pub rps: Real,
    pub duration_secs: Real,
}

/// How the test schedules requests over time.
#[derive(Debug, Clone)]
pub enum LoadPattern {
    /// Hold the rate at a fixed value for the entire run.
    Constant { rps: Real },
    /// Go linearly from `start` to `end` over `duration_secs`.
    Ramp { start: Real, end: Real, duration_secs: Real },
    /// Hold the rate at `baseline`, with short bursts at `spikes`.
    Spike { baseline: Real, spikes: Vec<SpikeSpec> },
    /// A constant rate for long runs; the metrics are written to disk every
    /// `checkpoint_secs`, so that a crash leaves data behind.
    Soak { rps: Real, checkpoint_secs: u64 },
}

/// The highest rate among `first` and the first `n` spikes.
pub open spec fn highest(first: Real, spikes: Seq<SpikeSpec>) -> Real
    decreases spikes.len(),
{
    if spikes.len() == 0 {
        first
    } else {
        highest(first, spikes.drop_last()).larger(spikes.last().rps)
    }
}

impl LoadPattern {
    pub open spec fn peak(self) -> Real {
        match self {
            LoadPattern::Constant { rps } => rps,
            LoadPattern::Ramp { start, end, .. } => start.larger(end),
            LoadPattern::Spike { baseline, spikes } => highest(baseline, spikes@),
            LoadPattern::Soak { rps, .. } => rps,
        }
    }

    /// The peak rate that this pattern will ever produce.
    pub fn peak_rps(&self) -> (r: Real)
        ensures
            r == self.peak(),
    {
        match self {
            LoadPattern::Constant { rps } => *rps,
            LoadPattern::Ramp { start, end, .. } => start.max(*end),
            LoadPattern::Spike { baseline, spikes } => {
                let mut top = *baseline;
                let mut i: usize = 0;
                while i < spikes.len()
                    invariant
                        i <= spikes@.len(),
                        top == highest(*baseline, spikes@.take(i as int)),
                    decreases spikes@.len() - i,
                {
                    proof {
                        assert(spikes@.take(i + 1).drop_last() =~= spikes@.take(i as int));
                    }
                    top = top.max(spikes[i].rps);
                    i += 1;
                }
                proof {
                    assert(spikes@.take(i as int) =~= spikes@);
                }
                top
            },
            LoadPattern::Soak { rps, .. } => *rps,
        }
    }

    pub open spec fn label(self) -> Seq<char> {
        match self {
            LoadPattern::Constant { .. } => "constant"@,
            LoadPattern::Ramp { .. } => "ramp"@,
            LoadPattern::Spike { .. } => "spike"@,
            LoadPattern::Soak { .. } => "soak"@,
        }
    }

    /// A short, human-readable name.
    pub fn name(&self) -> (r: &'static str)
        ensures
            r@ == self.label(),
    {
        match self {
            LoadPattern::Constant { .. } => "constant",
            LoadPattern::Ramp { .. } => "ramp",
            LoadPattern::Spike { .. } => "spike",
            LoadPattern::Soak { .. } => "soak",
        }
    }
}

impl Default for LoadPattern {
    /// One request per second.
    fn default() -> (r: Self)
        ensures
            r == (LoadPattern::Constant { rps: Real { bits: crate::binary64::ONE } }),
    {
        LoadPattern::Constant { rps: Real { bits: crate::binary64::ONE } }
    }
}

/// The dataset that the run pulls prompts from.
#[derive(Debug, Clone)]
pub enum DatasetSpec {
    /// Always the same literal text.
    Literal { text: String },
    /// A generated prompt of roughly `target_tokens` tokens.
    TokenBudget { target_tokens: u32 },
    /// The built-in pool of prompts of varying length.
    Builtin,
    /// The first human turn of each conversation in a ShareGPT JSON file.
    ShareGpt { path: String },
    /// A JSON array or JSON lines of prompts, or a TOML profile.
    Custom { path: String },
}

impl DatasetSpec {
    pub open spec fn label(self) -> Seq<char> {
        match self {
            DatasetSpec::Literal { .. } => "literal"@,
            DatasetSpec::TokenBudget { .. } => "token-budget"@,
            DatasetSpec::Builtin => "built-in"@,
            DatasetSpec::ShareGpt { .. } => "sharegpt"@,
            DatasetSpec::Custom { .. } => "custom"@,
        }
    }

    /// A short, human-readable name.
    pub fn name(&self) -> (r: &'static str)
        ensures
            r@ == self.label(),
    {
        match self {
            DatasetSpec::Literal { .. } => "literal",
            DatasetSpec::TokenBudget { .. } => "token-budget",
            DatasetSpec::Builtin => "built-in",
            DatasetSpec::ShareGpt { .. } => "sharegpt",
            DatasetSpec::Custom { .. } => "custom",
        }
    }
}

impl Default for DatasetSpec {
    /// An empty literal.
    fn default() -> (r: Self)
        ensures
            r matches DatasetSpec::Literal { text } && text@.len() == 0,
    {
        DatasetSpec::Literal { text: String::new() }
    }
}

/// How a dataset of several prompts picks the next one.
#[derive(Debug, Clone, Copy, PartialEq, Eq, Structural)]
pub enum RequestStrategy {
    RoundRobin,
    Random,
}

impl Default for RequestStrategy {
    fn default() -> (r: Self)
        ensures
            r == RequestStrategy::Random,
    {
        RequestStrategy::Random
    }
}

impl RequestStrategy {
    pub open spec fn label(self) -> Seq<char> {
        match self {
            RequestStrategy::RoundRobin => "round-robin"@,
            RequestStrategy::Random => "random"@,
        }
    }

    pub fn as_str(self) -> (r: &'static str)
        ensures
            r@ == self.label(),
    {
        match self {
            RequestStrategy::RoundRobin => "round-robin",
            RequestStrategy::Random => "random",
        }
    }
}

/// The sum of a sequence of token counts.
pub open spec fn token_sum(tokens: Seq<u32>) -> int
    decreases tokens.len(),
{
    if tokens.len() == 0 {
        0
    } else {
        token_sum(tokens.drop_last()) + tokens.last()
    }
}

/// The smallest, largest and total estimated token count of the prompts of a
/// dataset. The mean is `total / count`, or zero where there is no prompt.
#[derive(Debug, Clone, Copy, PartialEq, Eq, Structural)]
pub struct PromptDistribution {
    pub count: usize,
    pub min: u32,
    pub max: u32,
    pub total: u128,
}

impl Default for PromptDistribution {
    fn default() -> (r: Self)
        ensures
            r == (PromptDistribution { count: 0, min: 0, max: 0, total: 0 }),
    {
        PromptDistribution { count: 0, min: 0, max: 0, total: 0 }
    }
}

impl PromptDistribution {
    pub fn from_single(tokens: u32) -> (r: Self)
        ensures
            r == (PromptDistribution { count: 1, min: tokens, max: tokens, total: tokens as u128 }),
    {
        PromptDistribution { count: 1, min: tokens, max: tokens, total: tokens as u128 }
    }

    /// What this says of `tokens`: the bounds are reached, and nothing lies
    /// outside of them.
    pub open spec fn describes(self, tokens: Seq<u32>) -> bool {
        &&& self.count == tokens.len()
        &&& self.total == token_sum(tokens)
        &&& tokens.len() == 0 ==> self.min == 0 && self.max == 0
        &&& tokens.len() > 0 ==> tokens.contains(self.min) && tokens.contains(self.max)
        &&& forall|i: int| 0 <= i < tokens.len() ==> self.min <= #[trigger] tokens[i] <= self.max
    }

    pub fn from_slice(tokens: &[u32]) -> (r: Self)
        ensures
            r.describes(tokens@),
    {
        if tokens.is_empty() {
            return PromptDistribution { count: 0, min: 0, max: 0, total: 0 };
        }
        let mut min: u32 = tokens[0];
        let mut max: u32 = tokens[0];
        let mut sum: u128 = 0;
        let mut i: usize = 0;
        while i < tokens.len()
            invariant
                0 < tokens@.len() <= usize::MAX,
                i <= tokens@.len(),
                tokens@.contains(min),
                tokens@.contains(max),
                sum == token_sum(tokens@.take(i as int)),
                sum <= i * 0xffff_ffff,
                forall|j: int| 0 <= j < i ==> min <= #[trigger] tokens@[j] <= max,
            decreases tokens@.len() - i,
        {
            proof {
                assert(tokens@.take(i + 1).drop_last() =~= tokens@.take(i as int));
                assert(tokens@.contains(tokens@[i as int]));
            }
            if tokens[i] < min {
                min = tokens[i];
            }
            if tokens[i] > max {
                max = tokens[i];
            }
            sum += tokens[i] as u128;
            i += 1;
        }
        proof {
            assert(tokens@.take(i as int) =~= tokens@);
        }
        PromptDistribution { count: tokens.len(), min, max, total: sum }
    }
}

/// How a single literal or generated prompt is made.
#[derive(Debug, Clone)]
pub enum PromptSource {
    /// The text that the user gave.
    Literal { text: String },
    /// A prompt of roughly `target_tokens` tokens.
    TokenBudget { target_tokens: u32 },
}

/// The number of words of `s`: of maximal runs of characters that are no
/// whitespace.
pub open spec fn word_count(s: Seq<char>) -> nat
    decreases s.len(),
{
    if s.len() == 0 {
        0
    } else {
        let starts = !is_space(s.last()) && (s.len() == 1 || is_space(s[s.len() - 2]));
        word_count(s.drop_last()) + (if starts {
            1nat
        } else {
            0nat
        })
    }
}

/// The estimated token count of a text: a token per word or per four bytes,
/// whichever is more; for a text without words, a token per four characters.
pub open spec fn estimated_tokens(s: Seq<char>) -> u32 {
    let words = word_count(s) as u32;
    let quarter = encode_utf8(s).len() as u32 / 4;
    if words > 0 {
        if words > quarter {
            words
        } else {
            quarter
        }
    } else {
        (s.len() as u32).wrapping_add(3) / 4
    }
}

/// Heuristic token estimate: roughly four characters per token.
pub fn estimate_tokens(text: &str) -> (r: u32)
    ensures
        r == estimated_tokens(text@),
{
    let chars = chars_of(text);
    let mut words: usize = 0;
    let mut i: usize = 0;
    while i < chars.len()
        invariant
            i <= chars@.len(),
            chars@ == text@,
            words == word_count(text@.take(i as int)),
            words <= i,
        decreases chars@.len() - i,
    {
        proof {
            assert(text@.take(i + 1).drop_last() =~= text@.take(i as int));
        }
        if !is_whitespace(chars[i]) && (i == 0 || is_whitespace(chars[i - 1])) {
            words += 1;
        }
        i += 1;
    }
    proof {
        assert(text@.take(i as int) =~= text@);
    }
    let whitespace_tokens = words as u32;
    if whitespace_tokens > 0 {
        let quarter = text.as_bytes().len() as u32 / 4;
        if whitespace_tokens > quarter {
            whitespace_tokens
        } else {
            quarter
        }
    } else {
        (chars.len() as u32).wrapping_add(3) / 4
    }
}

/// The sentence that generated prompts repeat.
pub open spec fn filler() -> Seq<char> {
    "the quick brown fox jumps over the lazy dog "@
}

/// The length in characters of a generated prompt.
pub open spec fn filler_len(target: u32) -> int {
    if target * 4 > usize::MAX {
        usize::MAX as int
    } else {
        target * 4
    }
}

/// Repeats one sentence to a length of four characters per token.
pub fn generate_prompt_for_tokens(target: u32) -> (r: String)
    ensures
        r@.len() == filler_len(target),
        repeats_filler(r@),
{
    let chunk = chars_of("the quick brown fox jumps over the lazy dog ");
    proof {
        reveal_strlit("the quick brown fox jumps over the lazy dog ");
    }
    let wanted = target as u64 * 4;
    let chars: usize = if wanted > usize::MAX as u64 {
        usize::MAX
    } else {
        wanted as usize
    };
    let mut out = String::new();
    let mut i: usize = 0;
    while i < chars
        invariant
            i <= chars,
            chunk@ == filler(),
            chunk@.len() == 44,
            out@.len() == i,
            forall|j: int| 0 <= j < i ==> out@[j] == #[trigger] filler()[j % 44],
        decreases chars - i,
    {
        out.push(chunk[i % 44]);
        i += 1;
    }
    out
}

/// `s` repeats the sentence of generated prompts.
pub open spec fn repeats_filler(s: Seq<char>) -> bool {
    forall|i: int| 0 <= i < s.len() ==> s[i] == #[trigger] filler()[i % 44]
}

/// How many words begin among the first `m` characters of the sentence.
spec fn words_begun(m: int) -> int {
    if m <= 0 {
        0
    } else if m <= 4 {
        1
    } else if m <= 10 {
        2
    } else if m <= 16 {
        3
    } else if m <= 20 {
        4
    } else if m <= 26 {
        5
    } else if m <= 31 {
        6
    } else if m <= 35 {
        7
    } else if m <= 40 {
        8
    } else {
        9
    }
}

proof fn filler_words(s: Seq<char>, n: int)
    requires
        repeats_filler(s),
        0 <= n <= s.len(),
    ensures
        word_count(s.take(n)) == 9 * (n / 44) + words_begun(n % 44),
    decreases n,
{
    reveal_strlit("the quick brown fox jumps over the lazy dog ");
    if n > 0 {
        filler_words(s, n - 1);
        let m = (n - 1) % 44;
        assert(s.take(n).drop_last() =~= s.take(n - 1));
        assert(s[n - 1] == filler()[(n - 1) % 44]);
        if n > 1 {
            assert(s[n - 2] == filler()[(n - 2) % 44]);
            assert((n - 2) % 44 == (if m == 0 {
                43
            } else {
                m - 1
            }));
        } else {
            assert(m == 0);
        }
    }
}

/// A generated prompt meets its token budget exactly: its estimate is the budget,
/// as long as the prompt has less than 2^32 characters.
pub proof fn generated_prompts_meet_their_budget(s: Seq<char>, target: u32)
    requires
        target < 0x4000_0000,
        s.len() == filler_len(target),
        repeats_filler(s),
    ensures
        s.len() == 4 * target,
        encode_utf8(s).len() == 4 * target,
        estimated_tokens(s) == target,
{
    reveal_strlit("the quick brown fox jumps over the lazy dog ");
    let n = s.len() as int;
    assert(s.take(n) =~= s);
    filler_words(s, n);
    assert forall|i: int| 0 <= i < s.len() implies 0 <= #[trigger] s[i] < 0x80 by {
        assert(s[i] == filler()[i % 44]);
    }
    is_ascii_chars_encode_utf8(s);
    assert(word_count(s) <= target);
}

impl PromptSource {
    /// The prompt text and its estimated token count.
    pub fn resolve(&self) -> (r: (String, u32))
        ensures
            r.1 == estimated_tokens(r.0@),
            match self {
                PromptSource::Literal { text } => r.0@ == text@,
                PromptSource::TokenBudget { target_tokens } => {
                    &&& r.0@.len() == filler_len(*target_tokens)
                    &&& repeats_filler(r.0@)
                    &&& *target_tokens < 0x4000_0000 ==> r.1 == *target_tokens
                },
            },
    {
        match self {
            PromptSource::Literal { text } => {
                let tokens = estimate_tokens(text.as_str());
                (text.clone(), tokens)
            },
            PromptSource::TokenBudget { target_tokens } => {
                let text = generate_prompt_for_tokens(*target_tokens);
                let tokens = estimate_tokens(text.as_str());
                proof {
                    if *target_tokens < 0x4000_0000 {
                        generated_prompts_meet_their_budget(text@, *target_tokens);
                    }
                }
                (text, tokens)
            },
        }
    }
}

/// The full configuration of one test run. Paths and the start time are held
/// as text.
#[derive(Debug, Clone)]
pub struct RunConfig {
    pub run_id: String,
    pub target: String,
    pub api: ApiKind,
    pub model: String,
    /// The prompt source of runs without a dataset.
    pub prompt: PromptSource,
    pub dataset: DatasetSpec,
    pub strategy: RequestStrategy,
    pub prompt_distribution: PromptDistribution,
    pub pattern: LoadPattern,
    /// The peak rate of `pattern`.
    pub target_rps: Real,
    pub max_tokens: u32,
    pub stream: bool,
    pub duration_secs: u64,
    pub concurrency: usize,
    pub tag: Option<String>,
    /// Sent as a bearer token, or as `x-api-key`, where it is set.
    pub api_key: Option<String>,
    /// Local start time, in RFC 3339 notation.
    pub started_at: String,
    /// The file with the body for the raw client.
    pub raw_body_file: Option<String>,
    /// The content type of the raw body.
    pub raw_content_type: Option<String>,
    /// Groups runs of different model names in the history.
    pub model_alias: Option<String>,
}

/// Four parallel requests per request per second, but no fewer than 256 and no
/// more than 1024.
pub open spec fn concurrency_for(rps: Real) -> int {
    if !rps.positive() {
        256
    } else if rps.bits >= INFINITY {
        1024
    } else {
        let needed = (4 * rps.scaled() + MANTISSA - 1) / (MANTISSA as int);
        if needed < 256 {
            256
        } else if needed > 1024 {
            1024
        } else {
            needed
        }
    }
}

impl RunConfig {
    /// The default concurrency for a target rate.
    pub fn default_concurrency(rps: Real) -> (r: usize)
        ensures
            r == concurrency_for(rps),
    {
        proof {
            lemma2_to64();
            reveal(pow2);
        }
        if !rps.is_positive() {
            return 256;
        }
        if rps.bits >= INFINITY {
            return 1024;
        }
        let ghost significand: int = rps.bits % MANTISSA + MANTISSA;
        let ghost e = rps.exponent();
        if rps.bits < 0x4050_0000_0000_0000 {
            proof {
                assert(e <= 5);
                assert(rps.scaled() <= significand * 32) by {
                    if e >= 0 {
                        if e < 5 {
                            lemma_pow2_strictly_increases(e as nat, 5);
                        }
                        assert(significand * pow2(e as nat) <= significand * 32)
                            by (nonlinear_arith)
                            requires
                                significand > 0,
                                0 < pow2(e as nat) <= 32,
                        ;
                    } else {
                        lemma_pow2_strictly_increases(0, (-e) as nat);
                        let d = pow2((-e) as nat) as int;
                        assert(significand / d <= significand) by (nonlinear_arith)
                            requires
                                significand > 0,
                                d > 0,
                        ;
                    }
                }
                assert(significand < 2 * MANTISSA);
            }
            return 256;
        }
        if rps.bits >= 0x4070_0000_0000_0000 {
            proof {
                assert(e >= 8);
                if e > 8 {
                    lemma_pow2_strictly_increases(8, e as nat);
                }
                assert(significand * pow2(e as nat) >= significand * 256) by (nonlinear_arith)
                    requires
                        significand > 0,
                        pow2(e as nat) >= 256,
                ;
                assert(significand >= MANTISSA);
                let total: int = 4 * rps.scaled() + MANTISSA - 1;
                assert(total / (MANTISSA as int) >= 1024) by (nonlinear_arith)
                    requires
                        total >= 1024 * MANTISSA,
                ;
            }
            return 1024;
        }
        let low = rps.bits % MANTISSA + MANTISSA;
        let factor: u64 = if rps.bits < 0x4060_0000_0000_0000 {
            64
        } else {
            128
        };
        proof {
            assert(e == (if rps.bits < 0x4060_0000_0000_0000 {
                6int
            } else {
                7int
            }));
            assert(pow2(6) == 64 && pow2(7) == 128);
            assert(low * factor == rps.scaled());
            assert(low * factor * 4 <= 0x1f_ffff_ffff_ffff * 512) by (nonlinear_arith)
                requires
                    low <= 0x1f_ffff_ffff_ffff,
                    factor <= 128,
            ;
        }
        let needed = (low * factor * 4 + (MANTISSA - 1)) / MANTISSA;
        if needed < 256 {
            256
        } else if needed > 1024 {
            1024
        } else {
            needed as usize
        }
    }
}

/// The components of the default history directory: below the user profile on
/// Windows, below the home directory elsewhere, and below the working directory
/// where neither is known.
pub open spec fn history_dir_parts(
    on_windows: bool,
    user_profile: Option<Seq<char>>,
    home: Option<Seq<char>>,
) -> Seq<Seq<char>> {
    let tail = seq![".power_test"@, "history"@];
    if on_windows && user_profile is Some {
        seq![user_profile.unwrap()] + tail
    } else if home is Some {
        seq![home.unwrap()] + tail
    } else {
        tail
    }
}

pub open spec fn opt_view(s: Option<String>) -> Option<Seq<char>> {
    match s {
        Some(t) => Some(t@),
        None => None,
    }
}

/// The components of the path of the default history directory.
pub fn default_history_dir(
    on_windows: bool,
    user_profile: Option<String>,
    home: Option<String>,
) -> (r: Vec<String>)
    ensures
        crate::text::views(r@) == history_dir_parts(
            on_windows,
            opt_view(user_profile),
            opt_view(home),
        ),
{
    let mut parts: Vec<String> = Vec::new();
    let base = match (on_windows, user_profile) {
        (true, Some(profile)) => Some(profile),
        _ => home,
    };
    if let Some(dir) = base {
        parts.push(dir);
    }
    parts.push(".power_test".to_owned());
    parts.push("history".to_owned());
    proof {
        assert(crate::text::views(parts@) =~= history_dir_parts(
            on_windows,
            opt_view(user_profile),
            opt_view(home),
        ));
    }
    parts
}

/// A run's final outcome as recorded in the history index.
#[derive(Debug, Clone, Copy, PartialEq, Eq, Structural)]
pub enum RunStatus {
    Completed,
    Interrupted,
    Failed,
}

impl RunStatus {
    pub open spec fn label(self) -> Seq<char> {
        match self {
            RunStatus::Completed => "completed"@,
            RunStatus::Interrupted => "interrupted"@,
            RunStatus::Failed => "failed"@,
        }
    }

    pub fn as_str(self) -> (r: &'static str)
        ensures
            r@ == self.label(),
    {
        match self {
            RunStatus::Completed => "completed",
            RunStatus::Interrupted => "interrupted",
            RunStatus::Failed => "failed",
        }
    }
}

/// The peak of a load is one of its rates, and no rate of it is higher.
pub proof fn no_rate_is_above_the_peak(pattern: LoadPattern)
    ensures
        match pattern {
            LoadPattern::Constant { rps } => pattern.peak() == rps,
            LoadPattern::Soak { rps, .. } => pattern.peak() == rps,
            LoadPattern::Ramp { start, end, .. } => {
                &&& pattern.peak() == start || pattern.peak() == end
                &&& !start.nan() && !end.nan() ==> start.rank() <= pattern.peak().rank()
                    && end.rank() <= pattern.peak().rank()
            },
            LoadPattern::Spike { baseline, spikes } => {
                &&& pattern.peak() == baseline || exists|i: int|
                    0 <= i < spikes@.len() && pattern.peak() == (#[trigger] spikes@[i]).rps
                &&& !baseline.nan() && (forall|i: int|
                    0 <= i < spikes@.len() ==> !(#[trigger] spikes@[i]).rps.nan()) ==> {
                    &&& baseline.rank() <= pattern.peak().rank()
                    &&& forall|i: int|
                        0 <= i < spikes@.len() ==> (#[trigger] spikes@[i]).rps.rank()
                            <= pattern.peak().rank()
                }
            },
        },
{
    if let LoadPattern::Spike { baseline, spikes } = pattern {
        highest_is_reached(baseline, spikes@);
    }
}

proof fn highest_is_reached(first: Real, spikes: Seq<SpikeSpec>)
    ensures
        highest(first, spikes) == first || exists|i: int|
            0 <= i < spikes.len() && highest(first, spikes) == (#[trigger] spikes[i]).rps,
        !first.nan() && (forall|i: int|
            0 <= i < spikes.len() ==> !(#[trigger] spikes[i]).rps.nan()) ==> {
            &&& !highest(first, spikes).nan()
            &&& first.rank() <= highest(first, spikes).rank()
            &&& forall|i: int|
                0 <= i < spikes.len() ==> (#[trigger] spikes[i]).rps.rank() <= highest(
                    first,
                    spikes,
                ).rank()
        },
    decreases spikes.len(),
{
    if spikes.len() > 0 {
        let rest = spikes.drop_last();
        highest_is_reached(first, rest);
        let top = highest(first, rest);
        if top != first {
            let i = choose|i: int| 0 <= i < rest.len() && top == (#[trigger] rest[i]).rps;
            assert(spikes[i].rps == top);
        }
        let last = spikes[spikes.len() - 1];
        if !first.nan() && (forall|i: int|
            0 <= i < spikes.len() ==> !(#[trigger] spikes[i]).rps.nan()) {
            assert forall|i: int| 0 <= i < rest.len() implies !(#[trigger] rest[i]).rps.nan() by {
                assert(rest[i] == spikes[i]);
            }
            assert(!last.rps.nan());
            assert forall|i: int| 0 <= i < spikes.len() implies (#[trigger] spikes[i]).rps.rank()
                <= highest(first, spikes).rank() by {
                if i < rest.len() {
                    assert(rest[i] == spikes[i]);
                }
            }
        }
    }
}

/// Space separates words: the words of two texts with a space between them are
/// those of the first and those of the second. A text without space is one word,
/// and space alone holds none.
pub proof fn space_separates_words(a: Seq<char>, space: char, b: Seq<char>)
    requires
        is_space(space),
    ensures
        word_count(a.push(space) + b) == word_count(a) + word_count(b),
        a.len() > 0 && (forall|i: int| 0 <= i < a.len() ==> !is_space(#[trigger] a[i]))
            ==> word_count(a) == 1,
        (forall|i: int| 0 <= i < a.len() ==> is_space(#[trigger] a[i])) ==> word_count(a) == 0,
    decreases a.len() + b.len(),
{
    if b.len() > 0 {
        let all = a.push(space) + b;
        space_separates_words(a, space, b.drop_last());
        assert(all.drop_last() =~= a.push(space) + b.drop_last());
        assert(all.last() == b.last());
        if b.len() == 1 {
            assert(all[all.len() - 2] == space);
        } else {
            assert(all[all.len() - 2] == b[b.len() - 2]);
        }
    } else {
        assert(a.push(space) + b =~= a.push(space));
        assert(a.push(space).drop_last() =~= a);
        if a.len() > 0 {
            space_separates_words(a.drop_last(), space, b);
            assert(a[a.len() - 1] == a.last());
            if a.len() > 1 {
                assert(a.drop_last()[a.len() - 2] == a[a.len() - 2]);
            } else {
                assert(a.drop_last() =~= Seq::empty());
            }
        }
    }
}

/// The estimate of a text's tokens is the larger of its words and a quarter of
/// its bytes; of a text without a word it is a quarter of its characters,
/// rounded up.
pub proof fn tokens_are_estimated_by_words_and_bytes(s: Seq<char>)
    requires
        s.len() + 3 <= u32::MAX,
        encode_utf8(s).len() <= u32::MAX,
    ensures
        word_count(s) > 0 ==> {
            &&& estimated_tokens(s) >= word_count(s)
            &&& estimated_tokens(s) >= encode_utf8(s).len() / 4
            &&& estimated_tokens(s) == word_count(s) || estimated_tokens(s) == encode_utf8(s).len()
                / 4
        },
        word_count(s) == 0 ==> estimated_tokens(s) == (s.len() + 3) / 4,
{
    words_have_characters(s);
}

/// There are no more words than characters.
proof fn words_have_characters(s: Seq<char>)
    ensures
        word_count(s) <= s.len(),
    decreases s.len(),
{
    if s.len() > 0 {
        words_have_characters(s.drop_last());
    }
}

/// A run may have four requests under way for each one that is started in a
/// second, but no fewer than 256 and no more than 1024.
pub proof fn four_requests_for_each_started(rps: Real)
    ensures
        256 <= concurrency_for(rps) <= 1024,
        !rps.positive() ==> concurrency_for(rps) == 256,
        rps.positive() && rps.bits < INFINITY ==> {
            &&& concurrency_for(rps) < 1024 ==> 4 * rps.scaled() <= concurrency_for(rps) * MANTISSA
            &&& concurrency_for(rps) > 256 ==> (concurrency_for(rps) - 1) * MANTISSA < 4
                * rps.scaled()
        },
        rps.positive() && rps.bits >= INFINITY ==> concurrency_for(rps) == 1024,
{
    if rps.positive() && rps.bits < INFINITY {
        let x = 4 * rps.scaled();
        let m = MANTISSA as int;
        let needed = (x + m - 1) / m;
        assert(m > 0);
        assert(needed * m <= x + m - 1 && x + m - 1 < (needed + 1) * m) by (nonlinear_arith)
            requires
                m > 0,
                needed == (x + m - 1) / m,
        ;
        let c = concurrency_for(rps);
        if c < 1024 {
            assert(x <= c * m) by (nonlinear_arith)
                requires
                    x + m - 1 < (needed + 1) * m,
                    c >= needed,
                    m > 0,
            ;
        }
        if c > 256 {
            assert((c - 1) * m < x) by (nonlinear_arith)
                requires
                    needed * m <= x + m - 1,
                    c <= needed,
                    m > 0,
            ;
        }
    }
}

/// Token counts add up: those of two datasets are those of the first and those
/// of the second.
pub proof fn token_counts_add_up(a: Seq<u32>, b: Seq<u32>, n: u32)
    ensures
        token_sum(a + b) == token_sum(a) + token_sum(b),
        token_sum(seq![n]) == n,
    decreases b.len(),
{
    assert(seq![n].drop_last() =~= Seq::empty());
    assert(token_sum(seq![n].drop_last()) == 0);
    if b.len() == 0 {
        assert(a + b =~= a);
    } else {
        token_counts_add_up(a, b.drop_last(), n);
        assert((a + b).drop_last() =~= a + b.drop_last());
    }
}

/// Runs are kept under the home directory; on Windows under the profile of the
/// user, where there is one. Without either they are kept in the current
/// directory.
pub proof fn runs_are_kept_at_home(
    on_windows: bool,
    user_profile: Option<Seq<char>>,
    home: Option<Seq<char>>,
)
    ensures
        ({
            let parts = history_dir_parts(on_windows, user_profile, home);
            let n = parts.len() as int;
            &&& parts[n - 2] == ".power_test"@
            &&& parts[n - 1] == "history"@
            &&& !on_windows && home is Some ==> n == 3 && parts[0] == home.unwrap()
            &&& on_windows && user_profile is Some ==> n == 3 && parts[0] == user_profile.unwrap()
            &&& on_windows && user_profile is None && home is Some ==> n == 3 && parts[0]
                == home.unwrap()
            &&& home is None && !(on_windows && user_profile is Some) ==> n == 2
        }),
{
}

/// A distribution counts the prompts, adds up their tokens, and is bounded by
/// the smallest and the largest of them.
pub proof fn a_distribution_is_bounded_by_its_prompts(d: PromptDistribution, tokens: Seq<u32>)
    requires
        d.describes(tokens),
    ensures
        d.count == tokens.len(),
        d.total == token_sum(tokens),
        tokens.len() == 0 ==> d.min == 0 && d.max == 0,
        tokens.len() > 0 ==> exists|i: int, j: int|
            0 <= i < tokens.len() && 0 <= j < tokens.len() && #[trigger] tokens[i] == d.min
                && #[trigger] tokens[j] == d.max,
        forall|i: int| 0 <= i < tokens.len() ==> d.min <= #[trigger] tokens[i] <= d.max,
{
    if tokens.len() > 0 {
        let i = tokens.index_of(d.min);
        let j = tokens.index_of(d.max);
        assert(tokens[i] == d.min && tokens[j] == d.max);
    }
}

} // verus!
