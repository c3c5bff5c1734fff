//! The arguments of a run, and the configuration that they ask for.

use crate::binary64::Real;
use crate::config::{
    concurrency_for, default_history_dir, estimate_tokens, estimated_tokens, history_dir_parts,
    opt_view, ApiKind, DatasetSpec, LoadPattern, PromptDistribution, PromptSource,
    RequestStrategy, RunConfig, SpikeSpec,
};
use crate::dataset::custom::file_items;
use crate::dataset::sharegpt::kept_prompts;
use crate::dataset::{
    builtin, custom, distribution_of, estimates, sharegpt, DatasetFiles, DatasetItem,
};
use crate::error::Error;
use crate::ids::{
    digits_tell_numbers_apart, hex_digit, hex_text, hex_text_holds_digits, leading_digits,
    random_id, simple_string,
};
use crate::text::{
    ascii_lowercase, chars_of, lowered, same_text, text_between, trim, trimmed, views,
};
use vstd::arithmetic::div_mod::{lemma_div_pos_is_pos, lemma_multiply_divide_lt};
use vstd::arithmetic::power::{lemma_pow_adds, lemma_pow_positive, pow};
use vstd::prelude::*;

verus! {

/// The arguments of `power_test run`. Paths are held as text.
#[derive(Debug)]
pub struct RunArgs {
    /// The endpoint. A run needs one; printing the configuration does not.
    pub target: Option<String>,
    /// The rate of `constant` and `soak`, the baseline of `spike`.
    pub rps: Real,
    /// In seconds.
    pub duration: u64,
    pub model: String,
    /// Groups runs of different model names in the history.
    pub model_alias: Option<String>,
    /// Implies the dataset `literal`, where none is given.
    pub prompt: Option<String>,
    /// Implies the dataset `token-budget`, where none is given.
    pub prompt_tokens: Option<u32>,
    pub max_tokens: u32,
    pub stream: Option<bool>,
    pub api: String,
    pub concurrency: Option<usize>,
    pub output_dir: Option<String>,
    pub tag: Option<String>,
    pub api_key: Option<String>,
    /// `constant`, `ramp`, `spike` or `soak`.
    pub pattern: String,
    pub rps_start: Option<Real>,
    pub rps_end: Option<Real>,
    /// Seconds from the start, one for each spike.
    pub spike_at: Vec<Real>,
    pub spike_rps: Option<Real>,
    pub spike_duration: Option<Real>,
    /// Seconds between checkpoints of a soak run; zero for none.
    pub soak_checkpoint: Option<u64>,
    /// `literal`, `token-budget`, `built-in`, `sharegpt` or `custom`.
    pub dataset: Option<String>,
    pub sharegpt_path: Option<String>,
    pub custom_path: Option<String>,
    /// `round-robin` or `random`.
    pub request_strategy: String,
    pub raw_body_file: Option<String>,
    pub raw_content_type: Option<String>,
    pub tui: bool,
    pub quiet: bool,
    pub print_config: bool,
}

/// The arguments of `power_test list`.
#[derive(Debug)]
pub struct ListArgs {
    /// The history to list; the standard place where none is given.
    pub history_dir: Option<String>,
}

/// The arguments of `power_test report`.
#[derive(Debug)]
pub struct ReportArgs {
    pub run_id: String,
    pub history_dir: Option<String>,
}

/// The arguments of `power_test dashboard`.
#[derive(Debug)]
pub struct DashboardArgs {
    /// A model or an alias; all groups with a saved run where none is given.
    pub name: Option<String>,
    /// Render the pages without writing them.
    pub no_write: bool,
    pub history_dir: Option<String>,
}

/// The arguments of `power_test compare`.
#[derive(Debug)]
pub struct CompareArgs {
    pub run_a: String,
    pub run_b: String,
    pub history_dir: Option<String>,
    /// Also write a page into the history.
    pub html: bool,
}

/// Why arguments are refused.
#[derive(Debug)]
pub enum ArgsError {
    Message(String),
    /// The rates of a ramp must be above zero.
    RampRates { start: Real, end: Real },
    /// The rate and the duration of a spike must be above zero.
    SpikeNumbers { rps: Real, duration: Real },
}

impl ArgsError {
    /// The message, where `first` and `second` are the numbers of the error,
    /// written out.
    pub open spec fn text(self, first: Seq<char>, second: Seq<char>) -> Seq<char> {
        match self {
            ArgsError::Message(m) => m@,
            ArgsError::RampRates { .. } => "--rps-start and --rps-end must be > 0 (got "@ + first
                + " and "@ + second + ")"@,
            ArgsError::SpikeNumbers { .. } => "--spike-rps and --spike-duration must be > 0 (got "@
                + first + " and "@ + second + ")"@,
        }
    }

    pub fn message(&self, first: &str, second: &str) -> (r: String)
        ensures
            r@ == self.text(first@, second@),
    {
        let mut out = match self {
            ArgsError::Message(m) => {
                return m.clone();
            },
            ArgsError::RampRates { .. } =>
                "--rps-start and --rps-end must be > 0 (got ".to_owned(),
            ArgsError::SpikeNumbers { .. } =>
                "--spike-rps and --spike-duration must be > 0 (got ".to_owned(),
        };
        out.push_str(first);
        out.push_str(" and ");
        out.push_str(second);
        out.push_str(")");
        out
    }

    /// Whether this is a plain message.
    pub open spec fn says(self, text: Seq<char>) -> bool {
        self matches ArgsError::Message(m) && m@ == text
    }
}

fn refuse(text: &str) -> (r: ArgsError)
    ensures
        r.says(text@),
{
    ArgsError::Message(text.to_owned())
}

/// The refusal of a value that is not known.
pub open spec fn unknown_text(flag: Seq<char>, value: Seq<char>, known: Seq<char>) -> Seq<char> {
    "unknown "@ + flag + " '"@ + value + "': expected "@ + known
}

fn unknown(flag: &str, value: &str, known: &str) -> (r: ArgsError)
    ensures
        r.says(unknown_text(flag@, value@, known@)),
{
    let mut out = "unknown ".to_owned();
    out.push_str(flag);
    out.push_str(" '");
    out.push_str(value);
    out.push_str("': expected ");
    out.push_str(known);
    ArgsError::Message(out)
}

/// The API family of a name, whatever its case.
pub open spec fn api_named(name: Seq<char>) -> Option<ApiKind> {
    let low = lowered(name);
    if low == "openai"@ {
        Some(ApiKind::Openai)
    } else if low == "anthropic"@ {
        Some(ApiKind::Anthropic)
    } else if low == "raw"@ {
        Some(ApiKind::Raw)
    } else if low == "responses"@ {
        Some(ApiKind::Responses)
    } else {
        None
    }
}

/// The strategy of a name, whatever its case.
pub open spec fn strategy_named(name: Seq<char>) -> Option<RequestStrategy> {
    let low = lowered(name);
    if low == "round-robin"@ || low == "roundrobin"@ || low == "rr"@ {
        Some(RequestStrategy::RoundRobin)
    } else if low == "random"@ {
        Some(RequestStrategy::Random)
    } else {
        None
    }
}

/// The prompt of runs that are given none.
pub open spec fn default_prompt() -> Seq<char> {
    "Explain the concept of quantum entanglement in simple terms."@
}

/// The kind of dataset that is asked for: the given one, or what the prompt
/// flags imply.
pub open spec fn dataset_kind(args: RunArgs) -> Seq<char> {
    match args.dataset {
        Some(name) => lowered(name@),
        None => if args.prompt is None && args.prompt_tokens is Some {
            "token-budget"@
        } else {
            "literal"@
        },
    }
}

/// Every spike has the same rate and duration.
pub open spec fn spikes_of(args: RunArgs) -> Seq<SpikeSpec> {
    args.spike_at@.map_values(
        |at: Real|
            SpikeSpec {
                at_secs: at,
                rps: args.spike_rps.unwrap(),
                duration_secs: args.spike_duration.unwrap(),
            },
    )
}

/// What [`RunArgs::load_pattern`] returns.
pub open spec fn pattern_result(
    r: Result<LoadPattern, ArgsError>,
    args: RunArgs,
    duration: Real,
) -> bool {
    let kind = lowered(args.pattern@);
    if kind == "constant"@ {
        r == Ok::<LoadPattern, ArgsError>(LoadPattern::Constant { rps: args.rps })
    } else if kind == "ramp"@ {
        match (args.rps_start, args.rps_end) {
            (None, _) => r matches Err(e) && e.says("--pattern ramp requires --rps-start"@),
            (_, None) => r matches Err(e) && e.says("--pattern ramp requires --rps-end"@),
            (Some(start), Some(end)) => if at_most_zero(start) || at_most_zero(end) {
                r == Err::<LoadPattern, ArgsError>(ArgsError::RampRates { start, end })
            } else {
                r == Ok::<LoadPattern, ArgsError>(
                    LoadPattern::Ramp { start, end, duration_secs: duration },
                )
            },
        }
    } else if kind == "spike"@ {
        if args.spike_at@.len() == 0 {
            r matches Err(e) && e.says("--pattern spike requires at least one --spike-at"@)
        } else {
            match (args.spike_rps, args.spike_duration) {
                (None, _) => r matches Err(e) && e.says("--pattern spike requires --spike-rps"@),
                (_, None) => r matches Err(e) && e.says(
                    "--pattern spike requires --spike-duration"@,
                ),
                (Some(rps), Some(length)) => if at_most_zero(rps) || at_most_zero(length) {
                    r == Err::<LoadPattern, ArgsError>(
                        ArgsError::SpikeNumbers { rps, duration: length },
                    )
                } else {
                    r matches Ok(LoadPattern::Spike { baseline, spikes }) && baseline == args.rps
                        && spikes@ == spikes_of(args)
                },
            }
        }
    } else if kind == "soak"@ {
        r == Ok::<LoadPattern, ArgsError>(
            LoadPattern::Soak {
                rps: args.rps,
                checkpoint_secs: match args.soak_checkpoint {
                    Some(n) => n,
                    None => 60,
                },
            },
        )
    } else {
        r matches Err(e) && e.says(
            unknown_text("--pattern"@, kind, "one of constant, ramp, spike, soak"@),
        )
    }
}

/// A pattern holds what its flags say: a ramp goes from `--rps-start` to
/// `--rps-end` over the run, a burst starts at each `--spike-at` with the rate
/// and the length that all bursts share, and everything else runs at `--rps`.
pub proof fn a_pattern_holds_its_flags(pattern: LoadPattern, args: RunArgs, duration: Real)
    requires
        pattern_result(Ok(pattern), args, duration),
    ensures
        match pattern {
            LoadPattern::Constant { rps } => {
                &&& lowered(args.pattern@) == "constant"@
                &&& rps == args.rps
            },
            LoadPattern::Ramp { start, end, duration_secs } => {
                &&& lowered(args.pattern@) == "ramp"@
                &&& args.rps_start == Some(start)
                &&& args.rps_end == Some(end)
                &&& duration_secs == duration
            },
            LoadPattern::Spike { baseline, spikes } => {
                &&& lowered(args.pattern@) == "spike"@
                &&& baseline == args.rps
                &&& spikes@.len() == args.spike_at@.len()
                &&& forall|i: int|
                    0 <= i < spikes@.len() ==> {
                        &&& (#[trigger] spikes@[i]).at_secs == args.spike_at@[i]
                        &&& args.spike_rps == Some(spikes@[i].rps)
                        &&& args.spike_duration == Some(spikes@[i].duration_secs)
                    }
            },
            LoadPattern::Soak { rps, checkpoint_secs } => {
                &&& lowered(args.pattern@) == "soak"@
                &&& rps == args.rps
                &&& args.soak_checkpoint matches Some(n) ==> checkpoint_secs == n
                &&& args.soak_checkpoint is None ==> checkpoint_secs == 60
            },
        },
{
    names_differ();
}

/// A ramp or a burst is accepted wherever its flags are given and its rates (and
/// the length of the burst) are above zero; a constant rate and a soak are
/// always accepted. The name of a pattern is read in any case.
pub proof fn complete_flags_are_accepted(
    r: Result<LoadPattern, ArgsError>,
    args: RunArgs,
    duration: Real,
)
    requires
        pattern_result(r, args, duration),
    ensures
        lowered(args.pattern@) == "constant"@ ==> r matches Ok(LoadPattern::Constant { .. }),
        lowered(args.pattern@) == "soak"@ ==> r matches Ok(LoadPattern::Soak { .. }),
        lowered(args.pattern@) == "ramp"@ ==> (r matches Ok(LoadPattern::Ramp { .. })) == {
            &&& args.rps_start is Some && args.rps_end is Some
            &&& args.rps_start.unwrap().nan() || args.rps_start.unwrap().rank() > 0
            &&& args.rps_end.unwrap().nan() || args.rps_end.unwrap().rank() > 0
        },
        lowered(args.pattern@) == "spike"@ ==> (r matches Ok(LoadPattern::Spike { .. })) == {
            &&& args.spike_at@.len() > 0
            &&& args.spike_rps is Some && args.spike_duration is Some
            &&& args.spike_rps.unwrap().nan() || args.spike_rps.unwrap().rank() > 0
            &&& args.spike_duration.unwrap().nan() || args.spike_duration.unwrap().rank() > 0
        },
        lowered(args.pattern@) != "constant"@ && lowered(args.pattern@) != "soak"@ && lowered(
            args.pattern@,
        ) != "ramp"@ && lowered(args.pattern@) != "spike"@ ==> r is Err,
{
    names_differ();
}

/// The names of the patterns are different texts.
proof fn names_differ()
    ensures
        "constant"@ != "ramp"@,
        "constant"@ != "spike"@,
        "constant"@ != "soak"@,
        "ramp"@ != "spike"@,
        "ramp"@ != "soak"@,
        "spike"@ != "soak"@,
{
    reveal_strlit("constant");
    reveal_strlit("ramp");
    reveal_strlit("spike");
    reveal_strlit("soak");
    assert("constant"@.len() == 8);
    assert("ramp"@.len() == 4 && "ramp"@[0] == 'r');
    assert("spike"@.len() == 5);
    assert("soak"@.len() == 4 && "soak"@[0] == 's');
}

/// A dataset holds what its flags say. A literal prompt is the given one; a
/// budget is the given number of tokens, or 200; a file is the one that was
/// named for its kind. What a run of a single prompt says is what its dataset
/// holds.
pub proof fn a_dataset_holds_its_flags(dataset: DatasetSpec, prompt: PromptSource, args: RunArgs)
    requires
        dataset_result(Ok((dataset, prompt)), args),
    ensures
        match dataset {
            DatasetSpec::Literal { text } => {
                &&& args.prompt matches Some(p) ==> text@ == p@
                &&& prompt matches PromptSource::Literal { text: same } && same@ == text@
            },
            DatasetSpec::TokenBudget { target_tokens } => {
                &&& args.prompt_tokens matches Some(n) ==> target_tokens == n
                &&& args.prompt_tokens is None ==> target_tokens == 200
                &&& prompt == (PromptSource::TokenBudget { target_tokens })
            },
            DatasetSpec::Builtin => true,
            DatasetSpec::ShareGpt { path } => args.sharegpt_path matches Some(p) && p@ == path@,
            DatasetSpec::Custom { path } => args.custom_path matches Some(p) && p@ == path@,
        },
        args.dataset matches Some(name) ==> match dataset {
            DatasetSpec::Literal { .. } => lowered(name@) == "literal"@,
            DatasetSpec::TokenBudget { .. } => lowered(name@) == "token-budget"@,
            DatasetSpec::Builtin => lowered(name@) == "built-in"@ || lowered(name@) == "builtin"@,
            DatasetSpec::ShareGpt { .. } => lowered(name@) == "sharegpt"@,
            DatasetSpec::Custom { .. } => lowered(name@) == "custom"@,
        },
        args.dataset is None ==> match dataset {
            DatasetSpec::TokenBudget { .. } => args.prompt is None && args.prompt_tokens is Some,
            DatasetSpec::Literal { .. } => args.prompt is Some || args.prompt_tokens is None,
            _ => false,
        },
{
    reveal_strlit("literal");
    reveal_strlit("token-budget");
    assert("literal"@.len() == 7);
    assert("token-budget"@.len() == 12);
}

/// The name that a family, or a way to pick, is written with is read as that
/// family, or that way, in any case.
pub proof fn names_are_read_back(api: ApiKind, strategy: RequestStrategy, name: Seq<char>)
    ensures
        lowered(name) == api.label() ==> api_named(name) == Some(api),
        lowered(name) == strategy.label() ==> strategy_named(name) == Some(strategy),
{
    reveal_strlit("openai");
    reveal_strlit("anthropic");
    reveal_strlit("raw");
    reveal_strlit("responses");
    reveal_strlit("round-robin");
    reveal_strlit("roundrobin");
    reveal_strlit("rr");
    reveal_strlit("random");
    assert("openai"@.len() == 6);
    assert("anthropic"@.len() == 9 && "anthropic"@[0] == 'a');
    assert("raw"@.len() == 3);
    assert("responses"@.len() == 9 && "responses"@[0] == 'r');
    assert("round-robin"@.len() == 11);
    assert("roundrobin"@.len() == 10);
    assert("rr"@.len() == 2);
    assert("random"@.len() == 6);
}

/// `x <= 0`; false where `x` is no number.
pub open spec fn at_most_zero(x: Real) -> bool {
    !x.nan() && x.rank() <= 0
}

fn is_at_most_zero(x: Real) -> (r: bool)
    ensures
        r == at_most_zero(x),
{
    !x.is_nan() && (x.bits == 0 || x.bits >= crate::binary64::SIGN)
}

/// What [`RunArgs::dataset_spec`] returns: the dataset, and the source of a
/// single prompt.
pub open spec fn dataset_result(
    r: Result<(DatasetSpec, PromptSource), ArgsError>,
    args: RunArgs,
) -> bool {
    let kind = dataset_kind(args);
    if kind == "literal"@ {
        let text = match args.prompt {
            Some(p) => p@,
            None => default_prompt(),
        };
        r matches Ok((DatasetSpec::Literal { text: a }, PromptSource::Literal { text: b })) && a@
            == text && b@ == text
    } else if kind == "token-budget"@ {
        let n = match args.prompt_tokens {
            Some(n) => n,
            None => 200,
        };
        r == Ok::<(DatasetSpec, PromptSource), ArgsError>(
            (
                DatasetSpec::TokenBudget { target_tokens: n },
                PromptSource::TokenBudget { target_tokens: n },
            ),
        )
    } else if kind == "built-in"@ || kind == "builtin"@ {
        r matches Ok((DatasetSpec::Builtin, PromptSource::Literal { text })) && text@.len() == 0
    } else if kind == "sharegpt"@ {
        match args.sharegpt_path {
            Some(p) => r matches Ok((DatasetSpec::ShareGpt { path }, PromptSource::Literal { text }))
                && path@ == p@ && text@.len() == 0,
            None => r matches Err(e) && e.says("--dataset sharegpt requires --sharegpt-path"@),
        }
    } else if kind == "custom"@ {
        match args.custom_path {
            Some(p) => r matches Ok((DatasetSpec::Custom { path }, PromptSource::Literal { text }))
                && path@ == p@ && text@.len() == 0,
            None => r matches Err(e) && e.says("--dataset custom requires --custom-path"@),
        }
    } else {
        r matches Err(e) && e.says(
            unknown_text(
                "--dataset"@,
                kind,
                "one of literal, token-budget, built-in, sharegpt, custom"@,
            ),
        )
    }
}

/// A text without the space around it.
pub open spec fn opt_trimmed(s: Option<String>) -> Option<Seq<char>> {
    match s {
        Some(t) => Some(trimmed(t@)),
        None => None,
    }
}

impl RunArgs {
    /// The API family; an unknown one is refused.
    pub fn api_kind(&self) -> (r: Result<ApiKind, ArgsError>)
        ensures
            match r {
                Ok(kind) => api_named(self.api@) == Some(kind),
                Err(e) => api_named(self.api@) is None && e.says(
                    unknown_text(
                        "--api"@,
                        lowered(self.api@),
                        "one of openai, anthropic, raw, responses"@,
                    ),
                ),
            },
    {
        let name = ascii_lowercase(self.api.as_str());
        if same_text(name.as_str(), "openai") {
            Ok(ApiKind::Openai)
        } else if same_text(name.as_str(), "anthropic") {
            Ok(ApiKind::Anthropic)
        } else if same_text(name.as_str(), "raw") {
            Ok(ApiKind::Raw)
        } else if same_text(name.as_str(), "responses") {
            Ok(ApiKind::Responses)
        } else {
            Err(unknown("--api", name.as_str(), "one of openai, anthropic, raw, responses"))
        }
    }

    /// The load pattern; `duration` is the duration of the run as a number of
    /// seconds with a fraction. Flags that the pattern needs must be there.
    pub fn load_pattern(&self, duration: Real) -> (r: Result<LoadPattern, ArgsError>)
        ensures
            pattern_result(r, *self, duration),
            match r {
                Ok(LoadPattern::Constant { rps }) => {
                    &&& lowered(self.pattern@) == "constant"@
                    &&& rps == self.rps
                },
                Ok(LoadPattern::Ramp { start, end, duration_secs }) => {
                    &&& lowered(self.pattern@) == "ramp"@
                    &&& self.rps_start == Some(start)
                    &&& self.rps_end == Some(end)
                    &&& duration_secs == duration
                },
                Ok(LoadPattern::Spike { baseline, spikes }) => {
                    &&& lowered(self.pattern@) == "spike"@
                    &&& baseline == self.rps
                    &&& spikes@.len() == self.spike_at@.len()
                    &&& forall|i: int|
                        0 <= i < spikes@.len() ==> {
                            &&& (#[trigger] spikes@[i]).at_secs == self.spike_at@[i]
                            &&& self.spike_rps == Some(spikes@[i].rps)
                            &&& self.spike_duration == Some(spikes@[i].duration_secs)
                        }
                },
                Ok(LoadPattern::Soak { rps, checkpoint_secs }) => {
                    &&& lowered(self.pattern@) == "soak"@
                    &&& rps == self.rps
                    &&& self.soak_checkpoint matches Some(n) ==> checkpoint_secs == n
                    &&& self.soak_checkpoint is None ==> checkpoint_secs == 60
                },
                Err(ArgsError::RampRates { start, end }) => {
                    &&& self.rps_start == Some(start)
                    &&& self.rps_end == Some(end)
                },
                Err(ArgsError::SpikeNumbers { rps, duration: length }) => {
                    &&& self.spike_rps == Some(rps)
                    &&& self.spike_duration == Some(length)
                },
                Err(ArgsError::Message(_)) => true,
            },
    {
        let kind = ascii_lowercase(self.pattern.as_str());
        if same_text(kind.as_str(), "constant") {
            Ok(LoadPattern::Constant { rps: self.rps })
        } else if same_text(kind.as_str(), "ramp") {
            match (self.rps_start, self.rps_end) {
                (None, _) => Err(refuse("--pattern ramp requires --rps-start")),
                (_, None) => Err(refuse("--pattern ramp requires --rps-end")),
                (Some(start), Some(end)) => {
                    if is_at_most_zero(start) || is_at_most_zero(end) {
                        return Err(ArgsError::RampRates { start, end });
                    }
                    Ok(LoadPattern::Ramp { start, end, duration_secs: duration })
                },
            }
        } else if same_text(kind.as_str(), "spike") {
            if self.spike_at.len() == 0 {
                return Err(refuse("--pattern spike requires at least one --spike-at"));
            }
            match (self.spike_rps, self.spike_duration) {
                (None, _) => Err(refuse("--pattern spike requires --spike-rps")),
                (_, None) => Err(refuse("--pattern spike requires --spike-duration")),
                (Some(rps), Some(length)) => {
                    if is_at_most_zero(rps) || is_at_most_zero(length) {
                        return Err(ArgsError::SpikeNumbers { rps, duration: length });
                    }
                    let mut spikes: Vec<SpikeSpec> = Vec::new();
                    let mut i: usize = 0;
                    while i < self.spike_at.len()
                        invariant
                            i <= self.spike_at@.len(),
                            self.spike_rps == Some(rps),
                            self.spike_duration == Some(length),
                            spikes@ == spikes_of(*self).take(i as int),
                        decreases self.spike_at@.len() - i,
                    {
                        spikes.push(
                            SpikeSpec { at_secs: self.spike_at[i], rps, duration_secs: length },
                        );
                        proof {
                            assert(spikes@ =~= spikes_of(*self).take(i + 1));
                        }
                        i += 1;
                    }
                    proof {
                        assert(spikes@ =~= spikes_of(*self));
                    }
                    Ok(LoadPattern::Spike { baseline: self.rps, spikes })
                },
            }
        } else if same_text(kind.as_str(), "soak") {
            let checkpoint_secs: u64 = match self.soak_checkpoint {
                Some(n) => n,
                None => 60,
            };
            Ok(LoadPattern::Soak { rps: self.rps, checkpoint_secs })
        } else {
            Err(unknown("--pattern", kind.as_str(), "one of constant, ramp, spike, soak"))
        }
    }

    /// The dataset, and the source of a single prompt.
    pub fn dataset_spec(&self) -> (r: Result<(DatasetSpec, PromptSource), ArgsError>)
        ensures
            dataset_result(r, *self),
    {
        let kind = match &self.dataset {
            Some(name) => ascii_lowercase(name.as_str()),
            None => if self.prompt.is_none() && self.prompt_tokens.is_some() {
                "token-budget".to_owned()
            } else {
                "literal".to_owned()
            },
        };
        if same_text(kind.as_str(), "literal") {
            let text = match &self.prompt {
                Some(p) => p.clone(),
                None =>
                    "Explain the concept of quantum entanglement in simple terms.".to_owned(),
            };
            Ok((DatasetSpec::Literal { text: text.clone() }, PromptSource::Literal { text }))
        } else if same_text(kind.as_str(), "token-budget") {
            let n: u32 = match self.prompt_tokens {
                Some(n) => n,
                None => 200,
            };
            Ok(
                (
                    DatasetSpec::TokenBudget { target_tokens: n },
                    PromptSource::TokenBudget { target_tokens: n },
                ),
            )
        } else if same_text(kind.as_str(), "built-in") || same_text(kind.as_str(), "builtin") {
            Ok((DatasetSpec::Builtin, PromptSource::Literal { text: String::new() }))
        } else if same_text(kind.as_str(), "sharegpt") {
            match &self.sharegpt_path {
                Some(path) => Ok(
                    (
                        DatasetSpec::ShareGpt { path: path.clone() },
                        PromptSource::Literal { text: String::new() },
                    ),
                ),
                None => Err(refuse("--dataset sharegpt requires --sharegpt-path")),
            }
        } else if same_text(kind.as_str(), "custom") {
            match &self.custom_path {
                Some(path) => Ok(
                    (
                        DatasetSpec::Custom { path: path.clone() },
                        PromptSource::Literal { text: String::new() },
                    ),
                ),
                None => Err(refuse("--dataset custom requires --custom-path")),
            }
        } else {
            Err(
                unknown(
                    "--dataset",
                    kind.as_str(),
                    "one of literal, token-budget, built-in, sharegpt, custom",
                ),
            )
        }
    }

    /// How prompts are picked; an unknown way is refused.
    pub fn request_strategy(&self) -> (r: Result<RequestStrategy, ArgsError>)
        ensures
            match r {
                Ok(s) => strategy_named(self.request_strategy@) == Some(s),
                Err(e) => strategy_named(self.request_strategy@) is None && e.says(
                    unknown_text(
                        "--request-strategy"@,
                        lowered(self.request_strategy@),
                        "round-robin or random"@,
                    ),
                ),
            },
    {
        let name = ascii_lowercase(self.request_strategy.as_str());
        if same_text(name.as_str(), "round-robin") || same_text(name.as_str(), "roundrobin")
            || same_text(name.as_str(), "rr") {
            Ok(RequestStrategy::RoundRobin)
        } else if same_text(name.as_str(), "random") {
            Ok(RequestStrategy::Random)
        } else {
            Err(unknown("--request-strategy", name.as_str(), "round-robin or random"))
        }
    }

    /// The configuration that these arguments ask for, with a fresh run id and
    /// the current time. `duration` is the duration as a number with a fraction,
    /// `files` are the dataset files that may be named.
    pub fn to_run_config(&self, duration: Real, files: &DatasetFiles) -> (r: Result<
        RunConfig,
        ArgsError,
    >)
        ensures
            match r {
                Ok(cfg) => config_of(cfg, *self, duration, *files),
                Err(e) => refused(e, *self, duration, *files),
            },
            r matches Ok(cfg) ==> match cfg.pattern {
                LoadPattern::Constant { rps } => {
                    &&& lowered(self.pattern@) == "constant"@
                    &&& rps == self.rps
                },
                LoadPattern::Ramp { start, end, duration_secs } => {
                    &&& lowered(self.pattern@) == "ramp"@
                    &&& self.rps_start == Some(start)
                    &&& self.rps_end == Some(end)
                    &&& duration_secs == duration
                },
                LoadPattern::Spike { baseline, spikes } => {
                    &&& lowered(self.pattern@) == "spike"@
                    &&& baseline == self.rps
                    &&& spikes@.len() == self.spike_at@.len()
                    &&& forall|i: int|
                        0 <= i < spikes@.len() ==> {
                            &&& (#[trigger] spikes@[i]).at_secs == self.spike_at@[i]
                            &&& self.spike_rps == Some(spikes@[i].rps)
                            &&& self.spike_duration == Some(spikes@[i].duration_secs)
                        }
                },
                LoadPattern::Soak { rps, checkpoint_secs } => {
                    &&& lowered(self.pattern@) == "soak"@
                    &&& rps == self.rps
                    &&& self.soak_checkpoint matches Some(n) ==> checkpoint_secs == n
                    &&& self.soak_checkpoint is None ==> checkpoint_secs == 60
                },
            },
            r matches Ok(cfg) ==> {
                &&& self.target is Some && cfg.target@ == self.target.unwrap()@
                &&& cfg.model@ == self.model@
                &&& cfg.max_tokens == self.max_tokens
                &&& cfg.duration_secs == self.duration
                &&& self.stream matches Some(b) ==> cfg.stream == b
                &&& self.stream is None ==> cfg.stream
                &&& self.concurrency matches Some(n) ==> cfg.concurrency == n
                &&& self.tag is Some <==> cfg.tag is Some
                &&& self.tag matches Some(tag) ==> cfg.tag.unwrap()@ == tag@
                &&& self.api_key is Some <==> cfg.api_key is Some
                &&& self.api_key matches Some(key) ==> cfg.api_key.unwrap()@ == trimmed(key@)
                &&& self.raw_body_file is Some <==> cfg.raw_body_file is Some
                &&& self.raw_body_file matches Some(f) ==> cfg.raw_body_file.unwrap()@ == f@
                &&& self.raw_content_type is Some <==> cfg.raw_content_type is Some
                &&& self.raw_content_type matches Some(t) ==> cfg.raw_content_type.unwrap()@ == t@
                &&& cfg.model_alias is Some <==> self.model_alias is Some && trimmed(
                    self.model_alias.unwrap()@,
                ).len() > 0
                &&& cfg.model_alias matches Some(alias) ==> alias@ == trimmed(
                    self.model_alias.unwrap()@,
                )
            },
    {
        let api = match self.api_kind() {
            Ok(api) => api,
            Err(e) => {
                return Err(e);
            },
        };
        let pattern = match self.load_pattern(duration) {
            Ok(pattern) => pattern,
            Err(e) => {
                return Err(e);
            },
        };
        let (dataset, prompt) = match self.dataset_spec() {
            Ok(d) => d,
            Err(e) => {
                proof {
                    assert(pattern_result(Ok(pattern), *self, duration));
                }
                return Err(e);
            },
        };
        proof {
            assert(pattern_result(Ok(pattern), *self, duration));
            assert(dataset_result(Ok((dataset, prompt)), *self));
        }
        let strategy = match self.request_strategy() {
            Ok(s) => s,
            Err(e) => {
                return Err(e);
            },
        };
        let target = match &self.target {
            Some(t) => t.clone(),
            None => {
                return Err(refuse("missing required --target <URL>"));
            },
        };
        let prompt_distribution = match compute_distribution(&dataset, files) {
            Ok(d) => d,
            Err(e) => {
                return Err(e);
            },
        };
        let target_rps = pattern.peak_rps();
        let concurrency: usize = match self.concurrency {
            Some(n) => n,
            None => RunConfig::default_concurrency(target_rps),
        };
        let api_key = match &self.api_key {
            Some(key) => Some(trim(key.as_str())),
            None => None,
        };
        let model_alias = match &self.model_alias {
            Some(alias) => {
                let alias = trim(alias.as_str());
                if alias.as_str().is_empty() {
                    None
                } else {
                    Some(alias)
                }
            },
            None => None,
        };
        Ok(
            RunConfig {
                run_id: make_run_id(),
                target,
                api,
                model: self.model.clone(),
                prompt,
                dataset,
                strategy,
                prompt_distribution,
                pattern,
                target_rps,
                max_tokens: self.max_tokens,
                stream: match self.stream {
                    Some(b) => b,
                    None => true,
                },
                duration_secs: self.duration,
                concurrency,
                tag: self.tag.clone(),
                api_key,
                started_at: local_time(),
                raw_body_file: self.raw_body_file.clone(),
                raw_content_type: self.raw_content_type.clone(),
                model_alias,
            },
        )
    }

    /// The components of the path under which runs are kept: the given
    /// directory, or the default one.
    pub fn history_dir(
        &self,
        on_windows: bool,
        user_profile: Option<String>,
        home: Option<String>,
    ) -> (r: Vec<String>)
        ensures
            views(r@) == (match self.output_dir {
                Some(dir) => seq![dir@],
                None => history_dir_parts(on_windows, opt_view(user_profile), opt_view(home)),
            }),
    {
        match &self.output_dir {
            Some(dir) => {
                let mut out: Vec<String> = Vec::new();
                out.push(dir.clone());
                proof {
                    assert(views(out@) =~= seq![dir@]);
                }
                out
            },
            None => default_history_dir(on_windows, user_profile, home),
        }
    }
}

/// The configuration that arguments ask for.
pub open spec fn config_of(
    cfg: RunConfig,
    args: RunArgs,
    duration: Real,
    files: DatasetFiles,
) -> bool {
    &&& exists|stamp: Seq<char>, id: u128|
        stamped(stamp) && cfg.run_id@ == #[trigger] run_id_of(stamp, id)
    &&& timed(cfg.started_at@)
    &&& opt_view(args.target) == Some(cfg.target@)
    &&& api_named(args.api@) == Some(cfg.api)
    &&& cfg.model@ == args.model@
    &&& dataset_result(Ok((cfg.dataset, cfg.prompt)), args)
    &&& strategy_named(args.request_strategy@) == Some(cfg.strategy)
    &&& distribution_result(Ok(cfg.prompt_distribution), cfg.dataset, files)
    &&& pattern_result(Ok(cfg.pattern), args, duration)
    &&& cfg.target_rps == cfg.pattern.peak()
    &&& cfg.max_tokens == args.max_tokens
    &&& cfg.stream == (args.stream != Some(false))
    &&& cfg.duration_secs == args.duration
    &&& cfg.concurrency == (match args.concurrency {
        Some(n) => n as int,
        None => concurrency_for(cfg.target_rps),
    })
    &&& opt_view(cfg.tag) == opt_view(args.tag)
    &&& opt_view(cfg.api_key) == opt_trimmed(args.api_key)
    &&& opt_view(cfg.raw_body_file) == opt_view(args.raw_body_file)
    &&& opt_view(cfg.raw_content_type) == opt_view(args.raw_content_type)
    &&& opt_view(cfg.model_alias) == (match opt_trimmed(args.model_alias) {
        Some(alias) if alias.len() > 0 => Some(alias),
        _ => None,
    })
}

/// Why arguments are refused: the first fault among the API, the pattern, the
/// dataset, the strategy, the target and the dataset's file.
pub open spec fn refused(
    e: ArgsError,
    args: RunArgs,
    duration: Real,
    files: DatasetFiles,
) -> bool {
    if api_named(args.api@) is None {
        e.says(
            unknown_text(
                "--api"@,
                lowered(args.api@),
                "one of openai, anthropic, raw, responses"@,
            ),
        )
    } else if pattern_result(Err(e), args, duration) {
        true
    } else {
        &&& exists|p: LoadPattern| #[trigger] pattern_result(Ok(p), args, duration)
        &&& {
            ||| dataset_result(Err(e), args)
            ||| exists|d: (DatasetSpec, PromptSource)| #[trigger]
                dataset_result(Ok(d), args) && later_fault(e, args, d.0, files)
        }
    }
}

/// The faults that come after the dataset was named.
pub open spec fn later_fault(
    e: ArgsError,
    args: RunArgs,
    dataset: DatasetSpec,
    files: DatasetFiles,
) -> bool {
    if strategy_named(args.request_strategy@) is None {
        e.says(
            unknown_text(
                "--request-strategy"@,
                lowered(args.request_strategy@),
                "round-robin or random"@,
            ),
        )
    } else if args.target is None {
        e.says("missing required --target <URL>"@)
    } else {
        distribution_result(Err(e), dataset, files)
    }
}

/// How a dataset file that cannot be loaded is reported.
pub open spec fn load_refusal(what: Seq<char>, fault: Seq<char>) -> Seq<char> {
    "failed to load "@ + what + " dataset: invalid configuration: "@ + fault
}

/// What [`compute_distribution`] returns.
pub open spec fn distribution_result(
    r: Result<PromptDistribution, ArgsError>,
    spec: DatasetSpec,
    files: DatasetFiles,
) -> bool {
    match spec {
        DatasetSpec::Literal { text } => r == Ok::<PromptDistribution, ArgsError>(
            single(estimated_tokens(text@)),
        ),
        DatasetSpec::TokenBudget { target_tokens } => exists|text: Seq<char>|
            {
                &&& text.len() == crate::config::filler_len(target_tokens)
                &&& forall|i: int|
                    0 <= i < text.len() ==> text[i] == #[trigger] crate::config::filler()[i % 44]
                &&& r == Ok::<PromptDistribution, ArgsError>(
                    single(#[trigger] estimated_tokens(text)),
                )
            },
        DatasetSpec::Builtin => r matches Ok(d) && exists|items: Seq<DatasetItem>| #[trigger]
            custom::plain_items(items, builtin::pool_texts()) && d.describes(estimates(items)),
        DatasetSpec::ShareGpt { path } => match r {
            Ok(d) => files.sharegpt matches Some(Ok(file)) && exists|items: Seq<DatasetItem>|
                #[trigger] custom::plain_items(items, kept_prompts(file@)) && d.describes(
                    estimates(items),
                ),
            Err(e) => sharegpt::load_fault(path@, files.sharegpt) matches Some(fault) && e.says(
                load_refusal("sharegpt"@, fault),
            ),
        },
        DatasetSpec::Custom { path } => match r {
            Ok(d) => files.custom matches Some(file) && exists|items: Seq<DatasetItem>|
                #[trigger] file_items(items, file) && d.describes(estimates(items)),
            Err(e) => exists|fault: Seq<char>| #[trigger]
                custom::load_fault(fault, path@, files.custom) && e.says(
                    load_refusal("custom"@, fault),
                ),
        },
    }
}

/// The distribution of a single prompt.
pub open spec fn single(tokens: u32) -> PromptDistribution {
    PromptDistribution { count: 1, min: tokens, max: tokens, total: tokens as u128 }
}

fn load_refused(what: &str, e: &Error) -> (r: ArgsError)
    requires
        *e is InvalidConfig,
    ensures
        r.says(load_refusal(what@, e->InvalidConfig_0@)),
{
    let mut out = "failed to load ".to_owned();
    out.push_str(what);
    out.push_str(" dataset: ");
    out.push_str(e.message().as_str());
    proof {
        reveal_strlit(" dataset: ");
        reveal_strlit("invalid configuration: ");
        reveal_strlit(" dataset: invalid configuration: ");
        assert(" dataset: invalid configuration: "@ =~= " dataset: "@
            + "invalid configuration: "@);
        assert(out@ =~= load_refusal(what@, e->InvalidConfig_0@));
    }
    ArgsError::Message(out)
}

/// The distribution of the estimated prompt lengths of a dataset.
pub fn compute_distribution(spec: &DatasetSpec, files: &DatasetFiles) -> (r: Result<
    PromptDistribution,
    ArgsError,
>)
    ensures
        distribution_result(r, *spec, *files),
{
    match spec {
        DatasetSpec::Literal { text } => Ok(
            PromptDistribution::from_single(estimate_tokens(text.as_str())),
        ),
        DatasetSpec::TokenBudget { target_tokens } => {
            let (text, tokens) = (PromptSource::TokenBudget {
                target_tokens: *target_tokens,
            }).resolve();
            proof {
                assert(tokens == estimated_tokens(text@));
            }
            Ok(PromptDistribution::from_single(tokens))
        },
        DatasetSpec::Builtin => {
            let items = builtin::builtin_pool();
            proof {
                assert(custom::plain_items(items@, builtin::pool_texts()));
            }
            Ok(distribution_of(&items))
        },
        DatasetSpec::ShareGpt { path } => match sharegpt::load(path.as_str(), &files.sharegpt) {
            Ok(items) => {
                proof {
                    assert(custom::plain_items(
                        items@,
                        kept_prompts(files.sharegpt.unwrap()->Ok_0@),
                    ));
                }
                Ok(distribution_of(&items))
            },
            Err(e) => Err(load_refused("sharegpt", &e)),
        },
        DatasetSpec::Custom { path } => match custom::load(path.as_str(), &files.custom) {
            Ok(items) => {
                proof {
                    assert(file_items(items@, files.custom.unwrap()));
                }
                Ok(distribution_of(&items))
            },
            Err(e) => {
                proof {
                    assert(custom::load_fault(e->InvalidConfig_0@, path@, files.custom));
                }
                Err(load_refused("custom", &e))
            },
        },
    }
}

pub open spec fn digit(c: char) -> bool {
    '0' <= c <= '9'
}

/// A time as `YYYYMMDD-HH-MM-SS`. All fields but the year have two digits; the
/// year has at least four characters.
pub open spec fn stamped(s: Seq<char>) -> bool {
    let n = s.len() as int;
    &&& n >= 17
    &&& s[n - 3] == '-' && s[n - 6] == '-' && s[n - 9] == '-'
    &&& forall|i: int|
        n - 13 <= i < n && i != n - 3 && i != n - 6 && i != n - 9 ==> digit(#[trigger] s[i])
}

/// A time in RFC 3339 notation whose year takes `y` characters: date, `T`, time
/// of day to the second or finer, and the offset from UTC.
pub open spec fn timed_with_year(s: Seq<char>, y: int) -> bool {
    let n = s.len() as int;
    &&& y >= 4 && n >= y + 21
    &&& s[y] == '-' && s[y + 3] == '-' && s[y + 6] == 'T' && s[y + 9] == ':' && s[y + 12] == ':'
    &&& digit(s[y + 1]) && digit(s[y + 2]) && digit(s[y + 4]) && digit(s[y + 5])
    &&& digit(s[y + 7]) && digit(s[y + 8]) && digit(s[y + 10]) && digit(s[y + 11])
    &&& digit(s[y + 13]) && digit(s[y + 14])
    &&& s[n - 6] == '+' || s[n - 6] == '-'
    &&& digit(s[n - 5]) && digit(s[n - 4]) && s[n - 3] == ':' && digit(s[n - 2]) && digit(s[n - 1])
}

/// A time in RFC 3339 notation.
pub open spec fn timed(s: Seq<char>) -> bool {
    exists|y: int| #[trigger] timed_with_year(s, y)
}

/// The local time as `chrono::Local::now` tells it, written with
/// `DateTime::format` as date, hour, minute and second: fields of two digits
/// after a year of at least four characters. Which time it is, is left unsaid.
#[verifier::external_body]
fn local_stamp() -> (r: String)
    ensures
        stamped(r@),
{
    chrono::Local::now().format("%Y%m%d-%H-%M-%S").to_string()
}

/// The local time as `chrono::Local::now` tells it, written with
/// `DateTime::to_rfc3339`: date and time of day with an offset from UTC. Which
/// time it is, is left unsaid.
#[verifier::external_body]
fn local_time() -> (r: String)
    ensures
        timed(r@),
{
    chrono::Local::now().to_rfc3339()
}

/// A run id: the local time, and six digits of a random id.
pub open spec fn run_id_of(stamp: Seq<char>, id: u128) -> Seq<char> {
    stamp + "-"@ + hex_text(id as nat, 32).take(6)
}

/// Joins a time stamp and a random id to a run id.
pub fn run_id(stamp: &str, id: u128) -> (r: String)
    ensures
        r@ == run_id_of(stamp@, id),
        r@.len() == stamp@.len() + 7,
        forall|i: int| r@.len() - 6 <= i < r@.len() ==> hex_digit(#[trigger] r@[i]),
{
    let hex = simple_string(id);
    proof {
        hex_text_holds_digits(id as nat, 32);
    }
    let chars = chars_of(hex.as_str());
    let suffix = text_between(&chars, 0, 6);
    let mut out = stamp.to_owned();
    out.push_str("-");
    out.push_str(suffix.as_str());
    proof {
        reveal_strlit("-");
        assert(hex@.subrange(0, 6) =~= hex@.take(6));
        assert forall|i: int| out@.len() - 6 <= i < out@.len() implies hex_digit(
            #[trigger] out@[i],
        ) by {
            assert(out@[i] == hex@[i - stamp@.len() - 1]);
        }
    }
    out
}

/// Runs of the same second have different ids wherever the first six digits of
/// their random ids differ.
pub proof fn ids_of_a_second_differ(stamp: Seq<char>, a: u128, b: u128)
    requires
        a as int / pow(16, 26) != b as int / pow(16, 26),
    ensures
        run_id_of(stamp, a) != run_id_of(stamp, b),
{
    let first = (a as int / pow(16, 26)) as nat;
    let second = (b as int / pow(16, 26)) as nat;
    leading_digits(a as nat, 6, 26);
    leading_digits(b as nat, 6, 26);
    lemma_pow_positive(16, 26);
    lemma_pow_adds(16, 26, 6);
    assert(u128::MAX < pow(16, 32)) by {
        reveal_with_fuel(pow, 33);
    }
    lemma_multiply_divide_lt(a as int, pow(16, 26), pow(16, 6));
    lemma_multiply_divide_lt(b as int, pow(16, 26), pow(16, 6));
    lemma_div_pos_is_pos(a as int, pow(16, 26));
    lemma_div_pos_is_pos(b as int, pow(16, 26));
    if run_id_of(stamp, a) == run_id_of(stamp, b) {
        reveal_strlit("-");
        let one = hex_text(a as nat, 32).take(6);
        let other = hex_text(b as nat, 32).take(6);
        hex_text_holds_digits(first, 6);
        hex_text_holds_digits(second, 6);
        let skipped: int = stamp.len() as int + 1;
        assert(one =~= run_id_of(stamp, a).subrange(skipped, skipped + 6));
        assert(other =~= run_id_of(stamp, b).subrange(skipped, skipped + 6));
        digits_tell_numbers_apart(first, second, 6);
    }
}

/// Makes a fresh run id, `YYYYMMDD-HH-MM-SS-XXXXXX`. The time makes it readable,
/// the random digits keep ids of the same second apart.
pub fn make_run_id() -> (r: String)
    ensures
        exists|stamp: Seq<char>, id: u128|
            stamped(stamp) && r@ == #[trigger] run_id_of(stamp, id),
        r@.len() >= 24,
        forall|i: int| r@.len() - 6 <= i < r@.len() ==> hex_digit(#[trigger] r@[i]),
{
    let stamp = local_stamp();
    let id = random_id();
    run_id(stamp.as_str(), id)
}

/// A value that is not known is refused by its flag, by itself and by what would
/// be known.
pub proof fn unknown_values_are_named(
    e: ArgsError,
    args: RunArgs,
    duration: Real,
    files: DatasetFiles,
)
    requires
        refused(e, args, duration, files),
    ensures
        api_named(args.api@) is None ==> (e matches ArgsError::Message(m) && m@
            == "unknown --api '"@ + lowered(args.api@)
            + "': expected one of openai, anthropic, raw, responses"@),
{
    if api_named(args.api@) is None {
        reveal_strlit("unknown ");
        reveal_strlit("--api");
        reveal_strlit(" '");
        reveal_strlit("unknown --api '");
        reveal_strlit("': expected ");
        reveal_strlit("one of openai, anthropic, raw, responses");
        reveal_strlit("': expected one of openai, anthropic, raw, responses");
        let low = lowered(args.api@);
        let known = "one of openai, anthropic, raw, responses"@;
        assert("unknown "@ + "--api"@ + " '"@ =~= "unknown --api '"@);
        assert("': expected "@ + known
            =~= "': expected one of openai, anthropic, raw, responses"@);
        assert(unknown_text("--api"@, low, known) =~= "unknown --api '"@ + low + ("': expected "@
            + known));
    }
}

/// The prompts of a dataset are summed up as they are: a literal by its own
/// estimate; the prompts of a file by as many counts as it gives prompts, each
/// the estimate of its prompt.
pub proof fn a_distribution_sums_up_its_prompts(
    d: PromptDistribution,
    spec: DatasetSpec,
    files: DatasetFiles,
)
    requires
        distribution_result(Ok(d), spec, files),
    ensures
        spec matches DatasetSpec::Literal { text } ==> {
            &&& d.count == 1
            &&& d.min == estimated_tokens(text@)
            &&& d.max == estimated_tokens(text@)
            &&& d.total == estimated_tokens(text@)
        },
        spec matches DatasetSpec::ShareGpt { .. } ==> (files.sharegpt matches Some(Ok(file)) && {
            let prompts = kept_prompts(file@);
            &&& d.count == prompts.len()
            &&& forall|i: int|
                0 <= i < prompts.len() ==> d.min <= estimated_tokens(#[trigger] prompts[i])
                    <= d.max
        }),
{
    if let DatasetSpec::ShareGpt { .. } = spec {
        let file = files.sharegpt.unwrap()->Ok_0;
        let prompts = kept_prompts(file@);
        let items = choose|items: Seq<DatasetItem>| #[trigger]
            custom::plain_items(items, prompts) && d.describes(estimates(items));
        assert forall|i: int| 0 <= i < prompts.len() implies d.min <= estimated_tokens(
            #[trigger] prompts[i],
        ) <= d.max by {
            assert(items[i].plain(prompts[i]));
            assert(estimates(items)[i] == items[i].estimated_prompt_tokens);
        }
    }
}

/// A target is asked for once everything else that was given is known: a run
/// without one is refused for that.
pub proof fn a_run_needs_a_target(
    e: ArgsError,
    args: RunArgs,
    duration: Real,
    files: DatasetFiles,
    pattern: LoadPattern,
    dataset: (DatasetSpec, PromptSource),
)
    requires
        refused(e, args, duration, files),
        api_named(args.api@) is Some,
        pattern_result(Ok(pattern), args, duration),
        dataset_result(Ok(dataset), args),
        strategy_named(args.request_strategy@) is Some,
        args.target is None,
    ensures
        e matches ArgsError::Message(m) && m@ == "missing required --target <URL>"@,
{
    assert(!pattern_result(Err(e), args, duration));
    assert(!dataset_result(Err(e), args));
}

/// A way to pick that is not known is refused by its name, before the target is
/// asked for.
pub proof fn unknown_strategies_are_named(
    e: ArgsError,
    args: RunArgs,
    duration: Real,
    files: DatasetFiles,
    pattern: LoadPattern,
    dataset: (DatasetSpec, PromptSource),
)
    requires
        refused(e, args, duration, files),
        api_named(args.api@) is Some,
        pattern_result(Ok(pattern), args, duration),
        dataset_result(Ok(dataset), args),
        strategy_named(args.request_strategy@) is None,
    ensures
        e matches ArgsError::Message(m) && m@ == "unknown "@ + "--request-strategy"@ + " '"@
            + lowered(args.request_strategy@) + "': expected "@ + "round-robin or random"@,
{
    assert(!pattern_result(Err(e), args, duration));
    assert(!dataset_result(Err(e), args));
}

} // verus!
