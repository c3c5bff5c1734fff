//! The configuration file, and how it is merged with the arguments.
//!
//! Arguments always win over the file. An argument counts as not given where it
//! has its default value.

use crate::binary64::Real;
use crate::cli::{dataset_kind, dataset_result, pattern_result, spikes_of, RunArgs};
use crate::config::{opt_view, DatasetSpec, LoadPattern, PromptSource};
use crate::error::Error;
use crate::text::{ascii_lowercase, lowered, same_text, trim, trimmed};
use vstd::prelude::*;

verus! {

/// The contents of a configuration file. Every field may be missing.
#[derive(Debug)]
pub struct TomlConfig {
    pub target: Option<String>,
    pub api: Option<String>,
    pub model: Option<String>,
    pub model_alias: Option<String>,
    pub rps: Option<Real>,
    pub duration: Option<u64>,
    pub max_tokens: Option<u32>,
    pub stream: Option<bool>,
    pub concurrency: Option<usize>,
    pub tag: Option<String>,
    /// The environment variable that holds the API key.
    pub api_key_env: Option<String>,
    pub pattern: Option<PatternToml>,
    pub dataset: Option<DatasetToml>,
    pub strategy: Option<String>,
    pub raw_body_file: Option<String>,
    pub raw_content_type: Option<String>,
}

impl Default for TomlConfig {
    /// Nothing is set.
    fn default() -> (r: Self)
        ensures
            r.target is None && r.api is None && r.model is None && r.model_alias is None,
            r.rps is None && r.duration is None && r.max_tokens is None && r.stream is None,
            r.concurrency is None && r.tag is None && r.api_key_env is None,
            r.pattern is None && r.dataset is None && r.strategy is None,
            r.raw_body_file is None && r.raw_content_type is None,
    {
        TomlConfig {
            target: None,
            api: None,
            model: None,
            model_alias: None,
            rps: None,
            duration: None,
            max_tokens: None,
            stream: None,
            concurrency: None,
            tag: None,
            api_key_env: None,
            pattern: None,
            dataset: None,
            strategy: None,
            raw_body_file: None,
            raw_content_type: None,
        }
    }
}

/// The load pattern of a file.
#[derive(Debug)]
pub enum PatternToml {
    Constant { rps: Option<Real> },
    /// `duration` overrides that of the file, in whole seconds.
    Ramp { start: Real, end: Real, duration: Option<u64> },
    Spike { baseline: Real, spikes: Vec<SpikeToml> },
    Soak { rps: Option<Real>, checkpoint_secs: Option<u64> },
}

impl Default for PatternToml {
    fn default() -> (r: Self)
        ensures
            r == (PatternToml::Constant { rps: None }),
    {
        PatternToml::Constant { rps: None }
    }
}

impl PatternToml {
    pub open spec fn label(self) -> Seq<char> {
        match self {
            PatternToml::Constant { .. } => "constant"@,
            PatternToml::Ramp { .. } => "ramp"@,
            PatternToml::Spike { .. } => "spike"@,
            PatternToml::Soak { .. } => "soak"@,
        }
    }

    /// The name of the pattern.
    pub fn name(&self) -> (r: &'static str)
        ensures
            r@ == self.label(),
    {
        match self {
            PatternToml::Constant { .. } => "constant",
            PatternToml::Ramp { .. } => "ramp",
            PatternToml::Spike { .. } => "spike",
            PatternToml::Soak { .. } => "soak",
        }
    }
}

/// One burst of a file.
#[derive(Debug, Clone, Copy, PartialEq, Eq, Structural)]
pub struct SpikeToml {
    pub at_secs: Real,
    pub rps: Real,
    pub duration_secs: Real,
}

/// The dataset of a file.
#[derive(Debug)]
pub enum DatasetToml {
    Literal { text: Option<String> },
    TokenBudget { target_tokens: Option<u32> },
    Builtin,
    ShareGpt { path: String },
    Custom { path: String },
}

impl DatasetToml {
    pub open spec fn label(self) -> Seq<char> {
        match self {
            DatasetToml::Literal { .. } => "literal"@,
            DatasetToml::TokenBudget { .. } => "token-budget"@,
            DatasetToml::Builtin => "built-in"@,
            DatasetToml::ShareGpt { .. } => "sharegpt"@,
            DatasetToml::Custom { .. } => "custom"@,
        }
    }

    /// The name of the dataset.
    pub fn name(&self) -> (r: &'static str)
        ensures
            r@ == self.label(),
    {
        match self {
            DatasetToml::Literal { .. } => "literal",
            DatasetToml::TokenBudget { .. } => "token-budget",
            DatasetToml::Builtin => "built-in",
            DatasetToml::ShareGpt { .. } => "sharegpt",
            DatasetToml::Custom { .. } => "custom",
        }
    }
}

/// Takes what reading and parsing a file gave: the text could not be read, it is
/// no configuration, or it is one.
pub fn load(
    path: &str,
    text_error: Option<String>,
    parsed: Result<TomlConfig, String>,
) -> (r: Result<TomlConfig, Error>)
    ensures
        match (text_error, parsed) {
            (Some(cause), _) => r matches Err(Error::Io { path: p, source }) && p@ == path@
                && source@ == cause@,
            (None, Err(cause)) => r matches Err(Error::InvalidConfig(msg)) && msg@
                == "malformed TOML in "@ + path@ + ": "@ + cause@,
            (None, Ok(cfg)) => r == Ok::<TomlConfig, Error>(cfg),
        },
{
    if let Some(cause) = text_error {
        return Err(Error::io_at(path.to_owned(), cause));
    }
    match parsed {
        Ok(cfg) => Ok(cfg),
        Err(cause) => {
            let mut msg = "malformed TOML in ".to_owned();
            msg.push_str(path);
            msg.push_str(": ");
            msg.push_str(cause.as_str());
            Err(Error::InvalidConfig(msg))
        },
    }
}

/// Where a configuration file may lie.
#[derive(Debug, Clone, Copy, PartialEq, Eq, Structural)]
pub enum ConfigPlace {
    /// `./power_test.toml`
    WorkingDirectory,
    /// `.power_test/config.toml` in the home directory
    Home,
}

/// Looks for a configuration file: first in the working directory, then in the
/// home directory. `home_exists` is `None` where no home directory is known.
pub fn find_default(cwd_exists: bool, home_exists: Option<bool>) -> (r: Option<ConfigPlace>)
    ensures
        r == (if cwd_exists {
            Some(ConfigPlace::WorkingDirectory)
        } else if home_exists == Some(true) {
            Some(ConfigPlace::Home)
        } else {
            None
        }),
{
    if cwd_exists {
        return Some(ConfigPlace::WorkingDirectory);
    }
    match home_exists {
        Some(exists) => if exists {
            Some(ConfigPlace::Home)
        } else {
            None
        },
        None => None,
    }
}

/// Ten, the default rate.
pub const TEN: u64 = 0x4024_0000_0000_0000;

/// How many steps of a binary64 number near ten fit into a billionth.
pub const BILLIONTH_STEPS: u64 = 562_949;

/// Whether a rate is the default one: less than a billionth away from ten.
pub open spec fn default_rps(rps: Real) -> bool {
    TEN - BILLIONTH_STEPS <= rps.bits <= TEN + BILLIONTH_STEPS
}

fn is_default_rps(rps: Real) -> (r: bool)
    ensures
        r == default_rps(rps),
{
    TEN - BILLIONTH_STEPS <= rps.bits && rps.bits <= TEN + BILLIONTH_STEPS
}

/// The rate that a pattern sets.
pub open spec fn pattern_rps(pattern: Option<PatternToml>) -> Option<Real> {
    match pattern {
        Some(PatternToml::Constant { rps }) => rps,
        Some(PatternToml::Spike { baseline, .. }) => Some(baseline),
        Some(PatternToml::Soak { rps, .. }) => rps,
        _ => None,
    }
}

/// The duration that a pattern sets.
pub open spec fn pattern_duration(pattern: Option<PatternToml>) -> Option<u64> {
    match pattern {
        Some(PatternToml::Ramp { duration, .. }) => duration,
        _ => None,
    }
}

/// The first of two that is there.
pub open spec fn or<T>(a: Option<T>, b: Option<T>) -> Option<T> {
    if a is Some {
        a
    } else {
        b
    }
}

/// The largest of some numbers, `None` where there is none.
pub open spec fn largest(values: Seq<Real>) -> Option<Real>
    decreases values.len(),
{
    if values.len() == 0 {
        None
    } else {
        match largest(values.drop_last()) {
            Some(top) => Some(top.larger(values.last())),
            None => Some(values.last()),
        }
    }
}

/// The times of the bursts.
pub open spec fn spike_times(spikes: Seq<SpikeToml>) -> Seq<Real> {
    spikes.map_values(|s: SpikeToml| s.at_secs)
}

/// The rates of the bursts.
pub open spec fn spike_rates(spikes: Seq<SpikeToml>) -> Seq<Real> {
    spikes.map_values(|s: SpikeToml| s.rps)
}

/// The durations of the bursts.
pub open spec fn spike_lengths(spikes: Seq<SpikeToml>) -> Seq<Real> {
    spikes.map_values(|s: SpikeToml| s.duration_secs)
}

/// What the arguments about the pattern become.
pub open spec fn pattern_merged(new: RunArgs, cli: RunArgs, pattern: Option<PatternToml>) -> bool {
    &&& new.pattern@ == (if cli.pattern@ == "constant"@ && pattern is Some {
        pattern.unwrap().label()
    } else {
        cli.pattern@
    })
    &&& new.rps_start == or(
        cli.rps_start,
        match pattern {
            Some(PatternToml::Ramp { start, .. }) => Some(start),
            _ => None,
        },
    )
    &&& new.rps_end == or(
        cli.rps_end,
        match pattern {
            Some(PatternToml::Ramp { end, .. }) => Some(end),
            _ => None,
        },
    )
    &&& new.spike_at@ == (match pattern {
        Some(PatternToml::Spike { spikes, .. }) if cli.spike_at@.len() == 0 => spike_times(spikes@),
        _ => cli.spike_at@,
    })
    &&& new.spike_rps == or(
        cli.spike_rps,
        match pattern {
            Some(PatternToml::Spike { spikes, .. }) => largest(spike_rates(spikes@)),
            _ => None,
        },
    )
    &&& new.spike_duration == or(
        cli.spike_duration,
        match pattern {
            Some(PatternToml::Spike { spikes, .. }) => largest(spike_lengths(spikes@)),
            _ => None,
        },
    )
    &&& new.soak_checkpoint == or(
        cli.soak_checkpoint,
        match pattern {
            Some(PatternToml::Soak { checkpoint_secs, .. }) => checkpoint_secs,
            _ => None,
        },
    )
}

/// Whether the arguments say what the prompts are.
pub open spec fn prompts_given(cli: RunArgs) -> bool {
    cli.dataset is Some || cli.prompt is Some || cli.prompt_tokens is Some
}

/// What the arguments about the dataset become. Where they say what the prompts
/// are, the file's dataset is left aside, but for paths that they leave open.
pub open spec fn dataset_merged(new: RunArgs, cli: RunArgs, dataset: Option<DatasetToml>) -> bool {
    let free = !prompts_given(cli);
    &&& opt_view(new.dataset) == (if free && dataset is Some {
        Some(dataset.unwrap().label())
    } else {
        opt_view(cli.dataset)
    })
    &&& opt_view(new.prompt) == (match dataset {
        Some(DatasetToml::Literal { text }) if free => opt_view(text),
        _ => opt_view(cli.prompt),
    })
    &&& new.prompt_tokens == (match dataset {
        Some(DatasetToml::TokenBudget { target_tokens }) if free => target_tokens,
        _ => cli.prompt_tokens,
    })
    &&& opt_view(new.sharegpt_path) == or(
        opt_view(cli.sharegpt_path),
        match dataset {
            Some(DatasetToml::ShareGpt { path }) => Some(path@),
            _ => None,
        },
    )
    &&& opt_view(new.custom_path) == or(
        opt_view(cli.custom_path),
        match dataset {
            Some(DatasetToml::Custom { path }) => Some(path@),
            _ => None,
        },
    )
}

/// The API key that the environment gives.
pub open spec fn env_key(base: TomlConfig, env: Option<Seq<char>>) -> Option<Seq<char>> {
    match env {
        Some(value) if base.api_key_env is Some && trimmed(value).len() > 0 => Some(
            trimmed(value),
        ),
        _ => None,
    }
}

/// What arguments become when a file is merged into them: each one that was
/// given stays, each other one is taken from the file where it has one.
pub open spec fn merged(
    new: RunArgs,
    cli: RunArgs,
    base: TomlConfig,
    env: Option<Seq<char>>,
) -> bool {
    &&& texts_merged(new, cli, base, env)
    &&& new.rps == (if default_rps(cli.rps) && or(pattern_rps(base.pattern), base.rps) is Some {
        or(pattern_rps(base.pattern), base.rps).unwrap()
    } else {
        cli.rps
    })
    &&& new.duration == (if cli.duration == 60 && or(pattern_duration(base.pattern), base.duration)
        is Some {
        or(pattern_duration(base.pattern), base.duration).unwrap()
    } else {
        cli.duration
    })
    &&& new.max_tokens == (if cli.max_tokens == 256 && base.max_tokens is Some {
        base.max_tokens.unwrap()
    } else {
        cli.max_tokens
    })
    &&& new.stream == or(cli.stream, base.stream)
    &&& new.concurrency == or(cli.concurrency, base.concurrency)
    &&& pattern_merged(new, cli, base.pattern)
    &&& dataset_merged(new, cli, base.dataset)
    &&& opt_view(new.output_dir) == opt_view(cli.output_dir)
    &&& new.tui == cli.tui
    &&& new.quiet == cli.quiet
    &&& new.print_config == cli.print_config
}

fn first_text(given: &Option<String>, other: &Option<String>) -> (r: Option<String>)
    ensures
        opt_view(r) == or(opt_view(*given), opt_view(*other)),
{
    match given {
        Some(text) => Some(text.clone()),
        None => other.clone(),
    }
}

fn text_unless(given: &String, default: &str, other: &Option<String>) -> (r: String)
    ensures
        r@ == (if given@ == default@ && other is Some {
            other.unwrap()@
        } else {
            given@
        }),
{
    if same_text(given.as_str(), default) {
        if let Some(text) = other {
            return text.clone();
        }
    }
    given.clone()
}

/// The times of bursts, and their largest rate and duration.
fn shared_spike(spikes: &Vec<SpikeToml>) -> (r: (Vec<Real>, Option<Real>, Option<Real>))
    ensures
        r.0@ == spike_times(spikes@),
        r.1 == largest(spike_rates(spikes@)),
        r.2 == largest(spike_lengths(spikes@)),
{
    let mut times: Vec<Real> = Vec::new();
    let mut rps: Option<Real> = None;
    let mut length: Option<Real> = None;
    let mut i: usize = 0;
    while i < spikes.len()
        invariant
            i <= spikes@.len(),
            times@ == spike_times(spikes@.take(i as int)),
            rps == largest(spike_rates(spikes@.take(i as int))),
            length == largest(spike_lengths(spikes@.take(i as int))),
        decreases spikes@.len() - i,
    {
        let s = spikes[i];
        proof {
            let a = spikes@.take(i as int);
            let b = spikes@.take(i + 1);
            assert(spike_times(b) =~= spike_times(a).push(s.at_secs));
            assert(spike_rates(b).drop_last() =~= spike_rates(a));
            assert(spike_lengths(b).drop_last() =~= spike_lengths(a));
            assert(spike_rates(b).last() == s.rps);
            assert(spike_lengths(b).last() == s.duration_secs);
        }
        times.push(s.at_secs);
        rps = match rps {
            Some(top) => Some(top.max(s.rps)),
            None => Some(s.rps),
        };
        length = match length {
            Some(top) => Some(top.max(s.duration_secs)),
            None => Some(s.duration_secs),
        };
        i += 1;
    }
    proof {
        assert(spikes@.take(i as int) =~= spikes@);
    }
    (times, rps, length)
}

/// Merges the pattern of a file into the arguments about it. The rate and the
/// duration are merged elsewhere.
fn apply_pattern(pattern: &PatternToml, cli: &mut RunArgs)
    ensures
        pattern_merged(*final(cli), *old(cli), Some(*pattern)),
        *final(cli) == (RunArgs {
            pattern: final(cli).pattern,
            rps_start: final(cli).rps_start,
            rps_end: final(cli).rps_end,
            spike_at: final(cli).spike_at,
            spike_rps: final(cli).spike_rps,
            spike_duration: final(cli).spike_duration,
            soak_checkpoint: final(cli).soak_checkpoint,
            ..*old(cli)
        }),
{
    if same_text(cli.pattern.as_str(), "constant") {
        cli.pattern = pattern.name().to_owned();
    }
    match pattern {
        PatternToml::Constant { .. } => {},
        PatternToml::Ramp { start, end, .. } => {
            if cli.rps_start.is_none() {
                cli.rps_start = Some(*start);
            }
            if cli.rps_end.is_none() {
                cli.rps_end = Some(*end);
            }
        },
        PatternToml::Spike { spikes, .. } => {
            let (times, rps, length) = shared_spike(spikes);
            if cli.spike_at.len() == 0 {
                cli.spike_at = times;
            }
            if cli.spike_rps.is_none() {
                cli.spike_rps = rps;
            }
            if cli.spike_duration.is_none() {
                cli.spike_duration = length;
            }
        },
        PatternToml::Soak { checkpoint_secs, .. } => {
            if cli.soak_checkpoint.is_none() {
                cli.soak_checkpoint = *checkpoint_secs;
            }
        },
    }
}

/// Merges the dataset of a file into the arguments about it.
fn apply_dataset(dataset: &DatasetToml, cli: &mut RunArgs)
    ensures
        dataset_merged(*final(cli), *old(cli), Some(*dataset)),
        *final(cli) == (RunArgs {
            dataset: final(cli).dataset,
            prompt: final(cli).prompt,
            prompt_tokens: final(cli).prompt_tokens,
            sharegpt_path: final(cli).sharegpt_path,
            custom_path: final(cli).custom_path,
            ..*old(cli)
        }),
{
    let free = cli.dataset.is_none() && cli.prompt.is_none() && cli.prompt_tokens.is_none();
    if free {
        cli.dataset = Some(dataset.name().to_owned());
    }
    match dataset {
        DatasetToml::Literal { text } => {
            if free {
                cli.prompt = text.clone();
            }
        },
        DatasetToml::TokenBudget { target_tokens } => {
            if free {
                cli.prompt_tokens = *target_tokens;
            }
        },
        DatasetToml::Builtin => {},
        DatasetToml::ShareGpt { path } => {
            if cli.sharegpt_path.is_none() {
                cli.sharegpt_path = Some(path.clone());
            }
        },
        DatasetToml::Custom { path } => {
            if cli.custom_path.is_none() {
                cli.custom_path = Some(path.clone());
            }
        },
    }
}

/// The rate and the duration that a pattern sets.
fn pattern_numbers(pattern: &Option<PatternToml>) -> (r: (Option<Real>, Option<u64>))
    ensures
        r.0 == pattern_rps(*pattern),
        r.1 == pattern_duration(*pattern),
{
    match pattern {
        Some(PatternToml::Constant { rps }) => (*rps, None),
        Some(PatternToml::Ramp { duration, .. }) => (None, *duration),
        Some(PatternToml::Spike { baseline, .. }) => (Some(*baseline), None),
        Some(PatternToml::Soak { rps, .. }) => (*rps, None),
        None => (None, None),
    }
}

/// Merges the numbers of a file.
fn merge_numbers(base: &TomlConfig, cli: &mut RunArgs)
    ensures
        *final(cli) == (RunArgs {
            rps: (if default_rps(old(cli).rps) && or(pattern_rps(base.pattern), base.rps) is Some {
                or(pattern_rps(base.pattern), base.rps).unwrap()
            } else {
                old(cli).rps
            }),
            duration: (if old(cli).duration == 60 && or(
                pattern_duration(base.pattern),
                base.duration,
            ) is Some {
                or(pattern_duration(base.pattern), base.duration).unwrap()
            } else {
                old(cli).duration
            }),
            max_tokens: (if old(cli).max_tokens == 256 && base.max_tokens is Some {
                base.max_tokens.unwrap()
            } else {
                old(cli).max_tokens
            }),
            stream: or(old(cli).stream, base.stream),
            concurrency: or(old(cli).concurrency, base.concurrency),
            ..*old(cli)
        }),
{
    let (rps, duration) = pattern_numbers(&base.pattern);
    if is_default_rps(cli.rps) {
        if let Some(r) = rps {
            cli.rps = r;
        } else if let Some(r) = base.rps {
            cli.rps = r;
        }
    }
    if cli.duration == 60 {
        if let Some(d) = duration {
            cli.duration = d;
        } else if let Some(d) = base.duration {
            cli.duration = d;
        }
    }
    if cli.max_tokens == 256 {
        if let Some(m) = base.max_tokens {
            cli.max_tokens = m;
        }
    }
    if cli.stream.is_none() {
        cli.stream = base.stream;
    }
    if cli.concurrency.is_none() {
        cli.concurrency = base.concurrency;
    }
}

/// The API key: the given one, or that of the environment.
fn merge_key(base: &TomlConfig, given: &Option<String>, env_value: &Option<String>) -> (r: Option<
    String,
>)
    ensures
        opt_view(r) == or(opt_view(*given), env_key(*base, opt_view(*env_value))),
{
    if given.is_none() && base.api_key_env.is_some() {
        if let Some(value) = env_value {
            let key = trim(value.as_str());
            if !key.as_str().is_empty() {
                return Some(key);
            }
        }
    }
    given.clone()
}

/// What the arguments about texts become.
pub open spec fn texts_merged(
    new: RunArgs,
    cli: RunArgs,
    base: TomlConfig,
    env: Option<Seq<char>>,
) -> bool {
    &&& opt_view(new.target) == or(opt_view(cli.target), opt_view(base.target))
    &&& new.api@ == (if cli.api@ == "openai"@ && base.api is Some {
        base.api.unwrap()@
    } else {
        cli.api@
    })
    &&& new.model@ == (if cli.model@ == "gpt-3.5-turbo"@ && base.model is Some {
        base.model.unwrap()@
    } else {
        cli.model@
    })
    &&& opt_view(new.model_alias) == or(opt_view(cli.model_alias), opt_view(base.model_alias))
    &&& opt_view(new.tag) == or(opt_view(cli.tag), opt_view(base.tag))
    &&& opt_view(new.api_key) == or(opt_view(cli.api_key), env_key(base, env))
    &&& new.request_strategy@ == (if cli.request_strategy@ == "random"@ && base.strategy is Some {
        base.strategy.unwrap()@
    } else {
        cli.request_strategy@
    })
    &&& opt_view(new.raw_body_file) == or(
        opt_view(cli.raw_body_file),
        opt_view(base.raw_body_file),
    )
    &&& opt_view(new.raw_content_type) == or(
        opt_view(cli.raw_content_type),
        opt_view(base.raw_content_type),
    )
}

/// Merges the texts of a file.
fn merge_texts(base: &TomlConfig, cli: &mut RunArgs, env_value: &Option<String>)
    ensures
        texts_merged(*final(cli), *old(cli), *base, opt_view(*env_value)),
        *final(cli) == (RunArgs {
            target: final(cli).target,
            api: final(cli).api,
            model: final(cli).model,
            model_alias: final(cli).model_alias,
            tag: final(cli).tag,
            api_key: final(cli).api_key,
            request_strategy: final(cli).request_strategy,
            raw_body_file: final(cli).raw_body_file,
            raw_content_type: final(cli).raw_content_type,
            ..*old(cli)
        }),
{
    let target = first_text(&cli.target, &base.target);
    let api = text_unless(&cli.api, "openai", &base.api);
    let model = text_unless(&cli.model, "gpt-3.5-turbo", &base.model);
    let model_alias = first_text(&cli.model_alias, &base.model_alias);
    let tag = first_text(&cli.tag, &base.tag);
    let api_key = merge_key(base, &cli.api_key, env_value);
    let strategy = text_unless(&cli.request_strategy, "random", &base.strategy);
    let raw_body_file = first_text(&cli.raw_body_file, &base.raw_body_file);
    let raw_content_type = first_text(&cli.raw_content_type, &base.raw_content_type);
    cli.target = target;
    cli.api = api;
    cli.model = model;
    cli.model_alias = model_alias;
    cli.tag = tag;
    cli.api_key = api_key;
    cli.request_strategy = strategy;
    cli.raw_body_file = raw_body_file;
    cli.raw_content_type = raw_content_type;
}

/// Merges a file into the arguments; what was given as an argument stays.
/// `env_value` is the value of the environment variable that the file names,
/// where it is set.
pub fn merge_into_run_args(base: &TomlConfig, cli: &mut RunArgs, env_value: &Option<String>)
    ensures
        merged(*final(cli), *old(cli), *base, opt_view(*env_value)),
{
    merge_texts(base, cli, env_value);
    merge_numbers(base, cli);
    if let Some(pattern) = &base.pattern {
        apply_pattern(pattern, cli);
    }
    if let Some(dataset) = &base.dataset {
        apply_dataset(dataset, cli);
    }
}

/// Arguments always win over the file: each argument that was given stays as it
/// was.
pub proof fn arguments_always_win(
    new: RunArgs,
    cli: RunArgs,
    base: TomlConfig,
    env: Option<Seq<char>>,
)
    requires
        merged(new, cli, base, env),
    ensures
        cli.target is Some ==> opt_view(new.target) == opt_view(cli.target),
        cli.api@ != "openai"@ ==> new.api@ == cli.api@,
        cli.model@ != "gpt-3.5-turbo"@ ==> new.model@ == cli.model@,
        cli.model_alias is Some ==> opt_view(new.model_alias) == opt_view(cli.model_alias),
        !default_rps(cli.rps) ==> new.rps == cli.rps,
        cli.duration != 60 ==> new.duration == cli.duration,
        cli.max_tokens != 256 ==> new.max_tokens == cli.max_tokens,
        cli.stream is Some ==> new.stream == cli.stream,
        cli.concurrency is Some ==> new.concurrency == cli.concurrency,
        cli.tag is Some ==> opt_view(new.tag) == opt_view(cli.tag),
        cli.api_key is Some ==> opt_view(new.api_key) == opt_view(cli.api_key),
        cli.pattern@ != "constant"@ ==> new.pattern@ == cli.pattern@,
        cli.rps_start is Some ==> new.rps_start == cli.rps_start,
        cli.rps_end is Some ==> new.rps_end == cli.rps_end,
        cli.spike_at@.len() > 0 ==> new.spike_at@ == cli.spike_at@,
        cli.spike_rps is Some ==> new.spike_rps == cli.spike_rps,
        cli.spike_duration is Some ==> new.spike_duration == cli.spike_duration,
        cli.soak_checkpoint is Some ==> new.soak_checkpoint == cli.soak_checkpoint,
        prompts_given(cli) ==> opt_view(new.dataset) == opt_view(cli.dataset) && opt_view(
            new.prompt,
        ) == opt_view(cli.prompt) && new.prompt_tokens == cli.prompt_tokens,
        cli.sharegpt_path is Some ==> opt_view(new.sharegpt_path) == opt_view(cli.sharegpt_path),
        cli.custom_path is Some ==> opt_view(new.custom_path) == opt_view(cli.custom_path),
        cli.request_strategy@ != "random"@ ==> new.request_strategy@ == cli.request_strategy@,
        cli.raw_body_file is Some ==> opt_view(new.raw_body_file) == opt_view(cli.raw_body_file),
        cli.raw_content_type is Some ==> opt_view(new.raw_content_type) == opt_view(
            cli.raw_content_type,
        ),
{
}

/// The bursts that arguments ask for.
pub open spec fn printed_spikes(cli: RunArgs) -> Seq<SpikeToml> {
    cli.spike_at@.map_values(
        |at: Real|
            SpikeToml {
                at_secs: at,
                rps: or_zero(cli.spike_rps),
                duration_secs: or_zero(cli.spike_duration),
            },
    )
}

pub open spec fn or_zero(x: Option<Real>) -> Real {
    match x {
        Some(x) => x,
        None => Real { bits: 0 },
    }
}

fn real_or_zero(x: Option<Real>) -> (r: Real)
    ensures
        r == or_zero(x),
{
    match x {
        Some(x) => x,
        None => Real { bits: 0 },
    }
}

/// The pattern that arguments ask for; a name that is not known counts as
/// `constant`.
pub open spec fn printed_pattern(p: PatternToml, cli: RunArgs) -> bool {
    let kind = lowered(cli.pattern@);
    if kind == "ramp"@ {
        p == (PatternToml::Ramp {
            start: or_zero(cli.rps_start),
            end: or_zero(cli.rps_end),
            duration: Some(cli.duration),
        })
    } else if kind == "spike"@ {
        p matches PatternToml::Spike { baseline, spikes } && baseline == cli.rps && spikes@
            == printed_spikes(cli)
    } else if kind == "soak"@ {
        p == (PatternToml::Soak { rps: Some(cli.rps), checkpoint_secs: cli.soak_checkpoint })
    } else {
        p == (PatternToml::Constant { rps: Some(cli.rps) })
    }
}

fn args_to_pattern(cli: &RunArgs) -> (r: PatternToml)
    ensures
        printed_pattern(r, *cli),
{
    let kind = ascii_lowercase(cli.pattern.as_str());
    if same_text(kind.as_str(), "ramp") {
        PatternToml::Ramp {
            start: real_or_zero(cli.rps_start),
            end: real_or_zero(cli.rps_end),
            duration: Some(cli.duration),
        }
    } else if same_text(kind.as_str(), "spike") {
        let mut spikes: Vec<SpikeToml> = Vec::new();
        let mut i: usize = 0;
        while i < cli.spike_at.len()
            invariant
                i <= cli.spike_at@.len(),
                spikes@ == printed_spikes(*cli).take(i as int),
            decreases cli.spike_at@.len() - i,
        {
            spikes.push(
                SpikeToml {
                    at_secs: cli.spike_at[i],
                    rps: real_or_zero(cli.spike_rps),
                    duration_secs: real_or_zero(cli.spike_duration),
                },
            );
            proof {
                assert(spikes@ =~= printed_spikes(*cli).take(i + 1));
            }
            i += 1;
        }
        proof {
            assert(spikes@ =~= printed_spikes(*cli));
        }
        PatternToml::Spike { baseline: cli.rps, spikes }
    } else if same_text(kind.as_str(), "soak") {
        PatternToml::Soak { rps: Some(cli.rps), checkpoint_secs: cli.soak_checkpoint }
    } else {
        PatternToml::Constant { rps: Some(cli.rps) }
    }
}

/// The dataset that arguments ask for, by name or by the prompt flags; a name
/// that is not known counts as `literal`.
pub open spec fn printed_dataset(d: DatasetToml, cli: RunArgs) -> bool {
    let kind = dataset_kind(cli);
    if kind == "token-budget"@ {
        d == (DatasetToml::TokenBudget { target_tokens: cli.prompt_tokens })
    } else if kind == "built-in"@ || kind == "builtin"@ {
        d == DatasetToml::Builtin
    } else if kind == "sharegpt"@ {
        d matches DatasetToml::ShareGpt { path } && path@ == (match cli.sharegpt_path {
            Some(p) => p@,
            None => "sharegpt.json"@,
        })
    } else if kind == "custom"@ {
        d matches DatasetToml::Custom { path } && path@ == (match cli.custom_path {
            Some(p) => p@,
            None => "prompts.jsonl"@,
        })
    } else {
        d matches DatasetToml::Literal { text } && opt_view(text) == opt_view(cli.prompt)
    }
}

fn path_or(path: &Option<String>, default: &str) -> (r: String)
    ensures
        r@ == (match path {
            Some(p) => p@,
            None => default@,
        }),
{
    match path {
        Some(p) => p.clone(),
        None => default.to_owned(),
    }
}

fn args_to_dataset(cli: &RunArgs) -> (r: DatasetToml)
    ensures
        printed_dataset(r, *cli),
{
    let name = match &cli.dataset {
        Some(name) => ascii_lowercase(name.as_str()),
        None => if cli.prompt.is_none() && cli.prompt_tokens.is_some() {
            "token-budget".to_owned()
        } else {
            "literal".to_owned()
        },
    };
    let kind = name.as_str();
    if same_text(kind, "token-budget") {
        DatasetToml::TokenBudget { target_tokens: cli.prompt_tokens }
    } else if same_text(kind, "built-in") || same_text(kind, "builtin") {
        DatasetToml::Builtin
    } else if same_text(kind, "sharegpt") {
        DatasetToml::ShareGpt { path: path_or(&cli.sharegpt_path, "sharegpt.json") }
    } else if same_text(kind, "custom") {
        DatasetToml::Custom { path: path_or(&cli.custom_path, "prompts.jsonl") }
    } else {
        DatasetToml::Literal { text: cli.prompt.clone() }
    }
}

/// The file that stands for some arguments. The API key is not written.
pub open spec fn printed(cfg: TomlConfig, cli: RunArgs) -> bool {
    &&& opt_view(cfg.target) == opt_view(cli.target)
    &&& opt_view(cfg.api) == Some(cli.api@)
    &&& opt_view(cfg.model) == Some(cli.model@)
    &&& opt_view(cfg.model_alias) == opt_view(cli.model_alias)
    &&& cfg.rps == Some(cli.rps)
    &&& cfg.duration == Some(cli.duration)
    &&& cfg.max_tokens == Some(cli.max_tokens)
    &&& cfg.stream == cli.stream
    &&& cfg.concurrency == cli.concurrency
    &&& opt_view(cfg.tag) == opt_view(cli.tag)
    &&& cfg.api_key_env is None
    &&& cfg.pattern matches Some(p) && printed_pattern(p, cli)
    &&& cfg.dataset matches Some(d) && printed_dataset(d, cli)
    &&& opt_view(cfg.strategy) == Some(cli.request_strategy@)
    &&& opt_view(cfg.raw_body_file) == opt_view(cli.raw_body_file)
    &&& opt_view(cfg.raw_content_type) == opt_view(cli.raw_content_type)
}

/// The file that would reproduce a run with these arguments.
pub fn print_config(cli: &RunArgs) -> (r: TomlConfig)
    ensures
        printed(r, *cli),
{
    TomlConfig {
        target: cli.target.clone(),
        api: Some(cli.api.clone()),
        model: Some(cli.model.clone()),
        model_alias: cli.model_alias.clone(),
        rps: Some(cli.rps),
        duration: Some(cli.duration),
        max_tokens: Some(cli.max_tokens),
        stream: cli.stream,
        concurrency: cli.concurrency,
        tag: cli.tag.clone(),
        api_key_env: None,
        pattern: Some(args_to_pattern(cli)),
        dataset: Some(args_to_dataset(cli)),
        strategy: Some(cli.request_strategy.clone()),
        raw_body_file: cli.raw_body_file.clone(),
        raw_content_type: cli.raw_content_type.clone(),
    }
}

/// Arguments of which none was given.
pub open spec fn nothing_given(cli: RunArgs) -> bool {
    &&& cli.target is None && cli.api@ == "openai"@ && cli.model@ == "gpt-3.5-turbo"@
    &&& cli.model_alias is None && default_rps(cli.rps) && cli.duration == 60
    &&& cli.max_tokens == 256 && cli.stream is None && cli.concurrency is None && cli.tag is None
    &&& cli.api_key is None && cli.pattern@ == "constant"@
    &&& cli.rps_start is None && cli.rps_end is None && cli.spike_at@.len() == 0
    &&& cli.spike_rps is None && cli.spike_duration is None && cli.soak_checkpoint is None
    &&& cli.dataset is None && cli.prompt is None && cli.prompt_tokens is None
    &&& cli.sharegpt_path is None && cli.custom_path is None
    &&& cli.request_strategy@ == "random"@
    &&& cli.raw_body_file is None && cli.raw_content_type is None
}

proof fn largest_of_equal(values: Seq<Real>, x: Real)
    requires
        values.len() > 0,
        forall|i: int| 0 <= i < values.len() ==> #[trigger] values[i] == x,
    ensures
        largest(values) == Some(x),
    decreases values.len(),
{
    if values.len() > 1 {
        largest_of_equal(values.drop_last(), x);
    } else {
        assert(largest(values.drop_last()) is None);
    }
    assert(values.last() == x);
}

/// The patterns and datasets have different names, all in lower case.
proof fn names_differ()
    ensures
        "constant"@ != "ramp"@ && "constant"@ != "spike"@ && "constant"@ != "soak"@,
        "ramp"@ != "spike"@ && "ramp"@ != "soak"@ && "spike"@ != "soak"@,
        "literal"@ != "token-budget"@ && "literal"@ != "built-in"@ && "literal"@ != "builtin"@,
        "literal"@ != "sharegpt"@ && "literal"@ != "custom"@,
        "token-budget"@ != "built-in"@ && "token-budget"@ != "builtin"@,
        "token-budget"@ != "sharegpt"@ && "token-budget"@ != "custom"@,
        "built-in"@ != "sharegpt"@ && "built-in"@ != "custom"@,
        "builtin"@ != "sharegpt"@ && "builtin"@ != "custom"@ && "sharegpt"@ != "custom"@,
        lowered("constant"@) == "constant"@ && lowered("ramp"@) == "ramp"@,
        lowered("spike"@) == "spike"@ && lowered("soak"@) == "soak"@,
        lowered("literal"@) == "literal"@ && lowered("token-budget"@) == "token-budget"@,
        lowered("built-in"@) == "built-in"@ && lowered("sharegpt"@) == "sharegpt"@,
        lowered("custom"@) == "custom"@,
{
    reveal_strlit("constant");
    reveal_strlit("ramp");
    reveal_strlit("spike");
    reveal_strlit("soak");
    reveal_strlit("literal");
    reveal_strlit("token-budget");
    reveal_strlit("built-in");
    reveal_strlit("builtin");
    reveal_strlit("sharegpt");
    reveal_strlit("custom");
    assert("constant"@.len() == 8 && "ramp"@.len() == 4 && "spike"@.len() == 5);
    assert("ramp"@[0] == 'r' && "soak"@[0] == 's');
    assert("literal"@.len() == 7 && "builtin"@.len() == 7 && "literal"@[0] == 'l');
    assert("builtin"@[0] == 'b' && "sharegpt"@[0] == 's' && "built-in"@[0] == 'b');
    assert("token-budget"@.len() == 12 && "custom"@.len() == 6);
    assert(lowered("constant"@) =~= "constant"@);
    assert(lowered("ramp"@) =~= "ramp"@);
    assert(lowered("spike"@) =~= "spike"@);
    assert(lowered("soak"@) =~= "soak"@);
    assert(lowered("literal"@) =~= "literal"@);
    assert(lowered("token-budget"@) =~= "token-budget"@);
    assert(lowered("built-in"@) =~= "built-in"@);
    assert(lowered("sharegpt"@) =~= "sharegpt"@);
    assert(lowered("custom"@) =~= "custom"@);
}

/// The printed file reproduces the run: for all arguments that a run accepts,
/// merging the file into arguments of which none was given leads to the same
/// pattern, the same dataset and the same prompt, and gives back everything else
/// that the run depends on, but for the API key, which is never written.
pub proof fn the_printed_file_reproduces_the_run(
    cli: RunArgs,
    cfg: TomlConfig,
    fresh: RunArgs,
    new: RunArgs,
    env: Option<Seq<char>>,
    duration: Real,
    pattern: LoadPattern,
    dataset: DatasetSpec,
    prompt: PromptSource,
)
    requires
        pattern_result(Ok(pattern), cli, duration),
        dataset_result(Ok((dataset, prompt)), cli),
        printed(cfg, cli),
        nothing_given(fresh),
        merged(new, fresh, cfg, env),
    ensures
        pattern_result(Ok(pattern), new, duration),
        dataset_result(Ok((dataset, prompt)), new),
        opt_view(new.target) == opt_view(cli.target),
        new.api@ == cli.api@,
        new.model@ == cli.model@,
        opt_view(new.model_alias) == opt_view(cli.model_alias),
        new.rps == cli.rps,
        new.duration == cli.duration,
        new.max_tokens == cli.max_tokens,
        new.stream == cli.stream,
        new.concurrency == cli.concurrency,
        opt_view(new.tag) == opt_view(cli.tag),
        new.request_strategy@ == cli.request_strategy@,
        opt_view(new.raw_body_file) == opt_view(cli.raw_body_file),
        opt_view(new.raw_content_type) == opt_view(cli.raw_content_type),
{
    names_differ();
    if lowered(cli.pattern@) == "spike"@ {
        let spikes = printed_spikes(cli);
        assert(spike_times(spikes) =~= cli.spike_at@);
        largest_of_equal(spike_rates(spikes), cli.spike_rps.unwrap());
        largest_of_equal(spike_lengths(spikes), cli.spike_duration.unwrap());
        assert(spikes_of(new) =~= spikes_of(cli));
    }
}

/// The file fills in what was not given as an argument, each argument from its
/// own entry; without an entry the argument keeps its default. A rate and a
/// duration that belong to the pattern of the file count before those of the
/// file itself.
pub proof fn the_file_fills_what_was_not_given(
    new: RunArgs,
    cli: RunArgs,
    base: TomlConfig,
    env: Option<Seq<char>>,
)
    requires
        merged(new, cli, base, env),
        nothing_given(cli),
    ensures
        base.target matches Some(x) ==> new.target is Some && new.target.unwrap()@ == x@,
        base.target is None ==> new.target is None,
        base.api matches Some(x) ==> new.api@ == x@,
        base.model matches Some(x) ==> new.model@ == x@,
        base.model_alias matches Some(x) ==> new.model_alias is Some
            && new.model_alias.unwrap()@ == x@,
        base.tag matches Some(x) ==> new.tag is Some && new.tag.unwrap()@ == x@,
        base.strategy matches Some(x) ==> new.request_strategy@ == x@,
        base.raw_body_file matches Some(x) ==> new.raw_body_file is Some
            && new.raw_body_file.unwrap()@ == x@,
        base.raw_content_type matches Some(x) ==> new.raw_content_type is Some
            && new.raw_content_type.unwrap()@ == x@,
        base.max_tokens matches Some(n) ==> new.max_tokens == n,
        base.max_tokens is None ==> new.max_tokens == 256,
        new.stream == base.stream,
        new.concurrency == base.concurrency,
        base.pattern is None ==> {
            &&& new.pattern@ == "constant"@
            &&& base.rps matches Some(x) ==> new.rps == x
            &&& base.rps is None ==> new.rps == cli.rps
            &&& base.duration matches Some(n) ==> new.duration == n
            &&& base.duration is None ==> new.duration == 60
        },
        base.pattern matches Some(PatternToml::Constant { rps }) ==> {
            &&& new.pattern@ == "constant"@
            &&& rps matches Some(x) ==> new.rps == x
            &&& rps is None && base.rps is Some ==> new.rps == base.rps.unwrap()
        },
        base.pattern matches Some(PatternToml::Ramp { start, end, duration }) ==> {
            &&& new.pattern@ == "ramp"@
            &&& new.rps_start == Some(start)
            &&& new.rps_end == Some(end)
            &&& duration matches Some(n) ==> new.duration == n
            &&& duration is None && base.duration is Some ==> new.duration
                == base.duration.unwrap()
        },
        base.pattern matches Some(PatternToml::Spike { baseline, spikes }) ==> {
            &&& new.pattern@ == "spike"@
            &&& new.rps == baseline
            &&& new.spike_at@.len() == spikes@.len()
            &&& forall|i: int|
                0 <= i < spikes@.len() ==> #[trigger] new.spike_at@[i] == spikes@[i].at_secs
            &&& spikes@.len() == 1 ==> new.spike_rps == Some(spikes@[0].rps)
                && new.spike_duration == Some(spikes@[0].duration_secs)
        },
        base.pattern matches Some(PatternToml::Soak { rps, checkpoint_secs }) ==> {
            &&& new.pattern@ == "soak"@
            &&& rps matches Some(x) ==> new.rps == x
            &&& new.soak_checkpoint == checkpoint_secs
        },
        base.dataset matches Some(DatasetToml::Literal { text }) ==> {
            &&& new.dataset is Some && new.dataset.unwrap()@ == "literal"@
            &&& text matches Some(t) ==> new.prompt is Some && new.prompt.unwrap()@ == t@
        },
        base.dataset matches Some(DatasetToml::TokenBudget { target_tokens }) ==> {
            &&& new.dataset is Some && new.dataset.unwrap()@ == "token-budget"@
            &&& new.prompt_tokens == target_tokens
        },
        base.dataset matches Some(DatasetToml::Builtin) ==> new.dataset is Some
            && new.dataset.unwrap()@ == "built-in"@,
        base.dataset matches Some(DatasetToml::ShareGpt { path }) ==> {
            &&& new.dataset is Some && new.dataset.unwrap()@ == "sharegpt"@
            &&& new.sharegpt_path is Some && new.sharegpt_path.unwrap()@ == path@
        },
        base.dataset matches Some(DatasetToml::Custom { path }) ==> {
            &&& new.dataset is Some && new.dataset.unwrap()@ == "custom"@
            &&& new.custom_path is Some && new.custom_path.unwrap()@ == path@
        },
{
    reveal_with_fuel(largest, 2);
    if let Some(PatternToml::Spike { baseline, spikes }) = base.pattern {
        assert(spike_times(spikes@).len() == spikes@.len());
        assert forall|i: int| 0 <= i < spikes@.len() implies #[trigger] new.spike_at@[i]
            == spikes@[i].at_secs by {
            assert(spike_times(spikes@)[i] == spikes@[i].at_secs);
        }
        if spikes@.len() == 1 {
            assert(spike_rates(spikes@).drop_last() =~= Seq::empty());
            assert(spike_lengths(spikes@).drop_last() =~= Seq::empty());
            assert(spike_rates(spikes@).last() == spikes@[0].rps);
            assert(spike_lengths(spikes@).last() == spikes@[0].duration_secs);
        }
    }
}

/// The bursts of a file share the largest of their rates and the largest of
/// their lengths: one of them has it, and none has a larger one.
pub proof fn the_largest_is_reached(values: Seq<Real>)
    ensures
        values.len() == 0 ==> largest(values) is None,
        values.len() > 0 ==> {
            &&& largest(values) matches Some(top) && values.contains(top)
            &&& (forall|i: int| 0 <= i < values.len() ==> !(#[trigger] values[i]).nan()) ==> {
                &&& !largest(values).unwrap().nan()
                &&& forall|i: int|
                    0 <= i < values.len() ==> (#[trigger] values[i]).rank() <= largest(
                        values,
                    ).unwrap().rank()
            }
        },
    decreases values.len(),
{
    if values.len() > 0 {
        let rest = values.drop_last();
        the_largest_is_reached(rest);
        let n = values.len() - 1;
        assert(values[n] == values.last());
        if rest.len() > 0 {
            let top = largest(rest).unwrap();
            let k = rest.index_of(top);
            assert(rest.contains(top));
            assert(values[k] == top);
            if forall|i: int| 0 <= i < values.len() ==> !(#[trigger] values[i]).nan() {
                assert forall|i: int| 0 <= i < rest.len() implies !(#[trigger] rest[i]).nan() by {
                    assert(rest[i] == values[i]);
                }
                assert forall|i: int| 0 <= i < values.len() implies (#[trigger] values[i]).rank()
                    <= largest(values).unwrap().rank() by {
                    if i < n {
                        assert(rest[i] == values[i]);
                    }
                }
            }
        }
    }
}

/// A key that was not given comes from the variable that the file names, without
/// the space around it; a variable that is not set or blank gives none, and
/// without a name in the file none is read.
pub proof fn the_key_comes_from_the_named_variable(
    new: RunArgs,
    cli: RunArgs,
    base: TomlConfig,
    env: Option<Seq<char>>,
)
    requires
        merged(new, cli, base, env),
        cli.api_key is None,
    ensures
        base.api_key_env is Some ==> (env matches Some(value) ==> (trimmed(value).len() > 0
            ==> new.api_key is Some && new.api_key.unwrap()@ == trimmed(value))),
        base.api_key_env is None ==> new.api_key is None,
        env is None || trimmed(env.unwrap()).len() == 0 ==> new.api_key is None,
{
}

/// A rate counts as given unless it is the default, ten, or lies within a
/// billionth of it.
pub proof fn ten_is_the_default_rate(rps: Real)
    ensures
        default_rps(Real { bits: 0x4024_0000_0000_0000 }),
        rps.bits > 0x4024_0000_0000_0000 + 562_949 ==> !default_rps(rps),
        rps.bits < 0x4024_0000_0000_0000 - 562_949 ==> !default_rps(rps),
{
}

} // verus!
