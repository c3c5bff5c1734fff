//! Numbers of a report that were already written out as text, because they have
//! a fraction.

use super::data::ReportNumbers;
use crate::text::{decimal, decimal_text};
use vstd::prelude::*;

verus! {

/// One spike with its numbers written out.
#[derive(Debug)]
pub struct SpikeFigures {
    pub at_secs: String,
    pub rps: String,
    pub duration_secs: String,
}

/// A load pattern with its numbers written out.
#[derive(Debug)]
pub enum PatternFigures {
    Constant { rps: String },
    Ramp { start: String, end: String, duration_secs: String },
    Spike { baseline: String, spikes: Vec<SpikeFigures> },
    Soak { rps: String, checkpoint_secs: u64 },
}

/// The spikes one after another.
pub open spec fn spikes_text(spikes: Seq<SpikeFigures>) -> Seq<char>
    decreases spikes.len(),
{
    if spikes.len() == 0 {
        Seq::empty()
    } else {
        let last = spikes.last();
        spikes_text(spikes.drop_last()) + " t="@ + last.at_secs@ + "s@"@ + last.rps@ + "rps/"@
            + last.duration_secs@ + "s"@
    }
}

impl PatternFigures {
    /// A short description of the pattern.
    pub open spec fn detail(self) -> Seq<char> {
        match self {
            PatternFigures::Constant { rps } => rps@ + " rps"@,
            PatternFigures::Ramp { start, end, duration_secs } => start@ + " → "@ + end@
                + " rps over "@ + duration_secs@ + "s"@,
            PatternFigures::Spike { baseline, spikes } => "baseline "@ + baseline@
                + " rps, spikes:"@ + spikes_text(spikes@),
            PatternFigures::Soak { rps, checkpoint_secs } => rps@ + " rps · checkpoint every "@
                + decimal(checkpoint_secs as nat) + "s"@,
        }
    }
}

/// A short, human-friendly description of a load pattern.
pub fn format_pattern_detail(pattern: &PatternFigures) -> (r: String)
    ensures
        r@ == pattern.detail(),
{
    match pattern {
        PatternFigures::Constant { rps } => {
            let mut out = rps.clone();
            out.push_str(" rps");
            out
        },
        PatternFigures::Ramp { start, end, duration_secs } => {
            let mut out = start.clone();
            out.push_str(" → ");
            out.push_str(end.as_str());
            out.push_str(" rps over ");
            out.push_str(duration_secs.as_str());
            out.push_str("s");
            out
        },
        PatternFigures::Spike { baseline, spikes } => {
            let mut out = "baseline ".to_owned();
            out.push_str(baseline.as_str());
            out.push_str(" rps, spikes:");
            let ghost head = out@;
            let mut i: usize = 0;
            proof {
                assert(out@ =~= head + spikes_text(spikes@.take(0)));
            }
            while i < spikes.len()
                invariant
                    i <= spikes@.len(),
                    out@ == head + spikes_text(spikes@.take(i as int)),
                decreases spikes@.len() - i,
            {
                let s = &spikes[i];
                out.push_str(" t=");
                out.push_str(s.at_secs.as_str());
                out.push_str("s@");
                out.push_str(s.rps.as_str());
                out.push_str("rps/");
                out.push_str(s.duration_secs.as_str());
                out.push_str("s");
                proof {
                    assert(spikes@.take(i + 1).drop_last() =~= spikes@.take(i as int));
                    assert(out@ =~= head + spikes_text(spikes@.take(i + 1)));
                }
                i += 1;
            }
            proof {
                assert(spikes@.take(i as int) =~= spikes@);
            }
            out
        },
        PatternFigures::Soak { rps, checkpoint_secs } => {
            let mut out = rps.clone();
            out.push_str(" rps · checkpoint every ");
            out.push_str(decimal_text(*checkpoint_secs as u128).as_str());
            out.push_str("s");
            out
        },
    }
}

/// The four reported percentiles of one metric.
#[derive(Debug)]
pub struct PercentileFigures {
    pub p50: String,
    pub p90: String,
    pub p99: String,
    pub p999: String,
}

/// The prompt-cache rates, and the widths of their bars in percent.
#[derive(Debug)]
pub struct CacheFigures {
    pub overall: String,
    pub turn1: String,
    pub turn2plus: String,
    pub bar_overall: u32,
    pub bar_turn1: u32,
    pub bar_turn2plus: u32,
}

/// The numbers of the HTML report. Percentiles are read only where something
/// was recorded, the speculative rates only where there are any.
#[derive(Debug)]
pub struct ReportFigures {
    pub target_rps: String,
    pub achieved_rps: String,
    pub success_rate: String,
    pub prompt_mean: String,
    pub latency: PercentileFigures,
    pub ttft: PercentileFigures,
    pub itl: PercentileFigures,
    pub tps: PercentileFigures,
    pub tpot_ms: String,
    pub output_tps: String,
    pub total_tps: String,
    pub avg_input: String,
    pub avg_output: String,
    pub avg_turns: String,
    pub spec_decoded: String,
    pub spec_accept: String,
    pub pattern: PatternFigures,
    pub cache: CacheFigures,
    pub data: ReportNumbers,
}

} // verus!
