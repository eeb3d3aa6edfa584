//! Interpreting the probing tool's result, the probed media facts, and
//! the availability check's decision rule.

use vstd::prelude::*;
use crate::errors::SplitError;
use crate::parse::{
    duration_millis_of, fits_whole_seconds, parse_duration_millis, trimmed, valid_duration_text,
};

verus! {

/// What a probe learns about a media file: its container duration in
/// whole milliseconds and its size in bytes.
pub struct VideoInfo {
    pub duration_ms: u64,
    pub size: u64,
}

/// A snapshot of batch progress for a consumer that reports it:
/// `percentage` is the whole percent of clips finished so far.
pub struct SplitProgress {
    pub current_clip: u64,
    pub total_clips: u64,
    pub percentage: u64,
}

/// The progress snapshot after `current_clip` of `total_clips` clips.
pub fn progress_after(current_clip: u64, total_clips: u64) -> (p: SplitProgress)
    requires
        1 <= total_clips,
        current_clip <= total_clips,
    ensures
        p.current_clip == current_clip,
        p.total_clips == total_clips,
        p.percentage == (current_clip * 100) / total_clips as int,
        p.percentage <= 100,
{
    let pct128: u128 = (current_clip as u128) * 100 / (total_clips as u128);
    proof {
        vstd::arithmetic::div_mod::lemma_div_is_ordered(
            current_clip as int * 100,
            total_clips as int * 100,
            total_clips as int,
        );
        vstd::arithmetic::div_mod::lemma_div_multiples_vanish(100, total_clips as int);
    }
    SplitProgress { current_clip, total_clips, percentage: pct128 as u64 }
}

/// How an attempt to run the probing tool ended: it could not be
/// launched at all, or it ran to completion with an exit status and
/// its two output texts.
pub enum ProbeOutcome {
    LaunchFailed { detail: String },
    Completed { exit_success: bool, stdout: String, stderr: String },
}

/// The probed duration in milliseconds according to `outcome`, when the
/// probe succeeded and its output is a well-formed duration token.
pub open spec fn probed_duration_spec(outcome: ProbeOutcome) -> int
    recommends
        probe_gives_duration(outcome),
{
    duration_millis_of(trimmed(outcome->Completed_stdout@))
}

/// Did the probe run succeed with parseable output?
pub open spec fn probe_gives_duration(outcome: ProbeOutcome) -> bool {
    &&& outcome is Completed
    &&& outcome->Completed_exit_success
    &&& valid_duration_text(trimmed(outcome->Completed_stdout@))
    &&& fits_whole_seconds(trimmed(outcome->Completed_stdout@))
}

/// Turns the probing tool's outcome into the probed duration or the
/// error the batch reports: a launch failure means the tool is not
/// available, a failing exit carries the tool's diagnostic, and output
/// that is not a duration token is malformed.
pub fn interpret_probe_outcome(outcome: ProbeOutcome) -> (r: Result<u64, SplitError>)
    ensures
        outcome matches ProbeOutcome::LaunchFailed { detail } ==> (r matches Err(e)
            && e matches SplitError::ToolUnavailable { tool, detail: d } && tool@ == "ffprobe"@
            && d@ == detail@),
        outcome matches ProbeOutcome::Completed { exit_success: false, stderr, .. } ==> (
        r matches Err(e) && e matches SplitError::ProbeFailed { diagnostic } && diagnostic@
            == stderr@),
        outcome is Completed && outcome->Completed_exit_success && !probe_gives_duration(outcome)
            ==> (r matches Err(e) && e is MalformedOutput),
        probe_gives_duration(outcome) ==> (r matches Ok(ms) && ms == probed_duration_spec(
            outcome,
        )),
{
    match outcome {
        ProbeOutcome::LaunchFailed { detail } => Err(
            SplitError::ToolUnavailable { tool: "ffprobe".to_owned(), detail },
        ),
        ProbeOutcome::Completed { exit_success, stdout, stderr } => {
            if !exit_success {
                Err(SplitError::ProbeFailed { diagnostic: stderr })
            } else {
                parse_duration_millis(stdout.as_str())
            }
        },
    }
}

/// The availability decision: the tool counts as available exactly when
/// it could be launched and reported success. A launch failure is never
/// an error here, only `false`.
pub fn tool_available(launched: bool, exit_success: bool) -> (r: bool)
    ensures
        r == (launched && exit_success),
{
    launched && exit_success
}

} // verus!
