//! The split orchestrator as a state machine: validate the request,
//! probe the source, plan the clip count, prepare the output directory,
//! then extract clips in strictly ascending index order, swallowing the
//! benign past-end-of-source failure and aborting on the first real
//! one. The caller performs the external work each action asks for and
//! hands the outcome back.

use vstd::prelude::*;
use crate::errors::SplitError;
use crate::naming::{clip_file_name, clip_file_name_spec};
use crate::paths::{extension_or_default, extension_or_default_spec, join_path, join_path_spec};
use crate::planner::{
    ceil_div, lemma_ceil_div_is_ceiling, lemma_planned_offsets_fit, plan_clip_count, start_offset,
    start_offset_spec,
};
use crate::probe::{interpret_probe_outcome, probe_gives_duration, probed_duration_spec,
    ProbeOutcome};
use crate::text::{benign_tail_diagnostic, is_benign_tail_diagnostic};

verus! {

/// One clip to extract: its 1-based index, its start offset in the
/// source, and the file the extraction writes.
pub struct ClipSpec {
    pub index: u64,
    pub start_ms: u64,
    pub output_path: String,
}

/// How an attempt to run the extraction tool ended.
pub enum ExtractOutcome {
    LaunchFailed { detail: String },
    Completed { exit_success: bool, stderr: String },
}

/// Where a split currently stands.
pub enum SessionState {
    /// Waiting for the probing tool's outcome.
    Probing,
    /// Duration known; waiting for the output directory to exist.
    PreparingDirectory { duration_ms: u64 },
    /// Waiting for the extraction of clip `next_index`.
    Extracting { duration_ms: u64, next_index: u64 },
    /// All planned clips handled.
    Done { total_clips: u64 },
    /// Aborted; no further clip is attempted.
    Failed { error: SplitError },
}

/// The external work the caller must perform next.
pub enum SplitAction {
    RunProbe { path: String },
    PrepareDirectory { dir: String },
    RunExtraction { clip: ClipSpec },
}

/// One split request and its progress. The session never spawns a
/// process itself: `next_action` says what to run, and the `on_…`
/// methods consume what came of it.
pub struct SplitSession {
    pub input_path: String,
    pub output_dir: String,
    pub prefix: String,
    pub suffix: String,
    pub clip_ms: u64,
    pub state: SessionState,
}

impl SplitSession {
    /// A session is well formed when its request was validated and its
    /// state carries a plan that the planner produced: a positive
    /// duration, and a next index within the planned count.
    pub open spec fn wf(&self) -> bool {
        &&& self.clip_ms >= 1
        &&& self.input_path@.len() >= 1
        &&& self.output_dir@.len() >= 1
        &&& match self.state {
            SessionState::PreparingDirectory { duration_ms } => duration_ms >= 1,
            SessionState::Extracting { duration_ms, next_index } => duration_ms >= 1 && 1
                <= next_index <= ceil_div(duration_ms as int, self.clip_ms as int),
            _ => true,
        }
    }

    /// The request itself (paths, naming, clip length) never changes
    /// over a session's life.
    pub open spec fn same_config(&self, other: &SplitSession) -> bool {
        &&& self.input_path@ == other.input_path@
        &&& self.output_dir@ == other.output_dir@
        &&& self.prefix@ == other.prefix@
        &&& self.suffix@ == other.suffix@
        &&& self.clip_ms == other.clip_ms
    }

    /// The full output path of clip `index` of this session.
    pub open spec fn output_path_spec(&self, index: int) -> Seq<char> {
        join_path_spec(
            self.output_dir@,
            clip_file_name_spec(
                self.prefix@,
                index,
                self.suffix@,
                extension_or_default_spec(self.input_path@),
            ),
        )
    }

    /// Validates a split request: the clip duration must be positive
    /// and both paths non-empty; a valid request starts out probing.
    pub fn new(
        input_path: String,
        output_dir: String,
        prefix: String,
        suffix: String,
        clip_duration_ms: u64,
    ) -> (r: Result<SplitSession, SplitError>)
        ensures
            clip_duration_ms == 0 ==> (r matches Err(e) && e is InvalidDuration),
            clip_duration_ms >= 1 && input_path@.len() == 0 ==> (r matches Err(e)
                && e is FileAccessError),
            clip_duration_ms >= 1 && input_path@.len() >= 1 && output_dir@.len() == 0 ==> (
            r matches Err(e) && e is DirectoryError),
            clip_duration_ms >= 1 && input_path@.len() >= 1 && output_dir@.len() >= 1 ==> (
            r matches Ok(s) && s.wf() && s.state is Probing && s.input_path@ == input_path@
                && s.output_dir@ == output_dir@ && s.prefix@ == prefix@ && s.suffix@ == suffix@
                && s.clip_ms == clip_duration_ms),
    {
        if clip_duration_ms == 0 {
            return Err(SplitError::InvalidDuration);
        }
        if input_path.as_str().is_empty() {
            return Err(SplitError::FileAccessError { detail: "empty input path".to_owned() });
        }
        if output_dir.as_str().is_empty() {
            return Err(SplitError::DirectoryError { detail: "empty output directory".to_owned() });
        }
        Ok(
            SplitSession {
                input_path,
                output_dir,
                prefix,
                suffix,
                clip_ms: clip_duration_ms,
                state: SessionState::Probing,
            },
        )
    }

    /// What the caller must run next, or `None` once the session is
    /// finished. While extracting, the action names clip `next_index`
    /// with its planned start offset and output path.
    pub fn next_action(&self) -> (a: Option<SplitAction>)
        requires
            self.wf(),
        ensures
            self.state is Probing ==> (a matches Some(act) && act matches SplitAction::RunProbe {
                path,
            } && path@ == self.input_path@),
            self.state is PreparingDirectory ==> (a matches Some(act)
                && act matches SplitAction::PrepareDirectory { dir } && dir@ == self.output_dir@),
            self.state matches SessionState::Extracting { duration_ms, next_index } ==> (
            a matches Some(act) && act matches SplitAction::RunExtraction { clip } && clip.index
                == next_index && clip.start_ms == start_offset_spec(
                next_index as int,
                self.clip_ms as int,
            ) && clip.output_path@ == self.output_path_spec(next_index as int)),
            (self.state is Done || self.state is Failed) <==> a is None,
    {
        match &self.state {
            SessionState::Probing => Some(
                SplitAction::RunProbe { path: self.input_path.clone() },
            ),
            SessionState::PreparingDirectory { .. } => Some(
                SplitAction::PrepareDirectory { dir: self.output_dir.clone() },
            ),
            SessionState::Extracting { duration_ms, next_index } => {
                let i = *next_index;
                proof {
                    lemma_planned_offsets_fit(*duration_ms as int, self.clip_ms as int);
                }
                let start = start_offset(i, self.clip_ms);
                let ext = extension_or_default(self.input_path.as_str());
                let name = clip_file_name(
                    self.prefix.as_str(),
                    i,
                    self.suffix.as_str(),
                    ext.as_str(),
                );
                let path = join_path(self.output_dir.as_str(), name.as_str());
                Some(
                    SplitAction::RunExtraction {
                        clip: ClipSpec { index: i, start_ms: start, output_path: path },
                    },
                )
            },
            SessionState::Done { .. } => None,
            SessionState::Failed { .. } => None,
        }
    }

    /// Consumes the probe's outcome. A launch failure, a failing exit,
    /// unparseable output or a zero duration abort the split before any
    /// extraction; otherwise the probed duration is adopted and the
    /// output directory is prepared next.
    pub fn on_probe(&mut self, outcome: ProbeOutcome)
        requires
            old(self).wf(),
            old(self).state is Probing,
        ensures
            final(self).wf(),
            final(self).same_config(old(self)),
            outcome matches ProbeOutcome::LaunchFailed { detail } ==> (
            final(self).state matches SessionState::Failed { error }
                && error matches SplitError::ToolUnavailable { tool, detail: d } && tool@
                == "ffprobe"@ && d@ == detail@),
            outcome matches ProbeOutcome::Completed { exit_success: false, stderr, .. } ==> (
            final(self).state matches SessionState::Failed { error }
                && error matches SplitError::ProbeFailed { diagnostic } && diagnostic@ == stderr@),
            outcome is Completed && outcome->Completed_exit_success && !probe_gives_duration(
                outcome,
            ) ==> (final(self).state matches SessionState::Failed { error }
                && error is MalformedOutput),
            probe_gives_duration(outcome) && probed_duration_spec(outcome) == 0 ==> (
            final(self).state matches SessionState::Failed { error } && error is InvalidDuration),
            probe_gives_duration(outcome) && probed_duration_spec(outcome) >= 1 ==> (
            final(self).state matches SessionState::PreparingDirectory { duration_ms }
                && duration_ms == probed_duration_spec(outcome)),
    {
        match interpret_probe_outcome(outcome) {
            Err(e) => {
                self.state = SessionState::Failed { error: e };
            },
            Ok(ms) => {
                if ms == 0 {
                    self.state = SessionState::Failed { error: SplitError::InvalidDuration };
                } else {
                    self.state = SessionState::PreparingDirectory { duration_ms: ms };
                }
            },
        }
    }

    /// Consumes the outcome of creating the output directory: failure
    /// is fatal before any clip is attempted; success starts the
    /// extraction loop at clip 1.
    pub fn on_directory_prepared(&mut self, ok: bool, detail: String)
        requires
            old(self).wf(),
            old(self).state is PreparingDirectory,
        ensures
            final(self).wf(),
            final(self).same_config(old(self)),
            !ok ==> (final(self).state matches SessionState::Failed { error }
                && error matches SplitError::DirectoryError { detail: d } && d@ == detail@),
            ok ==> (final(self).state matches SessionState::Extracting { duration_ms, next_index }
                && duration_ms == old(self).state->PreparingDirectory_duration_ms && next_index
                == 1),
    {
        if !ok {
            self.state = SessionState::Failed { error: SplitError::DirectoryError { detail } };
        } else {
            let duration_ms: u64 = match &self.state {
                SessionState::PreparingDirectory { duration_ms } => *duration_ms,
                _ => {
                    proof {
                        assert(false);
                    }
                    0
                },
            };
            proof {
                lemma_ceil_div_is_ceiling(duration_ms as int, self.clip_ms as int);
            }
            self.state = SessionState::Extracting { duration_ms, next_index: 1 };
        }
    }

    /// Consumes one extraction's outcome. A launch failure aborts; a
    /// failing exit whose diagnostic is not the benign past-end
    /// condition aborts naming the failing clip; otherwise the clip
    /// counts and the session moves to the next index, or to `Done`
    /// with the full planned count after the last one.
    pub fn on_extraction(&mut self, outcome: ExtractOutcome)
        requires
            old(self).wf(),
            old(self).state is Extracting,
        ensures
            final(self).wf(),
            final(self).same_config(old(self)),
            outcome matches ExtractOutcome::LaunchFailed { detail } ==> (
            final(self).state matches SessionState::Failed { error }
                && error matches SplitError::ToolUnavailable { tool, detail: d } && tool@
                == "ffmpeg"@ && d@ == detail@),
            outcome matches ExtractOutcome::Completed { exit_success, stderr } ==> ({
                let next = old(self).state->Extracting_next_index;
                let duration = old(self).state->Extracting_duration_ms;
                let total = ceil_div(duration as int, old(self).clip_ms as int);
                if exit_success || benign_tail_diagnostic(stderr@) {
                    if next == total {
                        final(self).state matches SessionState::Done { total_clips } && total_clips
                            == total
                    } else {
                        final(self).state matches SessionState::Extracting {
                            duration_ms,
                            next_index,
                        } && duration_ms == duration && next_index == next + 1
                    }
                } else {
                    final(self).state matches SessionState::Failed { error }
                        && error matches SplitError::ExtractionFailed { clip_index, diagnostic }
                        && clip_index == next && diagnostic@ == stderr@
                }
            }),
    {
        let (duration_ms, next_index): (u64, u64) = match &self.state {
            SessionState::Extracting { duration_ms, next_index } => (*duration_ms, *next_index),
            _ => {
                proof {
                    assert(false);
                }
                (0, 0)
            },
        };
        match outcome {
            ExtractOutcome::LaunchFailed { detail } => {
                self.state = SessionState::Failed {
                    error: SplitError::ToolUnavailable { tool: "ffmpeg".to_owned(), detail },
                };
            },
            ExtractOutcome::Completed { exit_success, stderr } => {
                let benign = is_benign_tail_diagnostic(stderr.as_str());
                if exit_success || benign {
                    let total: u64 = match plan_clip_count(duration_ms, self.clip_ms) {
                        Ok(n) => n,
                        Err(_) => {
                            proof {
                                assert(false);
                            }
                            0
                        },
                    };
                    if next_index == total {
                        self.state = SessionState::Done { total_clips: total };
                    } else {
                        self.state = SessionState::Extracting {
                            duration_ms,
                            next_index: next_index + 1,
                        };
                    }
                } else {
                    self.state = SessionState::Failed {
                        error: SplitError::ExtractionFailed {
                            clip_index: next_index,
                            diagnostic: stderr,
                        },
                    };
                }
            },
        }
    }

    /// Has the session reached `Done` or `Failed`?
    pub fn is_finished(&self) -> (b: bool)
        ensures
            b == (self.state is Done || self.state is Failed),
    {
        match &self.state {
            SessionState::Done { .. } => true,
            SessionState::Failed { .. } => true,
            _ => false,
        }
    }

    /// The batch result: the full planned clip count, or the first
    /// unrecoverable error.
    pub fn into_result(self) -> (r: Result<u64, SplitError>)
        requires
            self.state is Done || self.state is Failed,
        ensures
            self.state matches SessionState::Done { total_clips } ==> r == Ok::<
                u64,
                SplitError,
            >(total_clips),
            self.state matches SessionState::Failed { error } ==> r == Err::<
                u64,
                SplitError,
            >(error),
    {
        match self.state {
            SessionState::Done { total_clips } => Ok(total_clips),
            SessionState::Failed { error } => Err(error),
            _ => {
                proof {
                    assert(false);
                }
                Err(SplitError::InvalidDuration)
            },
        }
    }
}

} // verus!
