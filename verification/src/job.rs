//! The video-job state machine.
//!
//! The probe, the extraction, the font load, the per-frame render tasks and
//! the re-encoding all run outside the library.  Every decision between them
//! is made here: the caller performs one action, hands back what happened as
//! an event, and asks for the next action.  Frame tasks are only ever
//! scheduled after the extraction reported success and the shared font
//! resource loaded.

use vstd::prelude::*;
use vstd::pervasive::unreached;
use vstd::string::StrSliceExecFns;
use crate::errors::AsciiError;
use crate::grid::push_char;

verus! {

/// `tok` is the first comma-separated token of `s`: a comma-free prefix
/// that ends at the first comma or at the end of the text.
pub open spec fn is_first_token(tok: Seq<char>, s: Seq<char>) -> bool {
    &&& tok.len() <= s.len()
    &&& forall|i: int| 0 <= i < tok.len() ==> tok[i] == s[i] && s[i] != ','
    &&& (tok.len() == s.len() || s[tok.len() as int] == ',')
}

/// Reads the first comma-separated token of a text: everything before the
/// first comma, or the whole text where there is none.
pub fn first_token(s: &str) -> (t: String)
    ensures
        is_first_token(t@, s@),
{
    let n = s.unicode_len();
    let mut t = String::new();
    let mut i: usize = 0;
    while i < n
        invariant
            n == s@.len(),
            i <= n,
            t@.len() == i,
            forall|j: int| 0 <= j < i ==> t@[j] == s@[j] && s@[j] != ',',
        decreases n - i,
    {
        let c = s.get_char(i);
        if c == ',' {
            return t;
        }
        push_char(&mut t, c);
        i = i + 1;
    }
    t
}

/// Where a video job stands between two outside steps.
pub enum JobState {
    /// Waiting for the framerate probe's outcome.
    Probing,
    /// Waiting for the frame extraction's outcome.
    Extracting {
        /// The probed framerate, as the probe printed it.
        framerate: String,
    },
    /// Waiting for the shared font resource, which every frame task draws
    /// with, to load.
    LoadingFont {
        /// The probed framerate.
        framerate: String,
        /// How many frames were extracted.
        total: usize,
    },
    /// Waiting for the outcomes of the scheduled frame tasks.
    Rendering {
        /// The probed framerate.
        framerate: String,
        /// How many frames were extracted.
        total: usize,
        /// How many frame tasks have succeeded so far.
        done: usize,
        /// How many frame tasks have failed so far.
        failed: usize,
    },
    /// Waiting for the re-encoding's outcome.
    Encoding {
        /// The probed framerate.
        framerate: String,
        /// How many frame tasks succeeded.
        done: usize,
        /// How many frame tasks failed.
        failed: usize,
    },
    /// Every stage finished; the counts summarize the batch.
    Finished {
        /// How many frame tasks succeeded.
        done: usize,
        /// How many frame tasks failed.
        failed: usize,
    },
    /// The job aborted.
    Failed {
        /// Why the job aborted.
        err: AsciiError,
    },
}

/// What happened in the outside step the job was waiting for.
pub enum JobEvent {
    /// The framerate probe exited.
    ProbeDone {
        /// Whether it exited successfully.
        exit_ok: bool,
        /// What it printed on its standard output.
        stdout: String,
    },
    /// The frame extraction exited.
    ExtractDone {
        /// Whether it exited successfully.
        exit_ok: bool,
        /// How many frame files it wrote.
        frame_count: usize,
    },
    /// The shared font resource was loaded, or could not be.
    FontLoaded {
        /// Whether the font was read and parsed.
        ok: bool,
    },
    /// One frame task finished.
    FrameDone {
        /// Whether the frame was rasterized, rendered and written.
        ok: bool,
    },
    /// The re-encoding exited.
    EncodeDone {
        /// Whether it exited successfully.
        exit_ok: bool,
    },
}

/// What the caller must do next.
pub enum JobAction {
    /// Run the frame extraction at the probed framerate.
    Extract {
        /// The framerate to extract at.
        framerate: String,
    },
    /// Load the shared font resource.
    LoadFont,
    /// Schedule one render task per extracted frame.
    ProcessFrames {
        /// How many frames there are.
        total: usize,
    },
    /// Re-encode the rendered frames at the probed framerate.
    Encode {
        /// The framerate to encode at.
        framerate: String,
    },
    /// Keep waiting: frame tasks are still outstanding.
    Wait,
    /// Remove the working directories and report the batch summary.
    CleanUp {
        /// How many frame tasks succeeded.
        done: usize,
        /// How many frame tasks failed.
        failed: usize,
    },
    /// Stop: the job failed.
    Abort {
        /// Why the job failed.
        err: AsciiError,
    },
}

/// A state's own invariant: while frame tasks run, at least one outcome is
/// still outstanding.
pub open spec fn state_wf(state: JobState) -> bool {
    match state {
        JobState::Rendering { total, done, failed, .. } => done + failed < total,
        _ => true,
    }
}

/// The event that a state waits for.
pub open spec fn expects(state: JobState, event: JobEvent) -> bool {
    match (state, event) {
        (JobState::Probing, JobEvent::ProbeDone { .. }) => true,
        (JobState::Extracting { .. }, JobEvent::ExtractDone { .. }) => true,
        (JobState::LoadingFont { .. }, JobEvent::FontLoaded { .. }) => true,
        (JobState::Rendering { .. }, JobEvent::FrameDone { .. }) => true,
        (JobState::Encoding { .. }, JobEvent::EncodeDone { .. }) => true,
        _ => false,
    }
}

/// Everything one step promises: which state and action follow each event.
pub open spec fn transition_ok(
    state: JobState,
    event: JobEvent,
    next: JobState,
    action: JobAction,
) -> bool {
    match (state, event) {
        (JobState::Probing, JobEvent::ProbeDone { exit_ok, stdout }) => {
            if !exit_ok || stdout@.len() == 0 {
                next == (JobState::Failed { err: AsciiError::ProbeError }) && action == (
                JobAction::Abort { err: AsciiError::ProbeError })
            } else {
                &&& next matches JobState::Extracting { framerate } && is_first_token(
                    framerate@,
                    stdout@,
                )
                &&& action matches JobAction::Extract { framerate: f } && is_first_token(
                    f@,
                    stdout@,
                )
            }
        },
        (JobState::Extracting { framerate }, JobEvent::ExtractDone { exit_ok, frame_count }) => {
            if !exit_ok {
                next == (JobState::Failed { err: AsciiError::ExtractionError }) && action == (
                JobAction::Abort { err: AsciiError::ExtractionError })
            } else {
                &&& next matches JobState::LoadingFont { framerate: f, total } && f@ == framerate@
                    && total == frame_count
                &&& action == JobAction::LoadFont
            }
        },
        (JobState::LoadingFont { framerate, total }, JobEvent::FontLoaded { ok }) => {
            if !ok {
                next == (JobState::Failed { err: AsciiError::FontLoadError }) && action == (
                JobAction::Abort { err: AsciiError::FontLoadError })
            } else if total == 0 {
                &&& next matches JobState::Encoding { framerate: f, done: 0, failed: 0 } && f@
                    == framerate@
                &&& action matches JobAction::Encode { framerate: f } && f@ == framerate@
            } else {
                &&& next matches JobState::Rendering {
                    framerate: f,
                    total: t,
                    done: 0,
                    failed: 0,
                } && f@ == framerate@ && t == total
                &&& action == (JobAction::ProcessFrames { total })
            }
        },
        (
            JobState::Rendering { framerate, total, done, failed },
            JobEvent::FrameDone { ok },
        ) => {
            let done2: int = done + if ok {
                1int
            } else {
                0int
            };
            let failed2: int = failed + if ok {
                0int
            } else {
                1int
            };
            if done2 + failed2 == total {
                &&& next matches JobState::Encoding { framerate: f, done: d, failed: l } && f@
                    == framerate@ && d == done2 && l == failed2
                &&& action matches JobAction::Encode { framerate: f } && f@ == framerate@
            } else {
                &&& next matches JobState::Rendering {
                    framerate: f,
                    total: t,
                    done: d,
                    failed: l,
                } && f@ == framerate@ && t == total && d == done2 && l == failed2
                &&& action == JobAction::Wait
            }
        },
        (JobState::Encoding { framerate, done, failed }, JobEvent::EncodeDone { exit_ok }) => {
            if exit_ok {
                next == (JobState::Finished { done, failed }) && action == (JobAction::CleanUp {
                    done,
                    failed,
                })
            } else {
                next == (JobState::Failed { err: AsciiError::EncodingError }) && action == (
                JobAction::Abort { err: AsciiError::EncodingError })
            }
        },
        _ => true,
    }
}

/// Takes the event a state was waiting for and decides the following state
/// and the next action.  Frame tasks are scheduled only after an extraction
/// that exited successfully and a font that loaded: an extraction or font
/// failure aborts the job before any frame work begins.
pub fn job_step(state: JobState, event: JobEvent) -> (r: (JobState, JobAction))
    requires
        expects(state, event),
        state_wf(state),
    ensures
        state_wf(r.0),
        transition_ok(state, event, r.0, r.1),
        r.1 matches JobAction::ProcessFrames { .. } ==> state matches JobState::LoadingFont { .. }
            && event matches JobEvent::FontLoaded { ok: true },
        event matches JobEvent::ExtractDone { exit_ok: false, .. } ==> r.1
            matches JobAction::Abort { .. },
{
    match (state, event) {
        (JobState::Probing, JobEvent::ProbeDone { exit_ok, stdout }) => {
            if !exit_ok || stdout.as_str().unicode_len() == 0 {
                (
                    JobState::Failed { err: AsciiError::ProbeError },
                    JobAction::Abort { err: AsciiError::ProbeError },
                )
            } else {
                let framerate = first_token(stdout.as_str());
                let for_action = framerate.clone();
                (
                    JobState::Extracting { framerate },
                    JobAction::Extract { framerate: for_action },
                )
            }
        },
        (JobState::Extracting { framerate }, JobEvent::ExtractDone { exit_ok, frame_count }) => {
            if !exit_ok {
                (
                    JobState::Failed { err: AsciiError::ExtractionError },
                    JobAction::Abort { err: AsciiError::ExtractionError },
                )
            } else {
                (
                    JobState::LoadingFont { framerate, total: frame_count },
                    JobAction::LoadFont,
                )
            }
        },
        (JobState::LoadingFont { framerate, total }, JobEvent::FontLoaded { ok }) => {
            if !ok {
                (
                    JobState::Failed { err: AsciiError::FontLoadError },
                    JobAction::Abort { err: AsciiError::FontLoadError },
                )
            } else if total == 0 {
                let for_action = framerate.clone();
                (
                    JobState::Encoding { framerate, done: 0, failed: 0 },
                    JobAction::Encode { framerate: for_action },
                )
            } else {
                (
                    JobState::Rendering { framerate, total, done: 0, failed: 0 },
                    JobAction::ProcessFrames { total },
                )
            }
        },
        (JobState::Rendering { framerate, total, done, failed }, JobEvent::FrameDone { ok }) => {
            let done2: usize = if ok {
                done + 1
            } else {
                done
            };
            let failed2: usize = if ok {
                failed
            } else {
                failed + 1
            };
            if done2 + failed2 == total {
                let for_action = framerate.clone();
                (
                    JobState::Encoding { framerate, done: done2, failed: failed2 },
                    JobAction::Encode { framerate: for_action },
                )
            } else {
                (
                    JobState::Rendering { framerate, total, done: done2, failed: failed2 },
                    JobAction::Wait,
                )
            }
        },
        (JobState::Encoding { framerate: _, done, failed }, JobEvent::EncodeDone { exit_ok }) => {
            if exit_ok {
                (JobState::Finished { done, failed }, JobAction::CleanUp { done, failed })
            } else {
                (
                    JobState::Failed { err: AsciiError::EncodingError },
                    JobAction::Abort { err: AsciiError::EncodingError },
                )
            }
        },
        _ => unreached(),
    }
}

} // verus!
