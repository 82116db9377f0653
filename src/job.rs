//! The pipeline coordinator and process supervisor, as a pure state machine.
//!
//! A job runs one or two stages, each one external process. The caller owns the
//! processes and the clock: it performs each [`Action`] the job returns and hands
//! back what it then observed as an [`Event`]. Every decision (when to probe, when to
//! spawn the next stage, which progress to report, when and how the job ends) is
//! made by [`Job::step`], whose result is fixed by [`step_spec`].

use vstd::prelude::*;
use crate::probe::{duration_from_bytes, probe_duration};
use crate::progress::{elapsed_reading, parse_elapsed, parse_percentage, percent_reading, FULL};

verus! {

/// How a tool reports progress after its marker.
#[derive(Clone, Copy, Debug, PartialEq, Eq, Structural)]
pub enum ProgressStyle {
    /// A percentage, such as `[download]  42.5%`.
    Percentage,
    /// Elapsed media time in milliseconds, normalized by the media duration.
    ElapsedMillis,
    /// Elapsed media time in microseconds, normalized by the media duration: one
    /// division by the duration expressed in microseconds.
    ElapsedMicros,
}

/// One external process invocation.
#[derive(Clone, Debug)]
pub struct Invocation {
    pub program: String,
    pub args: Vec<String>,
    /// Whether the process's output is parsed for progress.
    pub wants_progress: bool,
}

/// An immutable description of one unit of work.
#[derive(Clone, Debug)]
pub struct JobSpec {
    /// The stages, run in order; a job has one or two.
    pub stages: Vec<Invocation>,
    pub style: ProgressStyle,
    /// The text that precedes a progress value in the tool's output.
    pub marker: Vec<u8>,
    /// The media duration in milliseconds, where it is known up front. An
    /// elapsed-time job without it probes the media first.
    pub duration_ms: Option<u64>,
}

/// The lifecycle of one stage.
#[derive(Clone, Copy, Debug, PartialEq, Eq, Structural)]
pub enum StageState {
    Pending,
    Running,
    Completed,
    Failed,
    Killed,
}

/// Why a job failed.
#[derive(Clone, Copy, Debug, PartialEq, Eq, Structural)]
pub enum FailureReason {
    /// The media duration could not be determined.
    ProbeFailure,
    /// The stage's process could not be started.
    SpawnFailure { stage: usize },
    /// The stage's process started and exited with a failure status.
    RuntimeFailure { stage: usize },
    /// The stage's process could no longer be waited on; it was killed.
    LostProcess { stage: usize },
}

/// How a job ended; exactly one per job.
#[derive(Clone, Copy, Debug, PartialEq, Eq, Structural)]
pub enum Outcome {
    Success,
    Failure(FailureReason),
    Cancelled,
}

/// Where a job is.
#[derive(Clone, Copy, Debug, PartialEq, Eq, Structural)]
pub enum Phase {
    Ready,
    Probing,
    Running { stage: usize },
    Finished { outcome: Outcome },
}

/// The mutable state of a job.
#[derive(Clone, Copy, Debug, PartialEq, Eq, Structural)]
pub struct JobState {
    pub phase: Phase,
    pub first: StageState,
    pub second: StageState,
    /// The media duration in milliseconds used to normalize progress (0 if unknown).
    pub total_ms: u64,
    /// The last progress reported, in parts per million of the whole job.
    pub last_ppm: u64,
    /// How many processes were spawned.
    pub spawned: u64,
}

/// What the caller observed.
#[derive(Debug)]
pub enum Event {
    /// Begin the job.
    Start,
    /// The media probe printed this text.
    Probed(Vec<u8>),
    /// The media probe could not be run.
    ProbeFailed,
    /// The process that the last `Spawn` asked for could not be started.
    SpawnFailed,
    /// The observer asked for cancellation.
    CancelRequested,
    /// The running process exited.
    Exited { success: bool },
    /// The running process could not be waited on.
    WaitFailed,
    /// The running process printed this chunk.
    Output(Vec<u8>),
}

/// What the caller must do next.
#[derive(Clone, Copy, Debug, PartialEq, Eq, Structural)]
pub enum Action {
    /// Nothing new: keep polling.
    Continue,
    /// Run the media probe and report `Probed` or `ProbeFailed`.
    Probe,
    /// Spawn the given stage and report `SpawnFailed` if it could not start.
    Spawn { stage: usize },
    /// Publish this progress, in parts per million of the whole job.
    Report { ppm: u64 },
    /// The job is over: kill the running process first if `kill`, then publish the
    /// outcome. No further action follows.
    Finish { outcome: Outcome, kill: bool },
}

pub open spec fn stage_count(js: JobSpec) -> int {
    js.stages@.len() as int
}

/// The job must learn the media duration before it can spawn anything.
pub open spec fn needs_probe(js: JobSpec) -> bool {
    js.style != ProgressStyle::Percentage && js.duration_ms is None
}

pub open spec fn stage_state(s: JobState, stage: int) -> StageState {
    if stage == 0 {
        s.first
    } else {
        s.second
    }
}

pub open spec fn with_stage(s: JobState, stage: int, st: StageState) -> JobState {
    if stage == 0 {
        JobState { first: st, ..s }
    } else {
        JobState { second: st, ..s }
    }
}

/// An elapsed value as a fraction, in parts per million, of `total` milliseconds
/// counted in units of `1 / per_ms` milliseconds; `None` when out of range.
pub open spec fn elapsed_fraction(e: u64, total: u64, per_ms: u64) -> Option<u64> {
    let whole = total * per_ms;
    if whole > 0 && e <= whole {
        Some((e * FULL / whole) as u64)
    } else {
        None
    }
}

/// The fraction of the current stage, in parts per million, that a chunk reports.
pub open spec fn stage_fraction(style: ProgressStyle, total: u64, chunk: Seq<u8>, marker: Seq<u8>) -> Option<u64> {
    match style {
        ProgressStyle::Percentage => percent_reading(chunk, marker),
        ProgressStyle::ElapsedMillis => match elapsed_reading(chunk, marker) {
            Some(e) => elapsed_fraction(e, total, 1),
            None => None,
        },
        ProgressStyle::ElapsedMicros => match elapsed_reading(chunk, marker) {
            Some(e) => elapsed_fraction(e, total, 1000),
            None => None,
        },
    }
}

/// A stage-local fraction placed in the stage's share of the whole job: each of
/// `stages` stages gets an equal consecutive part of `[0, FULL]`.
pub open spec fn rebase(stage: int, stages: int, f: int) -> int {
    (stage * FULL + f) / stages
}

/// Start the given stage.
pub open spec fn launch(s: JobState, stage: int) -> (JobState, Action) {
    let t = with_stage(s, stage, StageState::Running);
    (
        JobState { phase: Phase::Running { stage: stage as usize }, spawned: (s.spawned + 1) as u64, ..t },
        Action::Spawn { stage: stage as usize },
    )
}

/// End the job.
pub open spec fn finish(s: JobState, outcome: Outcome, kill: bool) -> (JobState, Action) {
    (JobState { phase: Phase::Finished { outcome }, ..s }, Action::Finish { outcome, kill })
}

/// The progress that output of the running stage reports, in parts per million of
/// the whole job, where the stage wants progress and the value is in range.
pub open spec fn reported(js: JobSpec, s: JobState, stage: int, chunk: Seq<u8>) -> Option<u64> {
    if js.stages@[stage].wants_progress {
        match stage_fraction(js.style, s.total_ms, chunk, js.marker@) {
            Some(f) => Some(rebase(stage, stage_count(js), f as int) as u64),
            None => None,
        }
    } else {
        None
    }
}

/// One decision of the job: the next state and the action, given an event.
pub open spec fn step_spec(js: JobSpec, s: JobState, e: Event) -> (JobState, Action) {
    match s.phase {
        Phase::Finished { .. } => (s, Action::Continue),
        Phase::Ready => match e {
            Event::Start => if needs_probe(js) {
                (JobState { phase: Phase::Probing, ..s }, Action::Probe)
            } else {
                let total = match js.duration_ms {
                    Some(d) => d,
                    None => 0,
                };
                launch(JobState { total_ms: total, ..s }, 0)
            },
            Event::CancelRequested => finish(s, Outcome::Cancelled, false),
            _ => (s, Action::Continue),
        },
        Phase::Probing => match e {
            Event::Probed(text) => match probe_duration(text@) {
                Some(d) => launch(JobState { total_ms: d, ..s }, 0),
                None => finish(s, Outcome::Failure(FailureReason::ProbeFailure), false),
            },
            Event::ProbeFailed => finish(s, Outcome::Failure(FailureReason::ProbeFailure), false),
            Event::CancelRequested => finish(s, Outcome::Cancelled, false),
            _ => (s, Action::Continue),
        },
        Phase::Running { stage } => match e {
            Event::CancelRequested => finish(
                with_stage(s, stage as int, StageState::Killed),
                Outcome::Cancelled,
                true,
            ),
            Event::SpawnFailed => finish(
                with_stage(s, stage as int, StageState::Failed),
                Outcome::Failure(FailureReason::SpawnFailure { stage }),
                false,
            ),
            Event::WaitFailed => finish(
                with_stage(s, stage as int, StageState::Killed),
                Outcome::Failure(FailureReason::LostProcess { stage }),
                true,
            ),
            Event::Exited { success } => if !success {
                finish(
                    with_stage(s, stage as int, StageState::Failed),
                    Outcome::Failure(FailureReason::RuntimeFailure { stage }),
                    false,
                )
            } else if stage + 1 < stage_count(js) {
                launch(with_stage(s, stage as int, StageState::Completed), stage + 1)
            } else {
                finish(with_stage(s, stage as int, StageState::Completed), Outcome::Success, false)
            },
            Event::Output(chunk) => match reported(js, s, stage as int, chunk@) {
                Some(ppm) => if s.last_ppm <= ppm {
                    (JobState { last_ppm: ppm, ..s }, Action::Report { ppm })
                } else {
                    (s, Action::Continue)
                },
                None => (s, Action::Continue),
            },
            _ => (s, Action::Continue),
        },
    }
}

/// The invariant of every job state.
pub open spec fn job_inv(js: JobSpec, s: JobState) -> bool {
    &&& 1 <= stage_count(js) <= 2
    &&& s.last_ppm <= FULL
    &&& stage_count(js) == 1 ==> s.second == StageState::Pending
    &&& s.second != StageState::Pending ==> s.first == StageState::Completed
    &&& s.spawned == (if s.first == StageState::Pending { 0int } else { 1int }) + (if s.second
        == StageState::Pending { 0int } else { 1int })
    &&& match s.phase {
        Phase::Ready => s.first == StageState::Pending && s.last_ppm == 0,
        Phase::Probing => s.first == StageState::Pending && s.last_ppm == 0,
        Phase::Running { stage } => {
            &&& stage < stage_count(js)
            &&& stage_state(s, stage as int) == StageState::Running
            &&& stage == 0 ==> s.second == StageState::Pending
        },
        Phase::Finished { .. } => s.first != StageState::Running && s.second
            != StageState::Running,
    }
}

/// The state of a job that has not begun.
pub open spec fn initial_state() -> JobState {
    JobState {
        phase: Phase::Ready,
        first: StageState::Pending,
        second: StageState::Pending,
        total_ms: 0,
        last_ppm: 0,
        spawned: 0,
    }
}

/// The fraction of the current stage, in parts per million, that `chunk` reports.
pub fn read_stage_fraction(style: ProgressStyle, total: u64, chunk: &[u8], marker: &[u8]) -> (r:
    Option<u64>)
    ensures
        r == stage_fraction(style, total, chunk@, marker@),
        r matches Some(f) ==> f <= FULL,
{
    let per_ms: u128 = match style {
        ProgressStyle::Percentage => return parse_percentage(chunk, marker),
        ProgressStyle::ElapsedMillis => 1,
        ProgressStyle::ElapsedMicros => 1000,
    };
    let e = match parse_elapsed(chunk, marker) {
        Some(e) => e,
        None => return None,
    };
    let whole: u128 = total as u128 * per_ms;
    if whole == 0 || e as u128 > whole {
        return None;
    }
    let scaled: u128 = e as u128 * FULL as u128;
    let f: u128 = scaled / whole;
    assert(f <= FULL) by (nonlinear_arith)
        requires
            f == scaled / whole,
            scaled == e * FULL,
            e <= whole,
            whole > 0,
    ;
    Some(f as u64)
}

/// The stage-local fraction `f` placed in the stage's share of the whole job.
pub fn rebase_fraction(stage: usize, stages: usize, f: u64) -> (r: u64)
    requires
        stage < stages <= 2,
        f <= FULL,
    ensures
        r == rebase(stage as int, stages as int, f as int),
        r <= FULL,
{
    let numerator: u64 = stage as u64 * FULL + f;
    if stages == 1 {
        numerator
    } else {
        numerator / 2
    }
}

/// The media duration a size-targeted conversion is planned with, from the probe
/// text (`None` when the probe could not be run). Without a duration the conversion
/// ends as a `ProbeFailure` before any process is spawned.
pub fn duration_for_size_target(probe_text: Option<&[u8]>) -> (r: Result<u64, Outcome>)
    ensures
        r == (match probe_text {
            Some(text) => match probe_duration(text@) {
                Some(d) => Ok(d),
                None => Err(Outcome::Failure(FailureReason::ProbeFailure)),
            },
            None => Err(Outcome::Failure(FailureReason::ProbeFailure)),
        }),
{
    match probe_text {
        Some(text) => match duration_from_bytes(text) {
            Some(d) => Ok(d),
            None => Err(Outcome::Failure(FailureReason::ProbeFailure)),
        },
        None => Err(Outcome::Failure(FailureReason::ProbeFailure)),
    }
}

/// One job: its description and where it stands.
pub struct Job {
    spec: JobSpec,
    state: JobState,
}

impl Job {
    #[verifier::type_invariant]
    spec fn well_formed(self) -> bool {
        job_inv(self.spec, self.state)
    }

    /// The job's description.
    pub closed spec fn job_spec(self) -> JobSpec {
        self.spec
    }

    /// The job's state.
    pub closed spec fn job_state(self) -> JobState {
        self.state
    }

    /// A job that has not begun; `None` unless the description has one or two stages.
    pub fn new(spec: JobSpec) -> (r: Option<Job>)
        ensures
            r is Some <==> 1 <= stage_count(spec) <= 2,
            r matches Some(j) ==> j.job_spec() == spec && j.job_state() == initial_state(),
    {
        if spec.stages.len() == 0 || spec.stages.len() > 2 {
            return None;
        }
        Some(Job { spec, state: JobState {
            phase: Phase::Ready,
            first: StageState::Pending,
            second: StageState::Pending,
            total_ms: 0,
            last_ppm: 0,
            spawned: 0,
        } })
    }

    /// The job's description.
    pub fn spec(&self) -> (r: &JobSpec)
        ensures
            *r == self.job_spec(),
    {
        &self.spec
    }

    /// The job's state.
    pub fn state(&self) -> (r: JobState)
        ensures
            r == self.job_state(),
            job_inv(self.job_spec(), r),
    {
        proof {
            use_type_invariant(self);
        }
        self.state
    }

    /// The invocation of one stage.
    pub fn stage(&self, stage: usize) -> (r: &Invocation)
        requires
            stage < stage_count(self.job_spec()),
        ensures
            *r == self.job_spec().stages@[stage as int],
    {
        &self.spec.stages[stage]
    }

    /// Takes one event and decides the next action.
    pub fn step(&mut self, event: &Event) -> (a: Action)
        ensures
            final(self).job_spec() == old(self).job_spec(),
            (final(self).job_state(), a) == step_spec(
                old(self).job_spec(),
                old(self).job_state(),
                *event,
            ),
            job_inv(final(self).job_spec(), final(self).job_state()),
    {
        proof {
            use_type_invariant(&*self);
        }
        let (next, action) = self.decide(event);
        self.state = next;
        proof {
            use_type_invariant(&*self);
        }
        action
    }

    /// The next state and action; the state is left as it is.
    fn decide(&self, event: &Event) -> (r: (JobState, Action))
        requires
            job_inv(self.spec, self.state),
        ensures
            r == step_spec(self.spec, self.state, *event),
            job_inv(self.spec, r.0),
    {
        let s = self.state;
        match s.phase {
            Phase::Finished { .. } => (s, Action::Continue),
            Phase::Ready => match event {
                Event::Start => {
                    if self.spec.style != ProgressStyle::Percentage && self.spec.duration_ms.is_none() {
                        (JobState { phase: Phase::Probing, ..s }, Action::Probe)
                    } else {
                        let total = match self.spec.duration_ms {
                            Some(d) => d,
                            None => 0,
                        };
                        Self::launch_stage(JobState { total_ms: total, ..s }, 0)
                    }
                },
                Event::CancelRequested => Self::finish_job(s, Outcome::Cancelled, false),
                _ => (s, Action::Continue),
            },
            Phase::Probing => match event {
                Event::Probed(text) => match duration_from_bytes(text.as_slice()) {
                    Some(d) => Self::launch_stage(JobState { total_ms: d, ..s }, 0),
                    None => Self::finish_job(s, Outcome::Failure(FailureReason::ProbeFailure), false),
                },
                Event::ProbeFailed => Self::finish_job(
                    s,
                    Outcome::Failure(FailureReason::ProbeFailure),
                    false,
                ),
                Event::CancelRequested => Self::finish_job(s, Outcome::Cancelled, false),
                _ => (s, Action::Continue),
            },
            Phase::Running { stage } => match event {
                Event::CancelRequested => Self::finish_job(
                    Self::set_stage(s, stage, StageState::Killed),
                    Outcome::Cancelled,
                    true,
                ),
                Event::SpawnFailed => Self::finish_job(
                    Self::set_stage(s, stage, StageState::Failed),
                    Outcome::Failure(FailureReason::SpawnFailure { stage }),
                    false,
                ),
                Event::WaitFailed => Self::finish_job(
                    Self::set_stage(s, stage, StageState::Killed),
                    Outcome::Failure(FailureReason::LostProcess { stage }),
                    true,
                ),
                Event::Exited { success } => {
                    if !*success {
                        Self::finish_job(
                            Self::set_stage(s, stage, StageState::Failed),
                            Outcome::Failure(FailureReason::RuntimeFailure { stage }),
                            false,
                        )
                    } else if stage + 1 < self.spec.stages.len() {
                        Self::launch_stage(Self::set_stage(s, stage, StageState::Completed), stage + 1)
                    } else {
                        Self::finish_job(
                            Self::set_stage(s, stage, StageState::Completed),
                            Outcome::Success,
                            false,
                        )
                    }
                },
                Event::Output(chunk) => {
                    let reading = if self.spec.stages[stage].wants_progress {
                        match read_stage_fraction(
                            self.spec.style,
                            s.total_ms,
                            chunk.as_slice(),
                            self.spec.marker.as_slice(),
                        ) {
                            Some(f) => Some(rebase_fraction(stage, self.spec.stages.len(), f)),
                            None => None,
                        }
                    } else {
                        None
                    };
                    match reading {
                        Some(ppm) => {
                            if s.last_ppm <= ppm {
                                (JobState { last_ppm: ppm, ..s }, Action::Report { ppm })
                            } else {
                                (s, Action::Continue)
                            }
                        },
                        None => (s, Action::Continue),
                    }
                },
                _ => (s, Action::Continue),
            },
        }
    }

    fn set_stage(s: JobState, stage: usize, st: StageState) -> (r: JobState)
        ensures
            r == with_stage(s, stage as int, st),
    {
        if stage == 0 {
            JobState { first: st, ..s }
        } else {
            JobState { second: st, ..s }
        }
    }

    fn launch_stage(s: JobState, stage: usize) -> (r: (JobState, Action))
        requires
            s.spawned < 2,
        ensures
            r == launch(s, stage as int),
    {
        let t = Self::set_stage(s, stage, StageState::Running);
        (JobState { phase: Phase::Running { stage }, spawned: s.spawned + 1, ..t }, Action::Spawn {
            stage,
        })
    }

    fn finish_job(s: JobState, outcome: Outcome, kill: bool) -> (r: (JobState, Action))
        ensures
            r == finish(s, outcome, kill),
    {
        (JobState { phase: Phase::Finished { outcome }, ..s }, Action::Finish { outcome, kill })
    }
}

} // verus!
