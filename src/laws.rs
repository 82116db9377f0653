//! What holds of every run of a job: its events folded through [`step_spec`].

use vstd::prelude::*;
use crate::job::{
    job_inv, needs_probe, rebase, reported, stage_count, stage_fraction, stage_state, step_spec,
    initial_state, Action, Event, FailureReason, JobSpec, JobState, Outcome, Phase, ProgressStyle,
    StageState,
};
use crate::progress::elapsed_reading;
use crate::probe::{duration_label, probe_duration};
use crate::progress::FULL;
use crate::scan::first_match;

verus! {

/// The final state and the actions of a job that takes `evs` in order from `s`.
pub open spec fn run(js: JobSpec, s: JobState, evs: Seq<Event>) -> (JobState, Seq<Action>)
    decreases evs.len(),
{
    if evs.len() == 0 {
        (s, Seq::empty())
    } else {
        let (t, a) = step_spec(js, s, evs[0]);
        let (u, rest) = run(js, t, evs.drop_first());
        (u, seq![a] + rest)
    }
}

/// The outcomes published among `acts`, in order.
pub open spec fn outcomes(acts: Seq<Action>) -> Seq<Outcome>
    decreases acts.len(),
{
    if acts.len() == 0 {
        Seq::empty()
    } else {
        match acts[0] {
            Action::Finish { outcome, .. } => seq![outcome] + outcomes(acts.drop_first()),
            _ => outcomes(acts.drop_first()),
        }
    }
}

/// How many processes `acts` ask to spawn.
pub open spec fn spawns(acts: Seq<Action>) -> nat
    decreases acts.len(),
{
    if acts.len() == 0 {
        0
    } else {
        (if acts[0] is Spawn { 1nat } else { 0nat }) + spawns(acts.drop_first())
    }
}

/// The progress values published among `acts`, in order.
pub open spec fn reports(acts: Seq<Action>) -> Seq<u64>
    decreases acts.len(),
{
    if acts.len() == 0 {
        Seq::empty()
    } else {
        match acts[0] {
            Action::Report { ppm } => seq![ppm] + reports(acts.drop_first()),
            _ => reports(acts.drop_first()),
        }
    }
}

pub open spec fn is_finished(s: JobState) -> bool {
    s.phase is Finished
}

/// A run over `seq![e] + rest` is one step followed by a run over `rest`.
proof fn lemma_run_cons(js: JobSpec, s: JobState, e: Event, rest: Seq<Event>)
    ensures
        ({
            let (t, a) = step_spec(js, s, e);
            let (u, acts) = run(js, t, rest);
            run(js, s, seq![e] + rest) == (u, seq![a] + acts)
        }),
{
    let evs = seq![e] + rest;
    assert(evs[0] == e);
    assert(evs.drop_first() =~= rest);
}

/// A stage-local fraction lies in `[0, FULL]`.
pub proof fn lemma_stage_fraction_bound(style: ProgressStyle, total: u64, chunk: Seq<u8>, marker: Seq<u8>)
    ensures
        stage_fraction(style, total, chunk, marker) matches Some(f) ==> f <= FULL,
{
    let per_ms: int = match style {
        ProgressStyle::ElapsedMicros => 1000,
        _ => 1,
    };
    if style != ProgressStyle::Percentage {
        if let Some(e) = elapsed_reading(chunk, marker) {
            let whole = total * per_ms;
            if whole > 0 && e <= whole {
                assert(e * FULL / whole <= FULL) by (nonlinear_arith)
                    requires
                        e <= whole,
                        whole > 0,
                ;
            }
        }
    }
}

/// Progress of a running stage, rebased into the whole job, lies in `[0, FULL]`.
pub proof fn lemma_reported_bound(js: JobSpec, s: JobState, stage: int, chunk: Seq<u8>)
    requires
        0 <= stage < stage_count(js) <= 2,
    ensures
        reported(js, s, stage, chunk) matches Some(p) ==> p <= FULL,
{
    lemma_stage_fraction_bound(js.style, s.total_ms, chunk, js.marker@);
    if let Some(f) = stage_fraction(js.style, s.total_ms, chunk, js.marker@) {
        if stage_count(js) == 1 {
            assert(rebase(stage, 1, f as int) == f);
        } else {
            assert(rebase(stage, 2, f as int) <= FULL);
        }
    }
}

/// Every step keeps the job invariant.
pub proof fn lemma_step_keeps_invariant(js: JobSpec, s: JobState, e: Event)
    requires
        job_inv(js, s),
    ensures
        job_inv(js, step_spec(js, s, e).0),
{
    if let Phase::Running { stage } = s.phase {
        if let Event::Output(chunk) = e {
            lemma_reported_bound(js, s, stage as int, chunk@);
        }
    }
}

/// A step publishes an outcome exactly when it ends the job, and the job's final
/// phase records that outcome.
pub proof fn lemma_step_finishes(js: JobSpec, s: JobState, e: Event)
    requires
        job_inv(js, s),
    ensures
        ({
            let (t, a) = step_spec(js, s, e);
            &&& (a is Finish) <==> (!is_finished(s) && is_finished(t))
            &&& a matches Action::Finish { outcome, .. } ==> t.phase == (Phase::Finished { outcome })
            &&& is_finished(s) ==> t == s && a == Action::Continue
            &&& a is Spawn ==> t.spawned == s.spawned + 1
            &&& !(a is Spawn) ==> t.spawned == s.spawned
        }),
{
}

/// A finished job stays as it is and does nothing more.
pub proof fn lemma_finished_is_final(js: JobSpec, s: JobState, evs: Seq<Event>)
    requires
        is_finished(s),
    ensures
        run(js, s, evs).0 == s,
        outcomes(run(js, s, evs).1) == Seq::<Outcome>::empty(),
        spawns(run(js, s, evs).1) == 0,
        reports(run(js, s, evs).1) == Seq::<u64>::empty(),
    decreases evs.len(),
{
    if evs.len() > 0 {
        let acts = run(js, s, evs).1;
        lemma_finished_is_final(js, s, evs.drop_first());
        assert(acts.drop_first() =~= run(js, s, evs.drop_first()).1);
    }
}

/// Exactly one outcome per job: a run publishes at most one outcome, and one
/// precisely when it takes an unfinished job to its end, the outcome its final
/// phase records.
pub proof fn lemma_single_outcome(js: JobSpec, s: JobState, evs: Seq<Event>)
    requires
        job_inv(js, s),
    ensures
        outcomes(run(js, s, evs).1).len() <= 1,
        is_finished(s) ==> outcomes(run(js, s, evs).1).len() == 0,
        !is_finished(s) ==> (is_finished(run(js, s, evs).0) <==> outcomes(run(js, s, evs).1).len()
            == 1),
        !is_finished(s) && is_finished(run(js, s, evs).0) ==> run(js, s, evs).0.phase == (
        Phase::Finished { outcome: outcomes(run(js, s, evs).1)[0] }),
    decreases evs.len(),
{
    if evs.len() == 0 {
        return;
    }
    let (t, a) = step_spec(js, s, evs[0]);
    let acts = run(js, s, evs).1;
    lemma_step_finishes(js, s, evs[0]);
    assert(acts[0] == a);
    assert(acts.drop_first() =~= run(js, t, evs.drop_first()).1);
    if is_finished(t) {
        lemma_finished_is_final(js, t, evs.drop_first());
    } else {
        lemma_step_keeps_invariant(js, s, evs[0]);
        lemma_single_outcome(js, t, evs.drop_first());
    }
}

/// Once the last stage's process exits with success, the job publishes exactly one
/// outcome, `Success`, whatever follows.
pub proof fn lemma_success_exit(js: JobSpec, s: JobState, stage: usize, rest: Seq<Event>)
    requires
        job_inv(js, s),
        s.phase == (Phase::Running { stage }),
        stage + 1 == stage_count(js),
    ensures
        outcomes(run(js, s, seq![Event::Exited { success: true }] + rest).1) == seq![
            Outcome::Success,
        ],
{
    let e = Event::Exited { success: true };
    let (t, a) = step_spec(js, s, e);
    lemma_run_cons(js, s, e, rest);
    lemma_finished_is_final(js, t, rest);
    let acts = run(js, s, seq![e] + rest).1;
    assert(acts.drop_first() =~= run(js, t, rest).1);
}

/// Whatever events a job takes from its start, once it publishes `Success` that is
/// the only outcome it publishes: no failure and no cancellation besides.
pub proof fn lemma_success_is_sole_outcome(js: JobSpec, evs: Seq<Event>)
    requires
        1 <= stage_count(js) <= 2,
    ensures
        outcomes(run(js, initial_state(), evs).1).contains(Outcome::Success) ==> outcomes(
            run(js, initial_state(), evs).1,
        ) == seq![Outcome::Success],
{
    let o = outcomes(run(js, initial_state(), evs).1);
    lemma_single_outcome(js, initial_state(), evs);
    if o.contains(Outcome::Success) {
        assert(o =~= seq![Outcome::Success]);
    }
}

/// A cancellation while a stage runs ends the job at once: the process is killed,
/// the outcome is `Cancelled` and the only one, and no process is spawned after it.
pub proof fn lemma_cancel_while_running(js: JobSpec, s: JobState, stage: usize, rest: Seq<Event>)
    requires
        job_inv(js, s),
        s.phase == (Phase::Running { stage }),
    ensures
        ({
            let (u, acts) = run(js, s, seq![Event::CancelRequested] + rest);
            &&& acts[0] == (Action::Finish { outcome: Outcome::Cancelled, kill: true })
            &&& outcomes(acts) == seq![Outcome::Cancelled]
            &&& spawns(acts) == 0
            &&& u.spawned == s.spawned
            &&& stage_state(u, stage as int) == StageState::Killed
        }),
{
    let e = Event::CancelRequested;
    let (t, a) = step_spec(js, s, e);
    lemma_run_cons(js, s, e, rest);
    lemma_finished_is_final(js, t, rest);
    let acts = run(js, s, seq![e] + rest).1;
    assert(acts.drop_first() =~= run(js, t, rest).1);
}

/// In a two-stage job, when the first stage fails to start, fails, or is lost, the
/// second stage is never spawned: one process in all, and the second stays pending.
pub proof fn lemma_failed_first_stage(js: JobSpec, s: JobState, e: Event, rest: Seq<Event>)
    requires
        job_inv(js, s),
        stage_count(js) == 2,
        s.phase == (Phase::Running { stage: 0 }),
        e == (Event::Exited { success: false }) || (e is SpawnFailed) || (e is WaitFailed),
    ensures
        ({
            let (u, acts) = run(js, s, seq![e] + rest);
            &&& spawns(acts) == 0
            &&& u.spawned == 1
            &&& u.second == StageState::Pending
            &&& outcomes(acts).len() == 1
            &&& (outcomes(acts)[0] is Failure)
        }),
{
    let (t, a) = step_spec(js, s, e);
    lemma_run_cons(js, s, e, rest);
    lemma_finished_is_final(js, t, rest);
    let acts = run(js, s, seq![e] + rest).1;
    assert(acts.drop_first() =~= run(js, t, rest).1);
}

/// Feeding the same output chunk twice changes nothing the second time: the state
/// after both is the state after the first, and both give the same action.
pub proof fn lemma_same_chunk_twice(js: JobSpec, s: JobState, chunk: Vec<u8>)
    requires
        job_inv(js, s),
    ensures
        ({
            let e = Event::Output(chunk);
            let (t, a) = step_spec(js, s, e);
            step_spec(js, t, e) == (t, a)
        }),
{
}

/// A job that needs the media duration, given probe text without a `Duration:`
/// label, fails with `ProbeFailure` and spawns no process, whatever follows.
pub proof fn lemma_probe_without_label(js: JobSpec, text: Vec<u8>, rest: Seq<Event>)
    requires
        1 <= stage_count(js) <= 2,
        needs_probe(js),
        first_match(text@, duration_label()) is None,
    ensures
        ({
            let (u, acts) = run(js, initial_state(), seq![Event::Start, Event::Probed(text)] + rest);
            &&& outcomes(acts) == seq![Outcome::Failure(FailureReason::ProbeFailure)]
            &&& spawns(acts) == 0
            &&& u.spawned == 0
        }),
{
    let s = initial_state();
    let (t1, a1) = step_spec(js, s, Event::Start);
    let (t2, a2) = step_spec(js, t1, Event::Probed(text));
    assert(probe_duration(text@) is None);
    let evs = seq![Event::Start, Event::Probed(text)] + rest;
    lemma_run_cons(js, s, Event::Start, seq![Event::Probed(text)] + rest);
    assert(evs =~= seq![Event::Start] + (seq![Event::Probed(text)] + rest));
    lemma_run_cons(js, t1, Event::Probed(text), rest);
    lemma_finished_is_final(js, t2, rest);
    let acts1 = run(js, t1, seq![Event::Probed(text)] + rest).1;
    assert(acts1.drop_first() =~= run(js, t2, rest).1);
    let acts = run(js, s, evs).1;
    assert(acts.drop_first() =~= acts1);
    assert(acts[0] == Action::Probe);
    assert(outcomes(acts) == outcomes(acts1));
    assert(outcomes(acts1) =~= seq![Outcome::Failure(FailureReason::ProbeFailure)]);
    assert(spawns(acts1) == 0);
    assert(spawns(acts) == 0);
    assert(run(js, s, evs).0 == t2);
}

/// The progress a job publishes never goes down and never leaves `[0, FULL]`: each
/// value is at least the last one published before the run.
pub proof fn lemma_reports_in_order(js: JobSpec, s: JobState, evs: Seq<Event>)
    requires
        job_inv(js, s),
    ensures
        ({
            let r = reports(run(js, s, evs).1);
            &&& forall|i: int| 0 <= i < r.len() ==> s.last_ppm <= #[trigger] r[i] <= FULL
            &&& forall|i: int, j: int| 0 <= i < j < r.len() ==> r[i] <= r[j]
        }),
    decreases evs.len(),
{
    if evs.len() == 0 {
        return;
    }
    let (t, a) = step_spec(js, s, evs[0]);
    let acts = run(js, s, evs).1;
    let tail = run(js, t, evs.drop_first()).1;
    assert(acts[0] == a);
    assert(acts.drop_first() =~= tail);
    lemma_step_keeps_invariant(js, s, evs[0]);
    lemma_reports_in_order(js, t, evs.drop_first());
    assert(s.last_ppm <= t.last_ppm);
    if let Action::Report { ppm } = a {
        assert(t.last_ppm == ppm);
        assert(reports(acts) == seq![ppm] + reports(tail));
    } else {
        assert(reports(acts) == reports(tail));
    }
}

} // verus!
