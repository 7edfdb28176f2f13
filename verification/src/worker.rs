//! The per-worker search state machine.
//!
//! Each worker loops through {generate a candidate, test it, look at the
//! shared stop signal} and the coordinator spawns one such worker per
//! processing unit. The decisions a worker takes are pure: given its control
//! state, whether the fresh candidate matched, and whether the stop signal
//! was seen set, [`worker_step`] returns the next control state and the
//! action the worker must perform. The surrounding loop (threads, the shared
//! atomic flag, the result channel) only carries these decisions out.

use vstd::prelude::*;

verus! {

/// The control state of one search worker.
#[derive(Clone, Copy, PartialEq, Eq, Structural, Debug)]
pub enum WorkerState {
    /// Generating and testing candidates.
    Searching,
    /// Holds a matching candidate found while the stop signal was still
    /// clear; about to set the signal and publish the candidate.
    Reporting,
    /// Finished: generates no further candidates and never publishes.
    Terminated,
}

/// What a worker must do next, as decided by one step of the state machine.
#[derive(Clone, Copy, PartialEq, Eq, Structural, Debug)]
pub enum WorkerAction {
    /// Generate and test one more candidate.
    Continue,
    /// Take the current candidate to the reporting step without generating
    /// another one.
    Proceed,
    /// First set the shared stop signal, then publish the held candidate;
    /// the signal write is sequenced before the publish.
    SetStopAndPublish,
    /// Exit without publishing, discarding any candidate in flight.
    Exit,
}

/// The successor control state: a searching worker moves to `Reporting`
/// exactly when its candidate matched and the stop signal was still clear;
/// a reporting worker always terminates after its one publish; termination
/// is final.
pub open spec fn spec_worker_next(
    state: WorkerState,
    candidate_matches: bool,
    stop_seen: bool,
) -> WorkerState {
    match state {
        WorkerState::Searching => if candidate_matches && !stop_seen {
            WorkerState::Reporting
        } else if stop_seen {
            WorkerState::Terminated
        } else {
            WorkerState::Searching
        },
        WorkerState::Reporting => WorkerState::Terminated,
        WorkerState::Terminated => WorkerState::Terminated,
    }
}

/// The action taken together with [`spec_worker_next`]: only the reporting
/// step publishes, and a worker that sees the stop signal while searching
/// exits without publishing.
pub open spec fn spec_worker_action(
    state: WorkerState,
    candidate_matches: bool,
    stop_seen: bool,
) -> WorkerAction {
    match state {
        WorkerState::Searching => if candidate_matches && !stop_seen {
            WorkerAction::Proceed
        } else if stop_seen {
            WorkerAction::Exit
        } else {
            WorkerAction::Continue
        },
        WorkerState::Reporting => WorkerAction::SetStopAndPublish,
        WorkerState::Terminated => WorkerAction::Exit,
    }
}

/// One decision step of a worker: from its control state, whether the fresh
/// candidate matched the pattern set, and whether the shared stop signal was
/// observed set, compute the next control state and the action to perform.
pub fn worker_step(state: WorkerState, candidate_matches: bool, stop_seen: bool) -> (r: (
    WorkerState,
    WorkerAction,
))
    ensures
        r.0 == spec_worker_next(state, candidate_matches, stop_seen),
        r.1 == spec_worker_action(state, candidate_matches, stop_seen),
{
    match state {
        WorkerState::Searching => if candidate_matches && !stop_seen {
            (WorkerState::Reporting, WorkerAction::Proceed)
        } else if stop_seen {
            (WorkerState::Terminated, WorkerAction::Exit)
        } else {
            (WorkerState::Searching, WorkerAction::Continue)
        },
        WorkerState::Reporting => (WorkerState::Terminated, WorkerAction::SetStopAndPublish),
        WorkerState::Terminated => (WorkerState::Terminated, WorkerAction::Exit),
    }
}

/// A publish is decided only in the `Reporting` state, and `Reporting` is
/// entered only from `Searching`, on a matching candidate, while the stop
/// signal was still clear.
pub proof fn lemma_publish_only_after_clear_stop_match(
    state: WorkerState,
    candidate_matches: bool,
    stop_seen: bool,
)
    ensures
        spec_worker_action(state, candidate_matches, stop_seen)
            == WorkerAction::SetStopAndPublish ==> state is Reporting,
        spec_worker_next(state, candidate_matches, stop_seen) is Reporting ==> state is Searching
            && candidate_matches && !stop_seen,
{
}

/// Once the stop signal is set, a searching worker terminates on its very
/// next step and never publishes: no new result can reach the caller-visible
/// result path from a worker that had not already committed to reporting.
pub proof fn lemma_stop_propagation(state: WorkerState, candidate_matches: bool)
    requires
        state is Searching,
    ensures
        spec_worker_next(state, candidate_matches, true) is Terminated,
        spec_worker_action(state, candidate_matches, true) == WorkerAction::Exit,
{
}

/// One whole search session, seen at the level of the worker state
/// machine: the control state of every worker, the shared stop signal, and
/// how many results have been published to the result channel so far.
pub struct SessionState {
    /// The control state of each worker.
    pub workers: Seq<WorkerState>,
    /// The shared stop signal.
    pub stop: bool,
    /// How many results workers have published so far.
    pub published: nat,
}

/// A session starts with `n` searching workers, the stop signal clear, and
/// nothing published.
pub open spec fn session_init(n: nat) -> SessionState {
    SessionState { workers: Seq::new(n, |i: int| WorkerState::Searching), stop: false, published: 0 }
}

/// One scheduled step of a session: worker `w` takes one step of the state
/// machine, with `candidate_matches` the outcome of its candidate test and
/// the current stop signal as what it observes. A `SetStopAndPublish`
/// action sets the signal and adds one published result.
pub open spec fn session_step(s: SessionState, w: int, candidate_matches: bool) -> SessionState {
    let action = spec_worker_action(s.workers[w], candidate_matches, s.stop);
    SessionState {
        workers: s.workers.update(w, spec_worker_next(s.workers[w], candidate_matches, s.stop)),
        stop: s.stop || action == WorkerAction::SetStopAndPublish,
        published: if action == WorkerAction::SetStopAndPublish {
            s.published + 1
        } else {
            s.published
        },
    }
}

/// A schedule is any interleaving the threads may take: at each point, which
/// worker steps, and whether its candidate matched. It is valid for `n`
/// workers when every pick names one of them.
pub open spec fn valid_schedule(n: nat, sched: Seq<(int, bool)>) -> bool {
    forall|k: int| 0 <= k < sched.len() ==> 0 <= (#[trigger] sched[k]).0 < n
}

/// The session after running a whole schedule, step by step.
pub open spec fn session_run(s: SessionState, sched: Seq<(int, bool)>) -> SessionState
    decreases sched.len(),
{
    if sched.len() == 0 {
        s
    } else {
        session_run(session_step(s, sched[0].0, sched[0].1), sched.subrange(1, sched.len() as int))
    }
}

/// How many workers have committed to reporting but not yet published.
pub open spec fn count_reporting(workers: Seq<WorkerState>) -> nat
    decreases workers.len(),
{
    if workers.len() == 0 {
        0
    } else {
        count_reporting(workers.drop_last()) + if workers.last() is Reporting {
            1nat
        } else {
            0nat
        }
    }
}

proof fn lemma_count_reporting_update(workers: Seq<WorkerState>, i: int, v: WorkerState)
    requires
        0 <= i < workers.len(),
    ensures
        count_reporting(workers.update(i, v)) + (if workers[i] is Reporting {
            1nat
        } else {
            0nat
        }) == count_reporting(workers) + (if v is Reporting {
            1nat
        } else {
            0nat
        }),
    decreases workers.len(),
{
    let updated = workers.update(i, v);
    if i == workers.len() - 1 {
        assert(updated.drop_last() =~= workers.drop_last());
    } else {
        assert(updated.drop_last() =~= workers.drop_last().update(i, v));
        lemma_count_reporting_update(workers.drop_last(), i, v);
    }
}

/// The stop signal is monotone: no step of any worker ever clears it
/// within a session.
pub proof fn lemma_stop_monotone(s: SessionState, w: int, candidate_matches: bool)
    ensures
        s.stop ==> session_step(s, w, candidate_matches).stop,
{
}

/// The stop signal stays set for the rest of the session, under any
/// schedule.
pub proof fn lemma_stop_stays_set(s: SessionState, sched: Seq<(int, bool)>)
    requires
        s.stop,
    ensures
        session_run(s, sched).stop,
    decreases sched.len(),
{
    if sched.len() > 0 {
        lemma_stop_stays_set(
            session_step(s, sched[0].0, sched[0].1),
            sched.subrange(1, sched.len() as int),
        );
    }
}

/// A step publishes exactly when the stepped worker had already committed
/// to reporting; searching and terminated workers never publish.
pub proof fn lemma_publish_needs_reporting(s: SessionState, w: int, candidate_matches: bool)
    requires
        0 <= w < s.workers.len(),
    ensures
        session_step(s, w, candidate_matches).published == s.published + (
        if s.workers[w] is Reporting {
            1nat
        } else {
            0nat
        }),
{
}

/// A published result is never observed with the stop signal still clear:
/// the winning worker's signal write is sequenced before its publish, so
/// in every reachable session the channel is non-empty only once the
/// signal is set. This is what lets the coordinator consume exactly one
/// result and rely on every other worker terminating.
pub proof fn lemma_result_implies_stop(s: SessionState, sched: Seq<(int, bool)>)
    requires
        s.published > 0 ==> s.stop,
    ensures
        session_run(s, sched).published > 0 ==> session_run(s, sched).stop,
    decreases sched.len(),
{
    if sched.len() > 0 {
        lemma_result_implies_stop(
            session_step(s, sched[0].0, sched[0].1),
            sched.subrange(1, sched.len() as int),
        );
    }
}

/// The same, anchored at the start of a session: in every session reached
/// from `n` freshly spawned workers, under any schedule, a published
/// result is only ever seen with the stop signal set.
pub proof fn lemma_init_result_implies_stop(n: nat, sched: Seq<(int, bool)>)
    ensures
        session_run(session_init(n), sched).published > 0 ==> session_run(
            session_init(n),
            sched,
        ).stop,
{
    lemma_result_implies_stop(session_init(n), sched);
}

/// Stop propagation over a whole session: once the stop signal is set, the
/// only results that can still reach the result channel are those of
/// workers that had already committed to reporting. However long the
/// session keeps being scheduled, the number of published results grows by
/// at most the number of committed reporters.
pub proof fn lemma_stop_bounds_publishes(s: SessionState, sched: Seq<(int, bool)>)
    requires
        s.stop,
        valid_schedule(s.workers.len() as nat, sched),
    ensures
        session_run(s, sched).published + count_reporting(session_run(s, sched).workers)
            <= s.published + count_reporting(s.workers),
        session_run(s, sched).published <= s.published + count_reporting(s.workers),
    decreases sched.len(),
{
    if sched.len() > 0 {
        let w = sched[0].0;
        let s1 = session_step(s, w, sched[0].1);
        lemma_count_reporting_update(
            s.workers,
            w,
            spec_worker_next(s.workers[w], sched[0].1, s.stop),
        );
        assert(s1.workers.len() == s.workers.len());
        let tail = sched.subrange(1, sched.len() as int);
        assert(valid_schedule(s1.workers.len() as nat, tail)) by {
            assert forall|k: int| 0 <= k < tail.len() implies 0 <= (#[trigger] tail[k]).0
                < s1.workers.len() by {
                assert(tail[k] == sched[k + 1]);
            }
        }
        lemma_stop_bounds_publishes(s1, tail);
    }
}

} // verus!
