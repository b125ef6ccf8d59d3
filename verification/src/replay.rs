//! A polling loop run over a recorded sequence of status checks, and what holds
//! of every such run.

use vstd::prelude::*;
use crate::job::{FetchError, JobKind, JobStatus, Observed, StageResult, observed};
use crate::poll::{LoopView, PollError, PollLoop, PollPolicy, PollTurn, TurnView, Verdict, decides, notice, verdict_of, verdict_view};

verus! {

/// What a run of a polling loop amounts to.
pub ghost struct Trace {
    /// How polling ended, or nothing while the job is still being watched.
    pub outcome: Option<Verdict>,
    /// Status checks made.
    pub fetches: nat,
    /// Percentages published, in order.
    pub progress: Seq<u32>,
}

pub open spec fn notices(n: Option<u32>) -> Seq<u32> {
    match n {
        Some(p) => seq![p],
        None => Seq::empty(),
    }
}

/// The percentages published for a sequence of observations none of which
/// ends the loop.
pub open spec fn published(obs: Seq<Observed>) -> Seq<u32>
    decreases obs.len(),
{
    if obs.len() == 0 {
        Seq::empty()
    } else {
        notices(notice(obs[0])) + published(obs.skip(1))
    }
}

/// The run of a loop in state `state` over the observations `obs`, each read
/// only if the loop has not ended before it.
pub open spec fn run_from(state: LoopView, obs: Seq<Observed>) -> Trace
    decreases obs.len(),
{
    if obs.len() == 0 {
        Trace { outcome: None, fetches: state.fetches as nat, progress: Seq::empty() }
    } else {
        match state.observe(obs[0]) {
            TurnView::Done { notify, fetches, outcome } => Trace {
                outcome: Some(outcome),
                fetches: fetches as nat,
                progress: notices(notify),
            },
            TurnView::Again { state: next, notify, wait_secs } => {
                let rest = run_from(next, obs.skip(1));
                Trace { outcome: rest.outcome, fetches: rest.fetches, progress: notices(notify) + rest.progress }
            },
        }
    }
}

/// The run of a fresh loop over the observations `obs`.
pub open spec fn run(kind: JobKind, handle: Seq<char>, policy: PollPolicy, obs: Seq<Observed>) -> Trace {
    match LoopView::begin(kind, handle, policy) {
        TurnView::Done { notify, fetches, outcome } => Trace {
            outcome: Some(outcome),
            fetches: fetches as nat,
            progress: Seq::empty(),
        },
        TurnView::Again { state, notify, wait_secs } => run_from(state, obs),
    }
}

/// The views of recorded status checks.
pub open spec fn observations(record: Seq<Result<JobStatus, FetchError>>) -> Seq<Observed> {
    Seq::new(record.len(), |i: int| observed(record[i]))
}

/// The result of replaying a loop over recorded status checks.
#[derive(Debug, PartialEq, Eq)]
pub struct PollReport {
    /// How polling ended; `None` when the record ran out first.
    pub outcome: Option<Result<StageResult, PollError>>,
    /// Status checks made.
    pub fetches: u32,
    /// Percentages published, in order.
    pub progress: Vec<u32>,
}

impl View for PollReport {
    type V = Trace;

    open spec fn view(&self) -> Trace {
        Trace {
            outcome: match self.outcome {
                Some(r) => Some(verdict_view(r)),
                None => None,
            },
            fetches: self.fetches as nat,
            progress: self.progress@,
        }
    }
}

fn publish(progress: &mut Vec<u32>, notify: Option<u32>)
    ensures
        final(progress)@ == old(progress)@ + notices(notify),
{
    match notify {
        Some(p) => {
            progress.push(p);
            assert(progress@ =~= old(progress)@ + notices(notify));
        },
        None => {
            assert(progress@ =~= old(progress)@ + notices(notify));
        },
    }
}

/// Runs a fresh polling loop over recorded status checks, reading each one only
/// while the loop has not ended, and reports the outcome, the number of status
/// checks made and the percentages published.
pub fn replay(kind: JobKind, handle: String, policy: PollPolicy, record: &Vec<Result<JobStatus, FetchError>>) -> (report: PollReport)
    ensures
        report@ == run(kind, handle@, policy, observations(record@)),
{
    let ghost obs = observations(record@);
    let ghost whole = run(kind, handle@, policy, obs);
    let mut progress: Vec<u32> = Vec::new();
    match PollLoop::begin(kind, handle, policy) {
        PollTurn::Done { notify, fetches, outcome } => PollReport { outcome: Some(outcome), fetches, progress },
        PollTurn::Again { state, notify, wait_secs } => {
            let ghost start = state@;
            let mut cur = state;
            let mut i: usize = 0;
            assert(obs.skip(0) =~= obs);
            while i < record.len()
                invariant
                    i <= record.len(),
                    obs == observations(record@),
                    whole == run_from(start, obs),
                    whole == run(kind, handle@, policy, observations(record@)),
                    run_from(start, obs).outcome == run_from(cur@, obs.skip(i as int)).outcome,
                    run_from(start, obs).fetches == run_from(cur@, obs.skip(i as int)).fetches,
                    run_from(start, obs).progress == progress@ + run_from(cur@, obs.skip(i as int)).progress,
                decreases record.len() - i,
            {
                let ghost before = cur@;
                let ghost tail = obs.skip(i as int);
                assert(tail.len() > 0);
                assert(tail[0] == observed(record@[i as int]));
                assert(tail.skip(1) =~= obs.skip(i + 1));
                match cur.observe(&record[i]) {
                    PollTurn::Done { notify, fetches, outcome } => {
                        publish(&mut progress, notify);
                        return PollReport { outcome: Some(outcome), fetches, progress };
                    },
                    PollTurn::Again { state: next, notify, wait_secs } => {
                        let ghost rest = run_from(next@, obs.skip(i + 1));
                        assert(run_from(before, tail).progress == notices(notify) + rest.progress);
                        assert((progress@ + notices(notify)) + rest.progress =~= progress@ + (notices(notify)
                            + rest.progress));
                        publish(&mut progress, notify);
                        cur = next;
                    },
                }
                i += 1;
            }
            assert(obs.skip(i as int).len() == 0);
            assert(progress@ + Seq::<u32>::empty() =~= progress@);
            PollReport { outcome: None, fetches: cur.fetches, progress }
        },
    }
}

/// A deciding observation ends the loop. After status checks that did not
/// decide, and that left room in the budget, the first deciding observation
/// gives the outcome; it is the last status check made, whatever the record
/// holds after it.
pub proof fn lemma_deciding_observation_ends(state: LoopView, waiting: Seq<Observed>, last: Observed, later: Seq<Observed>)
    requires
        forall|i: int| 0 <= i < waiting.len() ==> !decides(#[trigger] waiting[i]),
        state.fetches + waiting.len() < state.policy.max_attempts,
        decides(last),
    ensures
        run_from(state, waiting + seq![last] + later) == (Trace {
            outcome: Some(verdict_of(state.kind, state.handle, last)),
            fetches: (state.fetches + waiting.len() + 1) as nat,
            progress: published(waiting),
        }),
    decreases waiting.len(),
{
    let all = waiting + seq![last] + later;
    if waiting.len() == 0 {
        assert(all[0] == last);
        assert(run_from(state, all).progress =~= published(waiting));
    } else {
        assert(all[0] == waiting[0]);
        assert(!decides(waiting[0]));
        let next = LoopView { fetches: (state.fetches + 1) as u32, ..state };
        let rest = waiting.skip(1);
        assert(all.skip(1) =~= rest + seq![last] + later);
        assert forall|i: int| 0 <= i < rest.len() implies !decides(#[trigger] rest[i]) by {
            assert(rest[i] == waiting[i + 1]);
        }
        lemma_deciding_observation_ends(next, rest, last, later);
    }
}

/// Status checks that never decide use up the budget: the loop times out at the
/// check that spends the last attempt, and reads nothing after it.
pub proof fn lemma_budget_spent_times_out(state: LoopView, obs: Seq<Observed>)
    requires
        forall|i: int| 0 <= i < obs.len() ==> !decides(#[trigger] obs[i]),
        state.fetches < state.policy.max_attempts,
        state.fetches + obs.len() >= state.policy.max_attempts,
    ensures
        run_from(state, obs).outcome == Some(state.timeout()),
        run_from(state, obs).fetches == state.policy.max_attempts,
    decreases obs.len(),
{
    assert(!decides(obs[0]));
    if state.fetches + 1 < state.policy.max_attempts {
        let next = LoopView { fetches: (state.fetches + 1) as u32, ..state };
        let rest = obs.skip(1);
        assert forall|i: int| 0 <= i < rest.len() implies !decides(#[trigger] rest[i]) by {
            assert(rest[i] == obs[i + 1]);
        }
        lemma_budget_spent_times_out(next, rest);
    }
}

/// A loop never makes more status checks than it has made already or its
/// budget allows, and while it has not ended it has read every observation.
pub proof fn lemma_fetches_stay_in_budget(state: LoopView, obs: Seq<Observed>)
    ensures
        run_from(state, obs).fetches <= state.fetches || run_from(state, obs).fetches
            <= state.policy.max_attempts,
        run_from(state, obs).fetches <= state.fetches + obs.len(),
        run_from(state, obs).outcome is None ==> run_from(state, obs).fetches == state.fetches + obs.len(),
    decreases obs.len(),
{
    if obs.len() > 0 {
        match state.observe(obs[0]) {
            TurnView::Done { .. } => {},
            TurnView::Again { state: next, .. } => {
                lemma_fetches_stay_in_budget(next, obs.skip(1));
            },
        }
    }
}

} // verus!
