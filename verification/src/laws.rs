//! What holds of every run of a polling loop.

use vstd::prelude::*;
use crate::job::{FetchErrorView, JobKind, JobStatusView, Observed, StageResultView};
use crate::poll::{LoopView, PollErrorView, PollPolicy, decides, default_failure, remote_failure, verdict_of};
use crate::replay::{Trace, lemma_budget_spent_times_out, lemma_deciding_observation_ends, lemma_fetches_stay_in_budget, published, run};

verus! {

/// A sequence of failed status checks, as observations.
pub open spec fn failed_checks(errors: Seq<FetchErrorView>) -> Seq<Observed> {
    Seq::new(errors.len(), |i: int| Err(errors[i]))
}

/// Failed status checks publish no progress.
pub proof fn lemma_failed_checks_publish_nothing(errors: Seq<FetchErrorView>)
    ensures
        published(failed_checks(errors)) == Seq::<u32>::empty(),
    decreases errors.len(),
{
    let obs = failed_checks(errors);
    if errors.len() > 0 {
        assert(obs.skip(1) =~= failed_checks(errors.skip(1)));
        lemma_failed_checks_publish_nothing(errors.skip(1));
        assert(published(obs) =~= Seq::<u32>::empty());
    }
}

/// A job seen to have succeeded ends the loop with its result: the status check
/// that saw it is the last one made, whatever a later check would have shown,
/// and the percentages published are those of the checks before it.
pub proof fn law_success_ends_with_result(
    kind: JobKind,
    handle: Seq<char>,
    policy: PollPolicy,
    waiting: Seq<Observed>,
    result: StageResultView,
    later: Seq<Observed>,
)
    requires
        forall|i: int| 0 <= i < waiting.len() ==> !decides(#[trigger] waiting[i]),
        waiting.len() < policy.max_attempts,
    ensures
        run(kind, handle, policy, waiting + seq![Ok(JobStatusView::Succeeded(result))] + later) == (Trace {
            outcome: Some(Ok(result)),
            fetches: waiting.len() + 1,
            progress: published(waiting),
        }),
{
    let fresh = LoopView { kind, handle, policy, fetches: 0 };
    lemma_deciding_observation_ends(fresh, waiting, Ok(JobStatusView::Succeeded(result)), later);
}

/// Transient errors are invisible in the outcome: when fewer of them than the
/// budget allows come before a terminal status, the loop ends as it would have
/// had that status been seen at once, one status check later for each error.
pub proof fn law_transient_errors_are_transparent(
    kind: JobKind,
    handle: Seq<char>,
    policy: PollPolicy,
    errors: Seq<FetchErrorView>,
    terminal: JobStatusView,
    later: Seq<Observed>,
)
    requires
        forall|i: int| 0 <= i < errors.len() ==> (#[trigger] errors[i]).is_transient(),
        errors.len() < policy.max_attempts,
        terminal.is_terminal(),
    ensures
        run(kind, handle, policy, failed_checks(errors) + seq![Ok(terminal)] + later) == (Trace {
            outcome: Some(verdict_of(kind, handle, Ok(terminal))),
            fetches: errors.len() + 1,
            progress: Seq::empty(),
        }),
        run(kind, handle, policy, failed_checks(errors) + seq![Ok(terminal)] + later).outcome == run(
            kind,
            handle,
            policy,
            seq![Ok(terminal)] + later,
        ).outcome,
{
    let fresh = LoopView { kind, handle, policy, fetches: 0 };
    let waiting = failed_checks(errors);
    assert forall|i: int| 0 <= i < waiting.len() implies !decides(#[trigger] waiting[i]) by {
        assert(errors[i].is_transient());
    }
    lemma_failed_checks_publish_nothing(errors);
    lemma_deciding_observation_ends(fresh, waiting, Ok(terminal), later);
    let none = Seq::<Observed>::empty();
    lemma_deciding_observation_ends(fresh, none, Ok(terminal), later);
    assert(none + seq![Ok(terminal)] + later =~= seq![Ok(terminal)] + later);
}

/// Transient errors count against the budget: when at least as many of them as
/// the budget allows come in a row, the loop times out after exactly as many
/// status checks as the budget holds.
pub proof fn law_persistent_errors_time_out(
    kind: JobKind,
    handle: Seq<char>,
    policy: PollPolicy,
    errors: Seq<FetchErrorView>,
)
    requires
        forall|i: int| 0 <= i < errors.len() ==> (#[trigger] errors[i]).is_transient(),
        errors.len() >= policy.max_attempts,
    ensures
        run(kind, handle, policy, failed_checks(errors)).outcome == Some(
            Err::<StageResultView, PollErrorView>(PollErrorView::Timeout { kind, handle }),
        ),
        run(kind, handle, policy, failed_checks(errors)).fetches == policy.max_attempts,
{
    let fresh = LoopView { kind, handle, policy, fetches: 0 };
    let obs = failed_checks(errors);
    if policy.max_attempts > 0 {
        assert forall|i: int| 0 <= i < obs.len() implies !decides(#[trigger] obs[i]) by {
            assert(errors[i].is_transient());
        }
        lemma_budget_spent_times_out(fresh, obs);
    }
}

/// The message that a failed or canceled job is reported with: the one made
/// from the service's own where it sent one, else the default for the job.
pub open spec fn failure_text(kind: JobKind, handle: Seq<char>, status: JobStatusView) -> Seq<char> {
    match status {
        JobStatusView::Failed(Some(m)) => remote_failure(kind, m),
        _ => default_failure(kind, handle),
    }
}

/// A failed or canceled job is terminal: the status check that saw it is the
/// last one made, and the loop ends in an error whose message holds the
/// service's own where it sent one, and is the default message otherwise.
pub proof fn law_failure_is_terminal(
    kind: JobKind,
    handle: Seq<char>,
    policy: PollPolicy,
    waiting: Seq<Observed>,
    status: JobStatusView,
    later: Seq<Observed>,
)
    requires
        forall|i: int| 0 <= i < waiting.len() ==> !decides(#[trigger] waiting[i]),
        waiting.len() < policy.max_attempts,
        status is Failed || status is Canceled,
    ensures
        run(kind, handle, policy, waiting + seq![Ok(status)] + later) == (Trace {
            outcome: Some(Err(PollErrorView::TerminalFailure(failure_text(kind, handle, status)))),
            fetches: waiting.len() + 1,
            progress: published(waiting),
        }),
{
    let fresh = LoopView { kind, handle, policy, fetches: 0 };
    lemma_deciding_observation_ends(fresh, waiting, Ok(status), later);
}

/// Whatever the status checks show, a loop makes no more of them than its
/// budget holds, and none that it was not given; while it has not ended, it
/// has read all that it was given.
pub proof fn law_budget_is_never_exceeded(kind: JobKind, handle: Seq<char>, policy: PollPolicy, obs: Seq<Observed>)
    ensures
        run(kind, handle, policy, obs).fetches <= policy.max_attempts,
        run(kind, handle, policy, obs).fetches <= obs.len(),
        run(kind, handle, policy, obs).outcome is None ==> run(kind, handle, policy, obs).fetches == obs.len(),
{
    let fresh = LoopView { kind, handle, policy, fetches: 0 };
    lemma_fetches_stay_in_budget(fresh, obs);
}

} // verus!
