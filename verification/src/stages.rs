//! The polling of each job kind over recorded answers of its status endpoint:
//! every answer is read by the kind's adapter and handed to the kind's loop.

use vstd::prelude::*;
use crate::job::{AnimationTaskStatusResponse, FetchError, JobKind, JobStatus, Observed, StageResultView, TaskStatusResponse, animation_status, mesh_status, observed, rigging_status};
use crate::poll::{LoopView, PollErrorView, PollPolicy, copy_fetch_error, notice, policy_for};
use crate::replay::{PollReport, Trace, lemma_deciding_observation_ends, observations, replay, run};

verus! {

/// The policy of a job kind.
pub open spec fn kind_policy(kind: JobKind) -> PollPolicy {
    PollPolicy { interval_secs: if kind == JobKind::Mesh { 5 } else { 10 }, max_attempts: 120 }
}

/// What an answer to a status check of a mesh or rigging job comes to: the
/// status read by the kind's adapter, or the error of the check itself.
pub open spec fn task_observation(kind: JobKind, answer: Result<TaskStatusResponse, FetchError>) -> Observed {
    match answer {
        Ok(resp) => if kind == JobKind::Mesh {
            resp.mesh_status()
        } else {
            resp.rigging_status()
        },
        Err(e) => Err(e@),
    }
}

pub open spec fn task_observations(kind: JobKind, answers: Seq<Result<TaskStatusResponse, FetchError>>) -> Seq<
    Observed,
> {
    Seq::new(answers.len(), |i: int| task_observation(kind, answers[i]))
}

/// What an answer to a status check of an animation job comes to.
pub open spec fn animation_observation(answer: Result<AnimationTaskStatusResponse, FetchError>) -> Observed {
    match answer {
        Ok(resp) => resp.animation_status(),
        Err(e) => Err(e@),
    }
}

pub open spec fn animation_observations(answers: Seq<Result<AnimationTaskStatusResponse, FetchError>>) -> Seq<
    Observed,
> {
    Seq::new(answers.len(), |i: int| animation_observation(answers[i]))
}

fn read_task_answers(kind: JobKind, answers: &Vec<Result<TaskStatusResponse, FetchError>>) -> (record: Vec<
    Result<JobStatus, FetchError>,
>)
    ensures
        observations(record@) == task_observations(kind, answers@),
{
    let mut record: Vec<Result<JobStatus, FetchError>> = Vec::new();
    let mut i: usize = 0;
    while i < answers.len()
        invariant
            i <= answers.len(),
            record@.len() == i,
            forall|j: int| 0 <= j < i ==> observed(#[trigger] record@[j]) == task_observation(kind, answers@[j]),
        decreases answers.len() - i,
    {
        let read = match &answers[i] {
            Ok(resp) => match kind {
                JobKind::Mesh => mesh_status(resp),
                _ => rigging_status(resp),
            },
            Err(e) => Err(copy_fetch_error(e)),
        };
        record.push(read);
        i += 1;
    }
    assert(observations(record@) =~= task_observations(kind, answers@));
    record
}

fn read_animation_answers(answers: &Vec<Result<AnimationTaskStatusResponse, FetchError>>) -> (record: Vec<
    Result<JobStatus, FetchError>,
>)
    ensures
        observations(record@) == animation_observations(answers@),
{
    let mut record: Vec<Result<JobStatus, FetchError>> = Vec::new();
    let mut i: usize = 0;
    while i < answers.len()
        invariant
            i <= answers.len(),
            record@.len() == i,
            forall|j: int| 0 <= j < i ==> observed(#[trigger] record@[j]) == animation_observation(answers@[j]),
        decreases answers.len() - i,
    {
        let read = match &answers[i] {
            Ok(resp) => animation_status(resp),
            Err(e) => Err(copy_fetch_error(e)),
        };
        record.push(read);
        i += 1;
    }
    assert(observations(record@) =~= animation_observations(answers@));
    record
}

/// Polls a mesh job over the recorded answers of its status endpoint: every
/// five seconds, at most 120 times, until the mesh's address is there.
pub fn poll_for_glb_url(task_id: String, answers: &Vec<Result<TaskStatusResponse, FetchError>>) -> (report:
    PollReport)
    ensures
        report@ == run(
            JobKind::Mesh,
            task_id@,
            kind_policy(JobKind::Mesh),
            task_observations(JobKind::Mesh, answers@),
        ),
{
    let record = read_task_answers(JobKind::Mesh, answers);
    replay(JobKind::Mesh, task_id, policy_for(JobKind::Mesh), &record)
}

/// Polls a rigging job over the recorded answers of its status endpoint: every
/// ten seconds, at most 120 times, until the rig is done.
pub fn poll_for_rigging_success(task_id: String, answers: &Vec<Result<TaskStatusResponse, FetchError>>) -> (report:
    PollReport)
    ensures
        report@ == run(
            JobKind::Rigging,
            task_id@,
            kind_policy(JobKind::Rigging),
            task_observations(JobKind::Rigging, answers@),
        ),
{
    let record = read_task_answers(JobKind::Rigging, answers);
    replay(JobKind::Rigging, task_id, policy_for(JobKind::Rigging), &record)
}

/// Polls an animation job over the recorded answers of its status endpoint:
/// every ten seconds, at most 120 times, until the animated mesh's address is
/// there.
pub fn poll_for_animation_glb(task_id: String, answers: &Vec<Result<AnimationTaskStatusResponse, FetchError>>) -> (report:
    PollReport)
    ensures
        report@ == run(
            JobKind::Animation,
            task_id@,
            kind_policy(JobKind::Animation),
            animation_observations(answers@),
        ),
{
    let record = read_animation_answers(answers);
    replay(JobKind::Animation, task_id, policy_for(JobKind::Animation), &record)
}

/// A mesh job whose answer says that it succeeded, and holds the mesh's
/// address, is polled no further: the address is the result, after the one
/// status check, whatever a later check would have answered.
pub proof fn law_mesh_address_is_returned(
    task_id: Seq<char>,
    answer: TaskStatusResponse,
    later: Seq<Result<TaskStatusResponse, FetchError>>,
)
    requires
        answer.status@ == "SUCCEEDED"@,
        answer.glb() is Some,
    ensures
        run(
            JobKind::Mesh,
            task_id,
            kind_policy(JobKind::Mesh),
            task_observations(JobKind::Mesh, seq![Ok(answer)] + later),
        ) == (Trace {
            outcome: Some(Ok(StageResultView::Url(answer.glb()->Some_0))),
            fetches: 1,
            progress: Seq::empty(),
        }),
{
    let kind = JobKind::Mesh;
    let fresh = LoopView { kind, handle: task_id, policy: kind_policy(kind), fetches: 0 };
    let first = task_observation(kind, Ok(answer));
    let rest = task_observations(kind, later);
    assert(task_observations(kind, seq![Ok(answer)] + later) =~= Seq::<Observed>::empty() + seq![first] + rest);
    lemma_deciding_observation_ends(fresh, Seq::empty(), first, rest);
}

/// A rigging job whose answer says that it failed, and why, is polled no
/// further: the loop ends in a failure that carries the service's message word
/// for word.
pub proof fn law_rig_failure_message_is_passed_on(
    task_id: Seq<char>,
    answer: TaskStatusResponse,
    later: Seq<Result<TaskStatusResponse, FetchError>>,
)
    requires
        answer.status@ == "FAILED"@,
        answer.failure_message() is Some,
    ensures
        run(
            JobKind::Rigging,
            task_id,
            kind_policy(JobKind::Rigging),
            task_observations(JobKind::Rigging, seq![Ok(answer)] + later),
        ) == (Trace {
            outcome: Some(Err(PollErrorView::TerminalFailure(answer.failure_message()->Some_0))),
            fetches: 1,
            progress: Seq::empty(),
        }),
{
    reveal_strlit("FAILED");
    reveal_strlit("SUCCEEDED");
    assert("FAILED"@.len() == 6);
    assert("SUCCEEDED"@.len() == 9);
    let kind = JobKind::Rigging;
    let fresh = LoopView { kind, handle: task_id, policy: kind_policy(kind), fetches: 0 };
    let first = task_observation(kind, Ok(answer));
    let rest = task_observations(kind, later);
    assert(task_observations(kind, seq![Ok(answer)] + later) =~= Seq::<Observed>::empty() + seq![first] + rest);
    lemma_deciding_observation_ends(fresh, Seq::empty(), first, rest);
}

/// A mesh job whose answer says that it failed is polled no further: the loop
/// ends in a failure whose message is "Meshy Task Failed: " followed by the
/// service's words, or by "Unknown error" where it sent none.
pub proof fn law_mesh_failure_is_reported(
    task_id: Seq<char>,
    answer: TaskStatusResponse,
    later: Seq<Result<TaskStatusResponse, FetchError>>,
)
    requires
        answer.status@ == "FAILED"@,
    ensures
        run(
            JobKind::Mesh,
            task_id,
            kind_policy(JobKind::Mesh),
            task_observations(JobKind::Mesh, seq![Ok(answer)] + later),
        ) == (Trace {
            outcome: Some(
                Err(
                    PollErrorView::TerminalFailure(
                        "Meshy Task Failed: "@ + (match answer.failure_message() {
                            Some(m) => m,
                            None => "Unknown error"@,
                        }),
                    ),
                ),
            ),
            fetches: 1,
            progress: Seq::empty(),
        }),
{
    reveal_strlit("FAILED");
    reveal_strlit("SUCCEEDED");
    assert("FAILED"@.len() == 6);
    assert("SUCCEEDED"@.len() == 9);
    let kind = JobKind::Mesh;
    let fresh = LoopView { kind, handle: task_id, policy: kind_policy(kind), fetches: 0 };
    let first = task_observation(kind, Ok(answer));
    let rest = task_observations(kind, later);
    assert(task_observations(kind, seq![Ok(answer)] + later) =~= Seq::<Observed>::empty() + seq![first] + rest);
    lemma_deciding_observation_ends(fresh, Seq::empty(), first, rest);
}

/// An answer that leaves a job waiting or running publishes the percentage
/// that it carries, whichever of the two it says.
pub proof fn law_waiting_answer_publishes_its_percentage(
    kind: JobKind,
    answer: TaskStatusResponse,
)
    requires
        kind != JobKind::Animation,
        answer.status@ == "PENDING"@ || answer.status@ == "IN_PROGRESS"@,
    ensures
        notice(task_observation(kind, Ok(answer))) == Some(answer.progress),
{
    reveal_strlit("PENDING");
    reveal_strlit("IN_PROGRESS");
    reveal_strlit("FAILED");
    reveal_strlit("SUCCEEDED");
    reveal_strlit("CANCELED");
    assert("PENDING"@.len() == 7);
    assert("IN_PROGRESS"@.len() == 11);
    assert("FAILED"@.len() == 6);
    assert("SUCCEEDED"@.len() == 9);
    assert("CANCELED"@.len() == 8);
    assert("CANCELED"@[0] == 'C');
    assert("PENDING"@[0] == 'P');
}

/// As `law_waiting_answer_publishes_its_percentage`, for an animation job,
/// whose answer may carry no percentage: that counts as zero.
pub proof fn law_waiting_animation_publishes_its_percentage(answer: AnimationTaskStatusResponse)
    requires
        answer.status@ == "PENDING"@ || answer.status@ == "IN_PROGRESS"@,
    ensures
        notice(animation_observation(Ok(answer))) == Some(answer.percentage()),
{
    reveal_strlit("PENDING");
    reveal_strlit("IN_PROGRESS");
    reveal_strlit("FAILED");
    reveal_strlit("SUCCEEDED");
    reveal_strlit("CANCELED");
    assert("PENDING"@.len() == 7);
    assert("IN_PROGRESS"@.len() == 11);
    assert("FAILED"@.len() == 6);
    assert("SUCCEEDED"@.len() == 9);
    assert("CANCELED"@.len() == 8);
    assert("CANCELED"@[0] == 'C');
    assert("PENDING"@[0] == 'P');
}

/// An animation job whose answer says that it failed, and why, is polled no
/// further: the loop ends in a failure that carries the service's message word
/// for word.
pub proof fn law_animation_failure_message_is_passed_on(
    task_id: Seq<char>,
    answer: AnimationTaskStatusResponse,
    later: Seq<Result<AnimationTaskStatusResponse, FetchError>>,
)
    requires
        answer.status@ == "FAILED"@,
        answer.failure_message() is Some,
    ensures
        run(
            JobKind::Animation,
            task_id,
            kind_policy(JobKind::Animation),
            animation_observations(seq![Ok(answer)] + later),
        ) == (Trace {
            outcome: Some(Err(PollErrorView::TerminalFailure(answer.failure_message()->Some_0))),
            fetches: 1,
            progress: Seq::empty(),
        }),
{
    reveal_strlit("FAILED");
    reveal_strlit("SUCCEEDED");
    assert("FAILED"@.len() == 6);
    assert("SUCCEEDED"@.len() == 9);
    let kind = JobKind::Animation;
    let fresh = LoopView { kind, handle: task_id, policy: kind_policy(kind), fetches: 0 };
    let first = animation_observation(Ok(answer));
    let rest = animation_observations(later);
    assert(animation_observations(seq![Ok(answer)] + later) =~= Seq::<Observed>::empty() + seq![first] + rest);
    lemma_deciding_observation_ends(fresh, Seq::empty(), first, rest);
}

} // verus!
