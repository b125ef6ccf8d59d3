use robot_pipeline::job::{FetchError, JobKind, JobStatus, StageResult};
use robot_pipeline::poll::{policy_for, PollError, PollLoop, PollPolicy, PollTurn};
use robot_pipeline::replay::{replay, PollReport};

fn url(s: &str) -> StageResult {
    StageResult::Url(s.to_string())
}

fn transport() -> Result<JobStatus, FetchError> {
    Err(FetchError::Transport("connection reset".to_string()))
}

#[test]
fn mesh_scenario_three_fetches_two_notifications() {
    let record = vec![
        Ok(JobStatus::InProgress(40)),
        Ok(JobStatus::InProgress(90)),
        Ok(JobStatus::Succeeded(url("https://x/y.glb"))),
    ];
    let report = replay(JobKind::Mesh, "job-1".to_string(), policy_for(JobKind::Mesh), &record);
    assert_eq!(
        report,
        PollReport { outcome: Some(Ok(url("https://x/y.glb"))), fetches: 3, progress: vec![40, 90] }
    );
}

#[test]
fn success_stops_polling_at_once() {
    let record = vec![
        Ok(JobStatus::Succeeded(url("https://a/b.glb"))),
        Ok(JobStatus::Failed(Some("late".to_string()))),
        Ok(JobStatus::InProgress(10)),
    ];
    let report = replay(JobKind::Animation, "a-1".to_string(), policy_for(JobKind::Animation), &record);
    assert_eq!(report.outcome, Some(Ok(url("https://a/b.glb"))));
    assert_eq!(report.fetches, 1);
    assert_eq!(report.progress, Vec::<u32>::new());
}

#[test]
fn transient_errors_are_retried() {
    let record = vec![
        transport(),
        Err(FetchError::Service { status: 503, body: "busy".to_string() }),
        transport(),
        Ok(JobStatus::Succeeded(StageResult::Rigged)),
    ];
    let policy = PollPolicy { interval_secs: 10, max_attempts: 4 };
    let report = replay(JobKind::Rigging, "r-1".to_string(), policy, &record);
    assert_eq!(report.outcome, Some(Ok(StageResult::Rigged)));
    assert_eq!(report.fetches, 4);
    assert_eq!(report.progress, Vec::<u32>::new());
}

#[test]
fn persistent_errors_time_out_after_the_budget() {
    let mut record = Vec::new();
    for _ in 0..200 {
        record.push(transport());
    }
    let report = replay(JobKind::Mesh, "m-9".to_string(), policy_for(JobKind::Mesh), &record);
    assert_eq!(
        report.outcome,
        Some(Err(PollError::Timeout { kind: JobKind::Mesh, handle: "m-9".to_string() }))
    );
    assert_eq!(report.fetches, 120);
}

#[test]
fn never_finishing_job_times_out_like_an_unreachable_service() {
    let policy = PollPolicy { interval_secs: 5, max_attempts: 3 };
    let record = vec![
        Ok(JobStatus::Pending(0)),
        Ok(JobStatus::InProgress(5)),
        Ok(JobStatus::InProgress(7)),
        Ok(JobStatus::Succeeded(StageResult::Rigged)),
    ];
    let report = replay(JobKind::Rigging, "r".to_string(), policy, &record);
    assert_eq!(
        report.outcome,
        Some(Err(PollError::Timeout { kind: JobKind::Rigging, handle: "r".to_string() }))
    );
    assert_eq!(report.fetches, 3);
    assert_eq!(report.progress, vec![0, 5, 7]);
}

#[test]
fn failed_job_carries_the_remote_message() {
    let record = vec![
        Ok(JobStatus::InProgress(12)),
        Ok(JobStatus::Failed(Some("input mesh invalid".to_string()))),
        Ok(JobStatus::Succeeded(StageResult::Rigged)),
    ];
    let report = replay(JobKind::Rigging, "rig-7".to_string(), policy_for(JobKind::Rigging), &record);
    assert_eq!(report.outcome, Some(Err(PollError::TerminalFailure("input mesh invalid".to_string()))));
    assert_eq!(report.fetches, 2);
    assert_eq!(report.progress, vec![12]);
}

#[test]
fn failure_without_message_gets_the_default() {
    let failed = vec![Ok(JobStatus::Failed(None))];
    let canceled = vec![Ok(JobStatus::Canceled)];
    let mesh = replay(JobKind::Mesh, "m".to_string(), policy_for(JobKind::Mesh), &failed);
    assert_eq!(mesh.outcome, Some(Err(PollError::TerminalFailure("Meshy Task Failed: Unknown error".to_string()))));
    assert_eq!(mesh.fetches, 1);
    let mesh = replay(JobKind::Mesh, "m".to_string(), policy_for(JobKind::Mesh), &canceled);
    assert_eq!(mesh.outcome, Some(Err(PollError::TerminalFailure("Meshy Task Failed: Unknown error".to_string()))));
    let rig = replay(JobKind::Rigging, "rig-7".to_string(), policy_for(JobKind::Rigging), &canceled);
    assert_eq!(
        rig.outcome,
        Some(Err(PollError::TerminalFailure("Rigging task failed or canceled. ID: rig-7".to_string())))
    );
    let anim = replay(JobKind::Animation, "an-3".to_string(), policy_for(JobKind::Animation), &failed);
    assert_eq!(
        anim.outcome,
        Some(Err(PollError::TerminalFailure("Animation task failed or canceled. ID: an-3".to_string())))
    );
    assert_eq!(anim.fetches, 1);
}

#[test]
fn hard_fetch_errors_are_not_retried() {
    let decode = FetchError::Decode("Task succeeded but no GLB URL found in response".to_string());
    let record = vec![transport(), Err(decode.clone()), Ok(JobStatus::Succeeded(url("u")))];
    let report = replay(JobKind::Mesh, "m".to_string(), policy_for(JobKind::Mesh), &record);
    assert_eq!(report.outcome, Some(Err(PollError::Fetch(decode))));
    assert_eq!(report.fetches, 2);

    let denied = FetchError::Service { status: 404, body: "no such task".to_string() };
    let record = vec![Err(denied.clone())];
    let report = replay(JobKind::Animation, "a".to_string(), policy_for(JobKind::Animation), &record);
    assert_eq!(report.outcome, Some(Err(PollError::Fetch(denied))));
}

#[test]
fn record_that_runs_out_leaves_the_loop_open() {
    let record = vec![Ok(JobStatus::Pending(3)), transport()];
    let report = replay(JobKind::Mesh, "m".to_string(), policy_for(JobKind::Mesh), &record);
    assert_eq!(report, PollReport { outcome: None, fetches: 2, progress: vec![3] });
}

#[test]
fn empty_budget_times_out_without_a_fetch() {
    let policy = PollPolicy { interval_secs: 5, max_attempts: 0 };
    let turn = PollLoop::begin(JobKind::Mesh, "m".to_string(), policy);
    assert_eq!(
        turn,
        PollTurn::Done {
            notify: None,
            fetches: 0,
            outcome: Err(PollError::Timeout { kind: JobKind::Mesh, handle: "m".to_string() }),
        }
    );
}

#[test]
fn loop_waits_the_interval_between_checks() {
    let policy = policy_for(JobKind::Mesh);
    assert_eq!(policy, PollPolicy { interval_secs: 5, max_attempts: 120 });
    assert_eq!(policy_for(JobKind::Rigging), PollPolicy { interval_secs: 10, max_attempts: 120 });
    assert_eq!(policy_for(JobKind::Animation), PollPolicy { interval_secs: 10, max_attempts: 120 });
    let state = match PollLoop::begin(JobKind::Mesh, "m".to_string(), policy) {
        PollTurn::Again { state, notify, wait_secs } => {
            assert_eq!(notify, None);
            assert_eq!(wait_secs, 0);
            state
        }
        other => panic!("unexpected first turn: {:?}", other),
    };
    let turn = state.observe(&Ok(JobStatus::InProgress(33)));
    assert_eq!(
        turn,
        PollTurn::Again {
            state: PollLoop { kind: JobKind::Mesh, handle: "m".to_string(), policy, fetches: 1 },
            notify: Some(33),
            wait_secs: 5,
        }
    );
}

#[test]
fn failed_mesh_job_is_reported_with_its_prefix() {
    let record = vec![Ok(JobStatus::Failed(Some("image too dark".to_string())))];
    let report = replay(JobKind::Mesh, "m".to_string(), policy_for(JobKind::Mesh), &record);
    assert_eq!(
        report.outcome,
        Some(Err(PollError::TerminalFailure("Meshy Task Failed: image too dark".to_string())))
    );
    let report = replay(JobKind::Animation, "a".to_string(), policy_for(JobKind::Animation), &record);
    assert_eq!(report.outcome, Some(Err(PollError::TerminalFailure("image too dark".to_string()))));
}

#[test]
fn a_pending_job_publishes_its_percentage() {
    let record = vec![Ok(JobStatus::Pending(12)), Ok(JobStatus::Pending(0)), Ok(JobStatus::InProgress(30))];
    let report = replay(JobKind::Rigging, "r".to_string(), policy_for(JobKind::Rigging), &record);
    assert_eq!(report, PollReport { outcome: None, fetches: 3, progress: vec![12, 0, 30] });
}
