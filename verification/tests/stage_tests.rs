use robot_pipeline::job::{
    AnimationTaskStatusResponse, AnimationUrls, FetchError, JobKind, ModelUrls, StageResult, TaskError,
    TaskStatusResponse,
};
use robot_pipeline::poll::PollError;
use robot_pipeline::replay::PollReport;
use robot_pipeline::stages::{poll_for_animation_glb, poll_for_glb_url, poll_for_rigging_success};
use robot_pipeline::text::{poll_error_message, progress_text};

fn task(status: &str, progress: u32) -> TaskStatusResponse {
    TaskStatusResponse {
        id: "job".to_string(),
        status: status.to_string(),
        progress,
        model_urls: None,
        task_error: None,
    }
}

fn animation(status: &str, progress: Option<u32>, url: Option<&str>) -> AnimationTaskStatusResponse {
    AnimationTaskStatusResponse {
        status: status.to_string(),
        progress,
        result: url.map(|u| AnimationUrls { animation_glb_url: Some(u.to_string()) }),
        task_error: None,
    }
}

#[test]
fn mesh_job_is_polled_to_its_address() {
    let mut done = task("SUCCEEDED", 100);
    done.model_urls = Some(ModelUrls { glb: Some("https://x/y.glb".to_string()), fbx: None, obj: None });
    let answers = vec![Ok(task("IN_PROGRESS", 40)), Ok(task("IN_PROGRESS", 90)), Ok(done)];
    let report = poll_for_glb_url("mesh-1".to_string(), &answers);
    assert_eq!(
        report,
        PollReport {
            outcome: Some(Ok(StageResult::Url("https://x/y.glb".to_string()))),
            fetches: 3,
            progress: vec![40, 90],
        }
    );
    let lines: Vec<String> = report.progress.iter().map(|p| progress_text(JobKind::Mesh, "", *p)).collect();
    assert_eq!(lines, vec!["Image to 3D Base Model: 40%", "Image to 3D Base Model: 90%"]);
    assert!(lines[0].ends_with("40%"));
    assert!(lines[1].ends_with("90%"));
}

#[test]
fn mesh_job_with_a_pending_first_answer() {
    let mut done = task("SUCCEEDED", 100);
    done.model_urls = Some(ModelUrls { glb: Some("https://x/y.glb".to_string()), fbx: None, obj: None });
    let answers = vec![Ok(task("PENDING", 0)), Ok(task("IN_PROGRESS", 40)), Ok(task("IN_PROGRESS", 90)), Ok(done)];
    let report = poll_for_glb_url("mesh-1".to_string(), &answers);
    assert_eq!(report.outcome, Some(Ok(StageResult::Url("https://x/y.glb".to_string()))));
    assert_eq!(report.fetches, 4);
    assert_eq!(report.progress, vec![0, 40, 90]);
}

#[test]
fn mesh_job_without_address_fails_at_once() {
    let answers = vec![Ok(task("SUCCEEDED", 100)), Ok(task("IN_PROGRESS", 1))];
    let report = poll_for_glb_url("mesh-1".to_string(), &answers);
    assert_eq!(
        report.outcome,
        Some(Err(PollError::Fetch(FetchError::Decode(
            "Task succeeded but no GLB URL found in response".to_string()
        ))))
    );
    assert_eq!(report.fetches, 1);
}

#[test]
fn mesh_job_that_never_answers_times_out() {
    let mut answers = Vec::new();
    for _ in 0..130 {
        answers.push(Err(FetchError::Transport("unreachable".to_string())));
    }
    let report = poll_for_glb_url("mesh-1".to_string(), &answers);
    assert_eq!(
        report.outcome,
        Some(Err(PollError::Timeout { kind: JobKind::Mesh, handle: "mesh-1".to_string() }))
    );
    assert_eq!(report.fetches, 120);
    assert_eq!(report.progress, Vec::<u32>::new());

    let mut answers = Vec::new();
    for _ in 0..119 {
        answers.push(Err(FetchError::Service { status: 502, body: String::new() }));
    }
    let mut done = task("SUCCEEDED", 100);
    done.model_urls = Some(ModelUrls { glb: Some("u".to_string()), fbx: None, obj: None });
    answers.push(Ok(done));
    let report = poll_for_glb_url("mesh-1".to_string(), &answers);
    assert_eq!(report.outcome, Some(Ok(StageResult::Url("u".to_string()))));
    assert_eq!(report.fetches, 120);
}

#[test]
fn rig_job_failure_is_passed_on_word_for_word() {
    let mut failed = task("FAILED", 0);
    failed.task_error = Some(TaskError { message: "input mesh invalid".to_string() });
    let answers = vec![Ok(task("PENDING", 0)), Ok(failed), Ok(task("SUCCEEDED", 100))];
    let report = poll_for_rigging_success("rig-1".to_string(), &answers);
    assert_eq!(report.outcome, Some(Err(PollError::TerminalFailure("input mesh invalid".to_string()))));
    assert_eq!(report.fetches, 2);
}

#[test]
fn rig_job_succeeds_without_a_payload() {
    let answers = vec![Ok(task("IN_PROGRESS", 30)), Ok(task("SUCCEEDED", 100))];
    let report = poll_for_rigging_success("rig-1".to_string(), &answers);
    assert_eq!(report, PollReport { outcome: Some(Ok(StageResult::Rigged)), fetches: 2, progress: vec![30] });
    let canceled = vec![Ok(task("CANCELED", 30))];
    let report = poll_for_rigging_success("rig-1".to_string(), &canceled);
    assert_eq!(
        report.outcome,
        Some(Err(PollError::TerminalFailure("Rigging task failed or canceled. ID: rig-1".to_string())))
    );
}

#[test]
fn animation_jobs_are_polled_to_their_addresses() {
    let idle = vec![
        Ok(animation("IN_PROGRESS", Some(50), None)),
        Ok(animation("SUCCEEDED", Some(100), Some("https://a/idle.glb"))),
    ];
    let attack = vec![
        Ok(animation("PENDING", None, None)),
        Err(FetchError::Transport("reset".to_string())),
        Ok(animation("IN_PROGRESS", None, None)),
        Ok(animation("IN_PROGRESS", Some(80), None)),
        Ok(animation("SUCCEEDED", Some(100), Some("https://a/attack.glb"))),
    ];
    let idle = poll_for_animation_glb("idle-1".to_string(), &idle);
    let attack = poll_for_animation_glb("attack-1".to_string(), &attack);
    assert_eq!(
        idle,
        PollReport {
            outcome: Some(Ok(StageResult::Url("https://a/idle.glb".to_string()))),
            fetches: 2,
            progress: vec![50],
        }
    );
    assert_eq!(
        attack,
        PollReport {
            outcome: Some(Ok(StageResult::Url("https://a/attack.glb".to_string()))),
            fetches: 5,
            progress: vec![0, 0, 80],
        }
    );
    let failed = poll_for_animation_glb("attack-1".to_string(), &vec![Ok(animation("FAILED", None, None))]);
    assert_eq!(
        failed.outcome,
        Some(Err(PollError::TerminalFailure("Animation task failed or canceled. ID: attack-1".to_string())))
    );
}

#[test]
fn mesh_job_that_failed_without_a_message() {
    let answers = vec![Ok(task("FAILED", 0))];
    let report = poll_for_glb_url("t1".to_string(), &answers);
    assert_eq!(
        report.outcome,
        Some(Err(PollError::TerminalFailure("Meshy Task Failed: Unknown error".to_string())))
    );
    assert_eq!(report.fetches, 1);
    match report.outcome {
        Some(Err(e)) => assert_eq!(poll_error_message(&e), "Meshy Task Failed: Unknown error"),
        other => panic!("unexpected outcome: {:?}", other),
    }
    let mut failed = task("FAILED", 0);
    failed.task_error = Some(TaskError { message: "image too dark".to_string() });
    let report = poll_for_glb_url("t1".to_string(), &vec![Ok(failed)]);
    assert_eq!(
        report.outcome,
        Some(Err(PollError::TerminalFailure("Meshy Task Failed: image too dark".to_string())))
    );
}

#[test]
fn pending_answers_publish_the_percentage_they_carry() {
    let answers = vec![Ok(task("PENDING", 5)), Ok(task("IN_PROGRESS", 40))];
    assert_eq!(poll_for_glb_url("m".to_string(), &answers).progress, vec![5, 40]);
    assert_eq!(poll_for_rigging_success("r".to_string(), &answers).progress, vec![5, 40]);
    let answers = vec![
        Ok(animation("PENDING", Some(8), None)),
        Ok(animation("PENDING", None, None)),
        Err(FetchError::Transport("reset".to_string())),
        Ok(animation("SUCCEEDED", Some(100), Some("u"))),
        Ok(animation("PENDING", Some(99), None)),
    ];
    let report = poll_for_animation_glb("a".to_string(), &answers);
    assert_eq!(report.progress, vec![8, 0]);
    assert_eq!(report.fetches, 4);
    let lines: Vec<String> = report.progress.iter().map(|p| progress_text(JobKind::Animation, "Idle", *p)).collect();
    assert_eq!(lines, vec!["Applying Animation (Idle): 8%", "Applying Animation (Idle): 0%"]);
}

#[test]
fn animation_failure_message_is_passed_on() {
    let mut failed = animation("FAILED", Some(10), None);
    failed.task_error = Some(TaskError { message: "rig has no skeleton".to_string() });
    let answers = vec![Ok(animation("IN_PROGRESS", Some(10), None)), Ok(failed), Ok(animation("SUCCEEDED", None, Some("u")))];
    let report = poll_for_animation_glb("attack-1".to_string(), &answers);
    assert_eq!(report.outcome, Some(Err(PollError::TerminalFailure("rig has no skeleton".to_string()))));
    assert_eq!(report.fetches, 2);
}
