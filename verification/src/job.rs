//! Job kinds, the common job status, and the per-kind adapters that read a
//! service's status payload into it.

use vstd::prelude::*;
use vstd::string::*;

verus! {

/// The three long-running remote operations.
#[derive(Clone, Copy, Debug, PartialEq, Eq, Structural)]
pub enum JobKind {
    Mesh,
    Rigging,
    Animation,
}

/// What a finished job hands to the next stage.
#[derive(Clone, Debug, PartialEq, Eq)]
pub enum StageResult {
    /// Address of a produced asset.
    Url(String),
    /// Rigging has completed; the rig is addressed by its job handle.
    Rigged,
}

pub ghost enum StageResultView {
    Url(Seq<char>),
    Rigged,
}

impl View for StageResult {
    type V = StageResultView;

    open spec fn view(&self) -> StageResultView {
        match *self {
            StageResult::Url(u) => StageResultView::Url(u@),
            StageResult::Rigged => StageResultView::Rigged,
        }
    }
}

/// One observed state of a remote job.
#[derive(Clone, Debug, PartialEq, Eq)]
pub enum JobStatus {
    /// Waiting to be started, with the percentage that the service reports.
    Pending(u32),
    /// Running, with the percentage that the service reports.
    InProgress(u32),
    Succeeded(StageResult),
    /// The remote failure, with the service's message where it sent one.
    Failed(Option<String>),
    Canceled,
}

pub ghost enum JobStatusView {
    Pending(u32),
    InProgress(u32),
    Succeeded(StageResultView),
    Failed(Option<Seq<char>>),
    Canceled,
}

/// The characters of an optional string.
pub open spec fn opt_text(s: Option<String>) -> Option<Seq<char>> {
    match s {
        Some(t) => Some(t@),
        None => None,
    }
}

impl View for JobStatus {
    type V = JobStatusView;

    open spec fn view(&self) -> JobStatusView {
        match *self {
            JobStatus::Pending(p) => JobStatusView::Pending(p),
            JobStatus::InProgress(p) => JobStatusView::InProgress(p),
            JobStatus::Succeeded(r) => JobStatusView::Succeeded(r@),
            JobStatus::Failed(m) => JobStatusView::Failed(opt_text(m)),
            JobStatus::Canceled => JobStatusView::Canceled,
        }
    }
}

impl JobStatusView {
    /// Succeeded, failed and canceled jobs are never polled again.
    pub open spec fn is_terminal(self) -> bool {
        !(self is Pending) && !(self is InProgress)
    }

    /// The percentage that a job not yet finished was reported with.
    pub open spec fn progress(self) -> u32 {
        match self {
            JobStatusView::Pending(p) => p,
            JobStatusView::InProgress(p) => p,
            _ => 0,
        }
    }
}

impl JobStatus {
    pub fn is_terminal(&self) -> (b: bool)
        ensures
            b == self@.is_terminal(),
    {
        match self {
            JobStatus::Pending(_) => false,
            JobStatus::InProgress(_) => false,
            _ => true,
        }
    }
}

/// Why one status check gave no status.
#[derive(Clone, Debug, PartialEq, Eq)]
pub enum FetchError {
    /// The request never got an answer.
    Transport(String),
    /// The service answered with a non-success HTTP status.
    Service { status: u16, body: String },
    /// The answer cannot be used: the job finished without the expected result.
    Decode(String),
}

pub ghost enum FetchErrorView {
    Transport(Seq<char>),
    Service { status: u16, body: Seq<char> },
    Decode(Seq<char>),
}

impl View for FetchError {
    type V = FetchErrorView;

    open spec fn view(&self) -> FetchErrorView {
        match *self {
            FetchError::Transport(m) => FetchErrorView::Transport(m@),
            FetchError::Service { status, body } => FetchErrorView::Service { status, body: body@ },
            FetchError::Decode(m) => FetchErrorView::Decode(m@),
        }
    }
}

impl FetchErrorView {
    /// Transport failures and server-side (5xx) answers may pass; polling goes on
    /// after them. Everything else is final.
    pub open spec fn is_transient(self) -> bool {
        match self {
            FetchErrorView::Transport(_) => true,
            FetchErrorView::Service { status, .. } => 500 <= status <= 599,
            FetchErrorView::Decode(_) => false,
        }
    }
}

impl FetchError {
    pub fn is_transient(&self) -> (b: bool)
        ensures
            b == self@.is_transient(),
    {
        match self {
            FetchError::Transport(_) => true,
            FetchError::Service { status, .. } => 500 <= *status && *status <= 599,
            FetchError::Decode(_) => false,
        }
    }
}

/// The outcome of one status check, as contracts see it.
pub type Observed = Result<JobStatusView, FetchErrorView>;

/// The view of one status check's outcome.
pub open spec fn observed(o: Result<JobStatus, FetchError>) -> Observed {
    match o {
        Ok(s) => Ok(s@),
        Err(e) => Err(e@),
    }
}

#[derive(Clone, Debug, PartialEq, Eq)]
pub struct ModelUrls {
    pub glb: Option<String>,
    pub fbx: Option<String>,
    pub obj: Option<String>,
}

#[derive(Clone, Debug, PartialEq, Eq)]
pub struct TaskError {
    pub message: String,
}

/// Status payload of a mesh or a rigging job.
#[derive(Clone, Debug, PartialEq, Eq)]
pub struct TaskStatusResponse {
    pub id: String,
    pub status: String,
    pub progress: u32,
    pub model_urls: Option<ModelUrls>,
    pub task_error: Option<TaskError>,
}

#[derive(Clone, Debug, PartialEq, Eq)]
pub struct AnimationUrls {
    pub animation_glb_url: Option<String>,
}

/// Status payload of an animation job.
#[derive(Clone, Debug, PartialEq, Eq)]
pub struct AnimationTaskStatusResponse {
    pub status: String,
    pub progress: Option<u32>,
    pub result: Option<AnimationUrls>,
    /// Why the job failed, where the service says so.
    pub task_error: Option<TaskError>,
}

impl TaskStatusResponse {
    /// The service's failure message, where the payload carries one.
    pub open spec fn failure_message(&self) -> Option<Seq<char>> {
        match self.task_error {
            Some(e) => Some(e.message@),
            None => None,
        }
    }

    /// The address of the binary mesh, where the payload carries one.
    pub open spec fn glb(&self) -> Option<Seq<char>> {
        match self.model_urls {
            Some(urls) => opt_text(urls.glb),
            None => None,
        }
    }

    /// What a mesh job's payload says of the job. A finished job without a mesh
    /// address, and a status word outside the five known ones, cannot be used.
    pub open spec fn mesh_status(&self) -> Observed {
        if self.status@ == "SUCCEEDED"@ {
            match self.glb() {
                Some(u) => Ok(JobStatusView::Succeeded(StageResultView::Url(u))),
                None => Err(FetchErrorView::Decode("Task succeeded but no GLB URL found in response"@)),
            }
        } else if self.status@ == "FAILED"@ {
            Ok(JobStatusView::Failed(self.failure_message()))
        } else if self.status@ == "CANCELED"@ {
            Ok(JobStatusView::Canceled)
        } else if self.status@ == "PENDING"@ {
            Ok(JobStatusView::Pending(self.progress))
        } else if self.status@ == "IN_PROGRESS"@ {
            Ok(JobStatusView::InProgress(self.progress))
        } else {
            Err(FetchErrorView::Decode("Unknown status: "@ + self.status@))
        }
    }

    /// What a rigging job's payload says of the job. Success needs no payload;
    /// any status word that is not terminal counts as still running.
    pub open spec fn rigging_status(&self) -> Observed {
        if self.status@ == "SUCCEEDED"@ {
            Ok(JobStatusView::Succeeded(StageResultView::Rigged))
        } else if self.status@ == "FAILED"@ {
            Ok(JobStatusView::Failed(self.failure_message()))
        } else if self.status@ == "CANCELED"@ {
            Ok(JobStatusView::Canceled)
        } else if self.status@ == "PENDING"@ {
            Ok(JobStatusView::Pending(self.progress))
        } else {
            Ok(JobStatusView::InProgress(self.progress))
        }
    }
}

impl AnimationTaskStatusResponse {
    /// The service's failure message, where the payload carries one.
    pub open spec fn failure_message(&self) -> Option<Seq<char>> {
        match self.task_error {
            Some(e) => Some(e.message@),
            None => None,
        }
    }

    /// The percentage of the payload, which counts as zero where it is missing.
    pub open spec fn percentage(&self) -> u32 {
        match self.progress {
            Some(p) => p,
            None => 0u32,
        }
    }

    /// What an animation job's payload says of the job. A finished job must carry
    /// the address of the animated mesh; a missing percentage counts as zero.
    pub open spec fn animation_status(&self) -> Observed {
        if self.status@ == "SUCCEEDED"@ {
            match self.result {
                Some(r) => match r.animation_glb_url {
                    Some(u) => Ok(JobStatusView::Succeeded(StageResultView::Url(u@))),
                    None => Err(FetchErrorView::Decode("Task succeeded but animation_glb_url is missing"@)),
                },
                None => Err(FetchErrorView::Decode("Task succeeded but result object is missing"@)),
            }
        } else if self.status@ == "FAILED"@ {
            Ok(JobStatusView::Failed(self.failure_message()))
        } else if self.status@ == "CANCELED"@ {
            Ok(JobStatusView::Canceled)
        } else if self.status@ == "PENDING"@ {
            Ok(JobStatusView::Pending(self.percentage()))
        } else {
            Ok(JobStatusView::InProgress(self.percentage()))
        }
    }
}

/// Whether a status word is the given literal.
fn word_is(word: &String, literal: &str) -> (b: bool)
    ensures
        b == (word@ == literal@),
{
    let lit = String::from_str(literal);
    *word == lit
}

fn failure_of(error: &Option<TaskError>) -> (m: Option<String>)
    ensures
        opt_text(m) == (match *error {
            Some(e) => Some(e.message@),
            None => None,
        }),
{
    match error {
        Some(e) => Some(e.message.clone()),
        None => None,
    }
}

/// Reads the status payload of a mesh job.
pub fn mesh_status(resp: &TaskStatusResponse) -> (r: Result<JobStatus, FetchError>)
    ensures
        observed(r) == resp.mesh_status(),
{
    if word_is(&resp.status, "SUCCEEDED") {
        match &resp.model_urls {
            Some(urls) => match &urls.glb {
                Some(u) => Ok(JobStatus::Succeeded(StageResult::Url(u.clone()))),
                None => Err(FetchError::Decode(String::from_str("Task succeeded but no GLB URL found in response"))),
            },
            None => Err(FetchError::Decode(String::from_str("Task succeeded but no GLB URL found in response"))),
        }
    } else if word_is(&resp.status, "FAILED") {
        Ok(JobStatus::Failed(failure_of(&resp.task_error)))
    } else if word_is(&resp.status, "CANCELED") {
        Ok(JobStatus::Canceled)
    } else if word_is(&resp.status, "PENDING") {
        Ok(JobStatus::Pending(resp.progress))
    } else if word_is(&resp.status, "IN_PROGRESS") {
        Ok(JobStatus::InProgress(resp.progress))
    } else {
        Err(FetchError::Decode(String::from_str("Unknown status: ").concat(resp.status.as_str())))
    }
}

/// Reads the status payload of a rigging job.
pub fn rigging_status(resp: &TaskStatusResponse) -> (r: Result<JobStatus, FetchError>)
    ensures
        observed(r) == resp.rigging_status(),
{
    if word_is(&resp.status, "SUCCEEDED") {
        Ok(JobStatus::Succeeded(StageResult::Rigged))
    } else if word_is(&resp.status, "FAILED") {
        Ok(JobStatus::Failed(failure_of(&resp.task_error)))
    } else if word_is(&resp.status, "CANCELED") {
        Ok(JobStatus::Canceled)
    } else if word_is(&resp.status, "PENDING") {
        Ok(JobStatus::Pending(resp.progress))
    } else {
        Ok(JobStatus::InProgress(resp.progress))
    }
}

/// Reads the status payload of an animation job.
pub fn animation_status(resp: &AnimationTaskStatusResponse) -> (r: Result<JobStatus, FetchError>)
    ensures
        observed(r) == resp.animation_status(),
{
    if word_is(&resp.status, "SUCCEEDED") {
        match &resp.result {
            Some(res) => match &res.animation_glb_url {
                Some(u) => Ok(JobStatus::Succeeded(StageResult::Url(u.clone()))),
                None => Err(FetchError::Decode(String::from_str("Task succeeded but animation_glb_url is missing"))),
            },
            None => Err(FetchError::Decode(String::from_str("Task succeeded but result object is missing"))),
        }
    } else {
        let p: u32 = match resp.progress {
            Some(p) => p,
            None => 0,
        };
        if word_is(&resp.status, "FAILED") {
            Ok(JobStatus::Failed(failure_of(&resp.task_error)))
        } else if word_is(&resp.status, "CANCELED") {
            Ok(JobStatus::Canceled)
        } else if word_is(&resp.status, "PENDING") {
            Ok(JobStatus::Pending(p))
        } else {
            Ok(JobStatus::InProgress(p))
        }
    }
}

} // verus!
