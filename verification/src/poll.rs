//! The polling loop of one remote job as a state machine: each status check is
//! handed in, and the loop answers with what to do next.

use vstd::prelude::*;
use vstd::string::*;
use crate::job::{FetchError, FetchErrorView, JobKind, JobStatus, JobStatusView, Observed, StageResult, StageResultView, observed};

verus! {

/// Cadence and budget of one polling loop.
#[derive(Clone, Copy, Debug, PartialEq, Eq, Structural)]
pub struct PollPolicy {
    /// Seconds to wait between two status checks.
    pub interval_secs: u64,
    /// Status checks allowed before the job counts as timed out.
    pub max_attempts: u32,
}

/// The policy each job kind is polled with: the mesh job every five seconds,
/// rigging and animation every ten, each for at most 120 checks.
pub fn policy_for(kind: JobKind) -> (p: PollPolicy)
    ensures
        p.max_attempts == 120,
        p.interval_secs == (if kind == JobKind::Mesh { 5u64 } else { 10u64 }),
{
    match kind {
        JobKind::Mesh => PollPolicy { interval_secs: 5, max_attempts: 120 },
        JobKind::Rigging => PollPolicy { interval_secs: 10, max_attempts: 120 },
        JobKind::Animation => PollPolicy { interval_secs: 10, max_attempts: 120 },
    }
}

/// Why polling ended without a result.
#[derive(Clone, Debug, PartialEq, Eq)]
pub enum PollError {
    /// The budget of status checks ran out before the job finished.
    Timeout { kind: JobKind, handle: String },
    /// The job itself failed or was canceled.
    TerminalFailure(String),
    /// A status check failed in a way that waiting cannot mend.
    Fetch(FetchError),
}

pub ghost enum PollErrorView {
    Timeout { kind: JobKind, handle: Seq<char> },
    TerminalFailure(Seq<char>),
    Fetch(FetchErrorView),
}

impl View for PollError {
    type V = PollErrorView;

    open spec fn view(&self) -> PollErrorView {
        match *self {
            PollError::Timeout { kind, handle } => PollErrorView::Timeout { kind, handle: handle@ },
            PollError::TerminalFailure(m) => PollErrorView::TerminalFailure(m@),
            PollError::Fetch(e) => PollErrorView::Fetch(e@),
        }
    }
}

/// How polling ended, as contracts see it.
pub type Verdict = Result<StageResultView, PollErrorView>;

pub open spec fn verdict_view(r: Result<StageResult, PollError>) -> Verdict {
    match r {
        Ok(v) => Ok(v@),
        Err(e) => Err(e@),
    }
}

/// An observation decides the loop when it is a terminal status or an error that
/// is not transient.
pub open spec fn decides(o: Observed) -> bool {
    match o {
        Ok(s) => s.is_terminal(),
        Err(e) => !e.is_transient(),
    }
}

/// The percentage to publish for an observation: the progress of a job that is
/// still running, nothing for anything else.
pub open spec fn notice(o: Observed) -> Option<u32> {
    match o {
        Ok(s) => if s.is_terminal() { None } else { Some(s.progress()) },
        Err(_) => None,
    }
}

/// The message reported for a job that failed or was canceled without saying why.
pub open spec fn default_failure(kind: JobKind, handle: Seq<char>) -> Seq<char> {
    match kind {
        JobKind::Mesh => "Meshy Task Failed: "@ + "Unknown error"@,
        JobKind::Rigging => "Rigging task failed or canceled. ID: "@ + handle,
        JobKind::Animation => "Animation task failed or canceled. ID: "@ + handle,
    }
}

/// The message reported for a job that failed and said why: the service's
/// words, which for a mesh job follow the words "Meshy Task Failed: ".
pub open spec fn remote_failure(kind: JobKind, message: Seq<char>) -> Seq<char> {
    match kind {
        JobKind::Mesh => "Meshy Task Failed: "@ + message,
        _ => message,
    }
}

/// How a deciding observation ends the loop: success gives the job's result, a
/// failure gives the message made from the service's own or else the default
/// one, a canceled job gives the default message, and a fetch error is passed
/// on.
pub open spec fn verdict_of(kind: JobKind, handle: Seq<char>, o: Observed) -> Verdict {
    match o {
        Ok(JobStatusView::Succeeded(r)) => Ok(r),
        Ok(JobStatusView::Failed(Some(m))) => Err(PollErrorView::TerminalFailure(remote_failure(kind, m))),
        Ok(_) => Err(PollErrorView::TerminalFailure(default_failure(kind, handle))),
        Err(e) => Err(PollErrorView::Fetch(e)),
    }
}

/// A polling loop that has not ended: the job it watches and the status checks
/// made so far.
#[derive(Clone, Debug, PartialEq, Eq)]
pub struct PollLoop {
    pub kind: JobKind,
    pub handle: String,
    pub policy: PollPolicy,
    pub fetches: u32,
}

pub ghost struct LoopView {
    pub kind: JobKind,
    pub handle: Seq<char>,
    pub policy: PollPolicy,
    pub fetches: u32,
}

impl View for PollLoop {
    type V = LoopView;

    open spec fn view(&self) -> LoopView {
        LoopView { kind: self.kind, handle: self.handle@, policy: self.policy, fetches: self.fetches }
    }
}

/// What the driver of a loop does next.
#[derive(Debug, PartialEq, Eq)]
pub enum PollTurn {
    /// Publish `notify` if there is one, wait `wait_secs`, check the status
    /// again and hand the answer to `state`.
    Again { state: PollLoop, notify: Option<u32>, wait_secs: u64 },
    /// Publish `notify` if there is one and stop: polling ended with `outcome`
    /// after `fetches` status checks.
    Done { notify: Option<u32>, fetches: u32, outcome: Result<StageResult, PollError> },
}

pub ghost enum TurnView {
    Again { state: LoopView, notify: Option<u32>, wait_secs: u64 },
    Done { notify: Option<u32>, fetches: u32, outcome: Verdict },
}

impl View for PollTurn {
    type V = TurnView;

    open spec fn view(&self) -> TurnView {
        match *self {
            PollTurn::Again { state, notify, wait_secs } => TurnView::Again { state: state@, notify, wait_secs },
            PollTurn::Done { notify, fetches, outcome } => TurnView::Done {
                notify,
                fetches,
                outcome: verdict_view(outcome),
            },
        }
    }
}

impl LoopView {
    pub open spec fn timeout(self) -> Verdict {
        Err(PollErrorView::Timeout { kind: self.kind, handle: self.handle })
    }

    /// The first turn of a loop: with an empty budget it times out before any
    /// status check, otherwise the status is checked at once.
    pub open spec fn begin(kind: JobKind, handle: Seq<char>, policy: PollPolicy) -> TurnView {
        let state = LoopView { kind, handle, policy, fetches: 0 };
        if policy.max_attempts == 0 {
            TurnView::Done { notify: None, fetches: 0, outcome: state.timeout() }
        } else {
            TurnView::Again { state, notify: None, wait_secs: 0 }
        }
    }

    /// The turn after one status check. A deciding observation ends the loop
    /// with its verdict. Any other observation counts against the budget,
    /// transient errors included: when it was the last one allowed the loop
    /// times out, otherwise it goes on after the interval. A loop whose budget
    /// is already spent times out without looking at the observation.
    pub open spec fn observe(self, o: Observed) -> TurnView {
        if self.fetches >= self.policy.max_attempts {
            TurnView::Done { notify: None, fetches: self.fetches, outcome: self.timeout() }
        } else if decides(o) {
            TurnView::Done {
                notify: None,
                fetches: (self.fetches + 1) as u32,
                outcome: verdict_of(self.kind, self.handle, o),
            }
        } else if self.fetches + 1 >= self.policy.max_attempts {
            TurnView::Done { notify: notice(o), fetches: (self.fetches + 1) as u32, outcome: self.timeout() }
        } else {
            TurnView::Again {
                state: LoopView { fetches: (self.fetches + 1) as u32, ..self },
                notify: notice(o),
                wait_secs: self.policy.interval_secs,
            }
        }
    }
}

fn default_failure_text(kind: JobKind, handle: &String) -> (m: String)
    ensures
        m@ == default_failure(kind, handle@),
{
    match kind {
        JobKind::Mesh => String::from_str("Meshy Task Failed: ").concat("Unknown error"),
        JobKind::Rigging => String::from_str("Rigging task failed or canceled. ID: ").concat(handle.as_str()),
        JobKind::Animation => String::from_str("Animation task failed or canceled. ID: ").concat(
            handle.as_str(),
        ),
    }
}

fn remote_failure_text(kind: JobKind, message: &String) -> (m: String)
    ensures
        m@ == remote_failure(kind, message@),
{
    match kind {
        JobKind::Mesh => String::from_str("Meshy Task Failed: ").concat(message.as_str()),
        _ => message.clone(),
    }
}

fn copy_result(r: &StageResult) -> (c: StageResult)
    ensures
        c@ == r@,
{
    match r {
        StageResult::Url(u) => StageResult::Url(u.clone()),
        StageResult::Rigged => StageResult::Rigged,
    }
}

pub(crate) fn copy_fetch_error(e: &FetchError) -> (c: FetchError)
    ensures
        c@ == e@,
{
    match e {
        FetchError::Transport(m) => FetchError::Transport(m.clone()),
        FetchError::Service { status, body } => FetchError::Service { status: *status, body: body.clone() },
        FetchError::Decode(m) => FetchError::Decode(m.clone()),
    }
}

impl PollLoop {
    /// Starts polling the job `handle` of the given kind.
    pub fn begin(kind: JobKind, handle: String, policy: PollPolicy) -> (turn: PollTurn)
        ensures
            turn@ == LoopView::begin(kind, handle@, policy),
    {
        if policy.max_attempts == 0 {
            PollTurn::Done { notify: None, fetches: 0, outcome: Err(PollError::Timeout { kind, handle }) }
        } else {
            PollTurn::Again { state: PollLoop { kind, handle, policy, fetches: 0 }, notify: None, wait_secs: 0 }
        }
    }

    fn verdict(&self, o: &Result<JobStatus, FetchError>) -> (v: Result<StageResult, PollError>)
        ensures
            verdict_view(v) == verdict_of(self.kind, self.handle@, observed(*o)),
    {
        match o {
            Ok(JobStatus::Succeeded(r)) => Ok(copy_result(r)),
            Ok(JobStatus::Failed(Some(m))) => Err(PollError::TerminalFailure(remote_failure_text(self.kind, m))),
            Ok(_) => Err(PollError::TerminalFailure(default_failure_text(self.kind, &self.handle))),
            Err(e) => Err(PollError::Fetch(copy_fetch_error(e))),
        }
    }

    /// Takes the outcome of one status check and says what to do next. The loop
    /// is used up: after `Done` there is nothing left to ask again.
    pub fn observe(self, o: &Result<JobStatus, FetchError>) -> (turn: PollTurn)
        ensures
            turn@ == self@.observe(observed(*o)),
    {
        if self.fetches >= self.policy.max_attempts {
            return PollTurn::Done {
                notify: None,
                fetches: self.fetches,
                outcome: Err(PollError::Timeout { kind: self.kind, handle: self.handle }),
            };
        }
        let fetches: u32 = self.fetches + 1;
        let (deciding, notify): (bool, Option<u32>) = match o {
            Ok(JobStatus::Pending(p)) => (false, Some(*p)),
            Ok(JobStatus::InProgress(p)) => (false, Some(*p)),
            Ok(_) => (true, None),
            Err(e) => (!e.is_transient(), None),
        };
        if deciding {
            let outcome = self.verdict(o);
            PollTurn::Done { notify: None, fetches, outcome }
        } else if fetches >= self.policy.max_attempts {
            PollTurn::Done {
                notify,
                fetches,
                outcome: Err(PollError::Timeout { kind: self.kind, handle: self.handle }),
            }
        } else {
            PollTurn::Again {
                state: PollLoop { kind: self.kind, handle: self.handle, policy: self.policy, fetches },
                notify,
                wait_secs: self.policy.interval_secs,
            }
        }
    }
}

} // verus!
