//! The texts that a run shows: progress lines, announcements of stages, and
//! the single line that a failure is reported with.

use vstd::prelude::*;
use vstd::string::*;
use crate::job::{FetchError, FetchErrorView, JobKind, opt_text};
use crate::pipeline::{Action, Cause, PipelineError};
use crate::poll::{PollError, PollErrorView};

verus! {

/// The text of one decimal digit.
pub open spec fn digit_text(d: nat) -> Seq<char> {
    if d == 0 {
        "0"@
    } else if d == 1 {
        "1"@
    } else if d == 2 {
        "2"@
    } else if d == 3 {
        "3"@
    } else if d == 4 {
        "4"@
    } else if d == 5 {
        "5"@
    } else if d == 6 {
        "6"@
    } else if d == 7 {
        "7"@
    } else if d == 8 {
        "8"@
    } else {
        "9"@
    }
}

/// The decimal text of a number, without leading zeros.
pub open spec fn decimal_text(n: nat) -> Seq<char>
    decreases n,
{
    if n < 10 {
        digit_text(n)
    } else {
        decimal_text(n / 10) + digit_text(n % 10)
    }
}

fn digit(d: u32) -> (s: &'static str)
    requires
        d < 10,
    ensures
        s@ == digit_text(d as nat),
{
    if d == 0 {
        "0"
    } else if d == 1 {
        "1"
    } else if d == 2 {
        "2"
    } else if d == 3 {
        "3"
    } else if d == 4 {
        "4"
    } else if d == 5 {
        "5"
    } else if d == 6 {
        "6"
    } else if d == 7 {
        "7"
    } else if d == 8 {
        "8"
    } else {
        "9"
    }
}

/// Writes a number in decimal.
pub fn decimal(n: u32) -> (s: String)
    ensures
        s@ == decimal_text(n as nat),
    decreases n,
{
    if n < 10 {
        String::from_str(digit(n))
    } else {
        decimal(n / 10).concat(digit(n % 10))
    }
}

/// What a progress line begins with: the work that the job of this kind does,
/// and for an animation its name in brackets.
pub open spec fn progress_label(kind: JobKind, name: Seq<char>) -> Seq<char> {
    match kind {
        JobKind::Mesh => "Image to 3D Base Model: "@,
        JobKind::Rigging => "Rigging Model: "@,
        JobKind::Animation => "Applying Animation ("@ + name + "): "@,
    }
}

/// The progress line of a job: its label, the percentage and a percent sign.
/// `name` tells the two animation jobs apart and is not used for the others.
pub fn progress_text(kind: JobKind, name: &str, percent: u32) -> (line: String)
    ensures
        line@ == progress_label(kind, name@) + decimal_text(percent as nat) + "%"@,
{
    let label = match kind {
        JobKind::Mesh => String::from_str("Image to 3D Base Model: "),
        JobKind::Rigging => String::from_str("Rigging Model: "),
        JobKind::Animation => String::from_str("Applying Animation (").concat(name).concat("): "),
    };
    let number = decimal(percent);
    label.concat(number.as_str()).concat("%")
}

/// The line that announces an action, for those that begin a stage's work:
/// each of the seven stages has one.
pub open spec fn announced(action: Action) -> Option<Seq<char>> {
    match action {
        Action::GenerateStats { .. } => Some("Analyzing food and generating stats..."@),
        Action::GenerateConceptImage { .. } => Some("Generating robot concept image..."@),
        Action::CreateMeshJob { .. } => Some("Submitting 3D Generation Task to Meshy..."@),
        Action::CreateRigJob { .. } => Some("Creating Rigging task..."@),
        Action::CreateAnimationJobs { .. } => Some("Creating Animation tasks (Idle and Attack)..."@),
        Action::StoreModels { .. } => Some("Downloading animated models..."@),
        Action::StoreRecord(_) => Some("Saving robot record..."@),
        _ => None,
    }
}

/// The line to publish before an action is carried out, if it has one.
pub fn announcement(action: &Action) -> (line: Option<String>)
    ensures
        opt_text(line) == announced(*action),
{
    match action {
        Action::GenerateStats { .. } => Some(String::from_str("Analyzing food and generating stats...")),
        Action::GenerateConceptImage { .. } => Some(String::from_str("Generating robot concept image...")),
        Action::CreateMeshJob { .. } => Some(String::from_str("Submitting 3D Generation Task to Meshy...")),
        Action::CreateRigJob { .. } => Some(String::from_str("Creating Rigging task...")),
        Action::CreateAnimationJobs { .. } => Some(
            String::from_str("Creating Animation tasks (Idle and Attack)..."),
        ),
        Action::StoreModels { .. } => Some(String::from_str("Downloading animated models...")),
        Action::StoreRecord(_) => Some(String::from_str("Saving robot record...")),
        _ => None,
    }
}

/// How a timed-out job is named.
pub open spec fn timeout_text(kind: JobKind, handle: Seq<char>) -> Seq<char> {
    match kind {
        JobKind::Mesh => "Timeout waiting for Meshy AI task "@ + handle,
        JobKind::Rigging => "Timeout waiting for Rigging task "@ + handle,
        JobKind::Animation => "Timeout waiting for Animation task "@ + handle,
    }
}

/// The line for a failed status check: the transport's or the decoder's own
/// words, and for a refusal the status and the body.
pub open spec fn fetch_error_text(e: FetchErrorView) -> Seq<char> {
    match e {
        FetchErrorView::Transport(m) => m,
        FetchErrorView::Service { status, body } => "Meshy poll error: "@ + decimal_text(status as nat) + " - "@
            + body,
        FetchErrorView::Decode(m) => m,
    }
}

/// The line for a polling loop that ended without a result. The message of a
/// failed or canceled job is passed on as the loop made it.
pub open spec fn poll_error_text(e: PollErrorView) -> Seq<char> {
    match e {
        PollErrorView::Timeout { kind, handle } => timeout_text(kind, handle),
        PollErrorView::TerminalFailure(m) => m,
        PollErrorView::Fetch(f) => fetch_error_text(f),
    }
}

/// The line for a run that was given up.
pub open spec fn failure_line(cause: Cause) -> Seq<char> {
    match cause {
        Cause::Poll(e) => poll_error_text(e@),
        Cause::Reported(m) => m@,
        Cause::Unexpected => "Unexpected event for this stage"@,
    }
}

pub fn fetch_error_message(e: &FetchError) -> (line: String)
    ensures
        line@ == fetch_error_text(e@),
{
    match e {
        FetchError::Transport(m) => m.clone(),
        FetchError::Service { status, body } => {
            let code: u32 = *status as u32;
            String::from_str("Meshy poll error: ").concat(decimal(code).as_str()).concat(" - ").concat(
                body.as_str(),
            )
        },
        FetchError::Decode(m) => m.clone(),
    }
}

pub fn poll_error_message(e: &PollError) -> (line: String)
    ensures
        line@ == poll_error_text(e@),
{
    match e {
        PollError::Timeout { kind, handle } => match kind {
            JobKind::Mesh => String::from_str("Timeout waiting for Meshy AI task ").concat(handle.as_str()),
            JobKind::Rigging => String::from_str("Timeout waiting for Rigging task ").concat(handle.as_str()),
            JobKind::Animation => String::from_str("Timeout waiting for Animation task ").concat(
                handle.as_str(),
            ),
        },
        PollError::TerminalFailure(m) => m.clone(),
        PollError::Fetch(f) => fetch_error_message(f),
    }
}

/// The single line that a given-up run is reported with.
pub fn failure_message(error: &PipelineError) -> (line: String)
    ensures
        line@ == failure_line(error.cause),
{
    match &error.cause {
        Cause::Poll(e) => poll_error_message(e),
        Cause::Reported(m) => m.clone(),
        Cause::Unexpected => String::from_str("Unexpected event for this stage"),
    }
}

} // verus!
