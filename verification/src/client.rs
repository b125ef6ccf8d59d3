//! What a remote job client decides once the transport has answered: whether a
//! job was created, and whether a status check can be read at all.

use vstd::prelude::*;
use vstd::string::*;
use crate::job::{FetchError, FetchErrorView};

verus! {

/// The answer of the service to one request.
#[derive(Clone, Debug, PartialEq, Eq)]
pub struct HttpReply {
    pub status: u16,
    pub body: String,
}

/// An HTTP status in the success class.
pub open spec fn is_success(status: u16) -> bool {
    200 <= status <= 299
}

/// The identifier under which a created job is polled.
#[derive(Clone, Debug, PartialEq, Eq)]
pub struct JobHandle {
    pub id: String,
}

/// Why no job was created. Submission is never retried.
#[derive(Clone, Debug, PartialEq, Eq)]
pub enum SubmitError {
    /// The credential of the service is not configured.
    AuthMissing,
    /// The request never got an answer.
    Transport(String),
    /// The service refused, or answered without a job identifier.
    Service { status: u16, body: String },
}

pub ghost enum SubmitErrorView {
    AuthMissing,
    Transport(Seq<char>),
    Service { status: u16, body: Seq<char> },
}

impl View for SubmitError {
    type V = SubmitErrorView;

    open spec fn view(&self) -> SubmitErrorView {
        match *self {
            SubmitError::AuthMissing => SubmitErrorView::AuthMissing,
            SubmitError::Transport(m) => SubmitErrorView::Transport(m@),
            SubmitError::Service { status, body } => SubmitErrorView::Service { status, body: body@ },
        }
    }
}

/// The outcome of a submission: without a credential nothing is sent; a
/// request that got no answer is a transport error; an answer outside the
/// success class, or one that names no job, is a service error with the
/// answer's status and body; otherwise the job named is the handle.
pub open spec fn submission(
    credential: bool,
    sent: Result<HttpReply, String>,
    named: Option<String>,
) -> Result<Seq<char>, SubmitErrorView> {
    if !credential {
        Err(SubmitErrorView::AuthMissing)
    } else {
        match sent {
            Err(m) => Err(SubmitErrorView::Transport(m@)),
            Ok(reply) => match named {
                Some(id) if is_success(reply.status) => Ok(id@),
                _ => Err(SubmitErrorView::Service { status: reply.status, body: reply.body@ }),
            },
        }
    }
}

/// Decides what a submission came to. `credential` says whether the service's
/// credential is configured, `sent` is the transport's answer, and `named` the
/// job identifier read from the answer's body, if it holds one.
pub fn submit_outcome(credential: bool, sent: Result<HttpReply, String>, named: Option<String>) -> (r: Result<
    JobHandle,
    SubmitError,
>)
    ensures
        match submission(credential, sent, named) {
            Ok(id) => r is Ok && r->Ok_0.id@ == id,
            Err(e) => r is Err && r->Err_0@ == e,
        },
{
    if !credential {
        return Err(SubmitError::AuthMissing);
    }
    match sent {
        Err(m) => Err(SubmitError::Transport(m)),
        Ok(reply) => {
            let success = 200 <= reply.status && reply.status <= 299;
            match named {
                Some(id) => {
                    if success {
                        Ok(JobHandle { id })
                    } else {
                        Err(SubmitError::Service { status: reply.status, body: reply.body })
                    }
                },
                None => Err(SubmitError::Service { status: reply.status, body: reply.body }),
            }
        },
    }
}

/// The error that a status check ends in before its body is even read: a
/// transport error where there was no answer, a service error where the answer
/// is outside the success class, and none where the body is to be read.
pub open spec fn unread(sent: Result<HttpReply, String>) -> Option<FetchErrorView> {
    match sent {
        Err(m) => Some(FetchErrorView::Transport(m@)),
        Ok(reply) => if is_success(reply.status) {
            None
        } else {
            Some(FetchErrorView::Service { status: reply.status, body: reply.body@ })
        },
    }
}

/// Tells whether the answer to a status check can be read, and gives its body
/// if so.
pub fn fetch_outcome(sent: Result<HttpReply, String>) -> (r: Result<String, FetchError>)
    ensures
        match unread(sent) {
            Some(e) => r is Err && r->Err_0@ == e,
            None => r is Ok && r->Ok_0 == sent->Ok_0.body,
        },
{
    match sent {
        Err(m) => Err(FetchError::Transport(m)),
        Ok(reply) => {
            if 200 <= reply.status && reply.status <= 299 {
                Ok(reply.body)
            } else {
                Err(FetchError::Service { status: reply.status, body: reply.body })
            }
        },
    }
}

/// The reference under which a base64 image is sent to the mesh service.
pub fn image_data_uri(base64_image: &str) -> (uri: String)
    ensures
        uri@ == "data:image/png;base64,"@ + base64_image@,
{
    String::from_str("data:image/png;base64,").concat(base64_image)
}

} // verus!
