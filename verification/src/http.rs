//! What one HTTP exchange gave, as plain values.

use vstd::prelude::*;
use crate::error::FetchError;

verus! {

/// A GET request that is to be made.
#[derive(Debug)]
pub struct Get {
    pub url: String,
    /// The value of the `User-Agent` header, where one is to be sent.
    pub user_agent: Option<String>,
    /// The number of seconds after which the request is given up, where it
    /// has such a ceiling.
    pub timeout_secs: Option<u64>,
}

/// A GET request as its contracts see it.
pub struct GetView {
    pub url: Seq<char>,
    pub user_agent: Option<Seq<char>>,
    pub timeout_secs: Option<u64>,
}

impl View for Get {
    type V = GetView;

    open spec fn view(&self) -> GetView {
        GetView {
            url: self.url@,
            user_agent: match self.user_agent {
                Some(agent) => Some(agent@),
                None => None,
            },
            timeout_secs: self.timeout_secs,
        }
    }
}

/// The outcome of one request, as reported by whoever performed it.
#[derive(Debug)]
pub enum Reply<T> {
    /// No answer could be read: the connection failed, timed out, or the body
    /// could not be received.
    Failed,
    /// The server answered with a status code and a body.
    Answered { status: u16, body: T },
}

/// True for the status codes that count as success: the 2xx range.
pub open spec fn status_ok(status: u16) -> bool {
    200 <= status < 300
}

/// Decides whether a status code is in the 2xx range.
pub fn is_success_status(status: u16) -> (ok: bool)
    ensures
        ok == status_ok(status),
{
    200 <= status && status < 300
}

impl<T> Reply<T> {
    /// True when the server answered with a 2xx status.
    pub open spec fn succeeded(self) -> bool {
        match self {
            Reply::Failed => false,
            Reply::Answered { status, body } => status_ok(status),
        }
    }

    /// Tells whether the server answered with a 2xx status.
    pub fn is_success(&self) -> (ok: bool)
        ensures
            ok == self.succeeded(),
    {
        match self {
            Reply::Failed => false,
            Reply::Answered { status, body } => is_success_status(*status),
        }
    }
}

impl<T: View> View for Reply<T> {
    type V = Reply<T::V>;

    open spec fn view(&self) -> Reply<T::V> {
        match *self {
            Reply::Failed => Reply::Failed,
            Reply::Answered { status, body } => Reply::Answered { status, body: body@ },
        }
    }
}

/// What a reply is worth where nothing but a well-formed 2xx answer will do.
/// `body` is the parsed body, `None` where it did not have the expected shape.
pub open spec fn required_body<T>(reply: Reply<Option<T>>) -> Result<T, FetchError> {
    match reply {
        Reply::Failed => Err(FetchError::Transport),
        Reply::Answered { status, body } => {
            if !status_ok(status) {
                Err(FetchError::Status(status))
            } else {
                match body {
                    None => Err(FetchError::Malformed),
                    Some(value) => Ok(value),
                }
            }
        },
    }
}

/// Takes the parsed body out of a reply that must have succeeded. A failed
/// request, a status outside 2xx and a body of the wrong shape are told
/// apart, in that order.
pub fn require_body<T>(reply: Reply<Option<T>>) -> (res: Result<T, FetchError>)
    ensures
        res == required_body(reply),
{
    match reply {
        Reply::Failed => Err(FetchError::Transport),
        Reply::Answered { status, body } => {
            if !is_success_status(status) {
                Err(FetchError::Status(status))
            } else {
                match body {
                    None => Err(FetchError::Malformed),
                    Some(value) => Ok(value),
                }
            }
        },
    }
}

} // verus!
