//! The errors that end a run.

use vstd::prelude::*;
use vstd::string::*;

verus! {

/// Why a request whose answer the run cannot do without gave none.
#[derive(Clone, Copy, Debug, PartialEq, Eq)]
pub enum FetchError {
    /// The request could not be completed.
    Transport,
    /// The server answered with a status code outside the 2xx range.
    Status(u16),
    /// The body did not have the expected shape.
    Malformed,
}

/// A fatal error, by the stage of the run that met it.
#[derive(Clone, Copy, Debug, PartialEq, Eq)]
pub enum RunError {
    /// The account identifier is not configured.
    MissingAccountId,
    /// The API key is not configured.
    MissingApiKey,
    /// The repository list could not be had.
    RepositoryList(FetchError),
    /// The inference endpoint gave no rating.
    Inference(FetchError),
}

impl FetchError {
    /// The text that describes this error.
    pub open spec fn message_text(self) -> Seq<char> {
        match self {
            FetchError::Transport => "Failed to send request"@,
            FetchError::Status(_) => "Unexpected response status"@,
            FetchError::Malformed => "Failed to parse response"@,
        }
    }

    /// Describes the error in words.
    pub fn message(&self) -> (text: String)
        ensures
            text@ == self.message_text(),
    {
        match self {
            FetchError::Transport => String::from_str("Failed to send request"),
            FetchError::Status(_) => String::from_str("Unexpected response status"),
            FetchError::Malformed => String::from_str("Failed to parse response"),
        }
    }
}

impl RunError {
    /// The text that reports this error: for a failed request, the stage
    /// followed by what went wrong.
    pub open spec fn message_text(self) -> Seq<char> {
        match self {
            RunError::MissingAccountId => "ACCOUNT_ID not set"@,
            RunError::MissingApiKey => "API_KEY not set"@,
            RunError::RepositoryList(e) => "repository list: "@ + e.message_text(),
            RunError::Inference(e) => "inference: "@ + e.message_text(),
        }
    }

    /// Describes the error in words, naming the stage that failed.
    pub fn message(&self) -> (text: String)
        ensures
            text@ == self.message_text(),
    {
        match self {
            RunError::MissingAccountId => String::from_str("ACCOUNT_ID not set"),
            RunError::MissingApiKey => String::from_str("API_KEY not set"),
            RunError::RepositoryList(e) => {
                let detail = e.message();
                String::from_str("repository list: ").concat(detail.as_str())
            },
            RunError::Inference(e) => {
                let detail = e.message();
                String::from_str("inference: ").concat(detail.as_str())
            },
        }
    }
}

} // verus!
