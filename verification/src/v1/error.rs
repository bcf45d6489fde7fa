//! The failures that an operation reports.
use vstd::prelude::*;

verus! {

/// Why an operation failed. Each variant carries a message for the caller.
#[derive(Clone, Debug, PartialEq, Eq)]
pub enum APIError {
    /// The input was found malformed before anything was sent.
    BadRequestError(String),
    /// The parameters could not be brought into their canonical JSON form.
    ParseError(String),
    /// The upload source could not be turned into a part.
    FileError(String),
    /// The transport failed to deliver the request or to read the response.
    EndpointError(String),
    /// The transport failed in the middle of a streamed response.
    StreamError(String),
}

impl APIError {
    /// The message that the error carries.
    pub open spec fn text(self) -> Seq<char> {
        match self {
            APIError::BadRequestError(message) => message@,
            APIError::ParseError(message) => message@,
            APIError::FileError(message) => message@,
            APIError::EndpointError(message) => message@,
            APIError::StreamError(message) => message@,
        }
    }

    /// The message that the error carries.
    pub fn message(&self) -> (message: String)
        ensures
            message@ == self.text(),
    {
        match self {
            APIError::BadRequestError(message) => message.clone(),
            APIError::ParseError(message) => message.clone(),
            APIError::FileError(message) => message.clone(),
            APIError::EndpointError(message) => message.clone(),
            APIError::StreamError(message) => message.clone(),
        }
    }
}

} // verus!
