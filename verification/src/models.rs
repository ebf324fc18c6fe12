//! Bodies of the HTTP endpoints: the inbound chat request and the two
//! outbound shapes, a successful reply and an error message.

use vstd::prelude::*;

verus! {

/// Inbound body of the chat endpoint.
#[derive(Debug)]
pub struct ChatRequest {
    /// The user's message/question.
    pub message: String,
}

/// Outbound body of the chat endpoint on success.
#[derive(Debug)]
pub struct ChatResponse {
    /// The generated reply.
    pub response: String,
}

/// Outbound body of the chat endpoint on failure.
#[derive(Debug)]
pub struct ErrorResponse {
    /// The client-facing error message.
    pub error: String,
}

impl ErrorResponse {
    /// Builds an error body carrying exactly the given text.
    pub fn new(error: &str) -> (r: Self)
        ensures
            r.error@ == error@,
    {
        ErrorResponse { error: error.to_owned() }
    }
}

} // verus!
