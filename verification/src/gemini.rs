//! The relay client: configuration for the upstream generative-language API,
//! the shape of its requests and responses, and the logic that builds a
//! request around one user message and extracts the reply text.

use vstd::prelude::*;

verus! {

/// One piece of text inside an upstream content block.
#[derive(Debug)]
pub struct Part {
    pub text: String,
}

/// One content block of the upstream exchange: its parts, and a role that the
/// system instruction leaves out.
#[derive(Debug)]
pub struct Content {
    pub parts: Vec<Part>,
    pub role: Option<String>,
}

/// The outbound upstream payload: the user turn, and the fixed system
/// instruction.
#[derive(Debug)]
pub struct GeminiRequest {
    pub contents: Vec<Content>,
    pub system_instruction: Option<Content>,
}

/// One alternative reply in the upstream response.
#[derive(Debug)]
pub struct Candidate {
    pub content: Content,
}

/// The decoded upstream response: its candidates, of which only the first is
/// consumed.
#[derive(Debug)]
pub struct GeminiResponse {
    pub candidates: Vec<Candidate>,
}

/// One failure of the relay call, kept internal and never shown verbatim to
/// the end user.
#[derive(Debug)]
pub enum RelayError {
    /// The upstream answered with a non-success HTTP status.
    UpstreamHttpError { status: u16, body: String },
    /// The request never completed (DNS, TLS, connection reset, timeout).
    TransportError { cause: String },
    /// The upstream answered with a success status whose body could not be
    /// decoded into a response.
    DecodeError { cause: String },
    /// The decoded response carried no candidate or no part to read a reply
    /// from.
    EmptyResponseError,
}

/// Relay client configuration: the credential and the model identifier, both
/// fixed at startup and never mutated.
#[derive(Debug)]
pub struct GeminiClient {
    pub api_key: String,
    pub model: String,
}

/// The model identifier every client is created with.
pub open spec fn default_model() -> Seq<char> {
    "gemini-2.5-flash"@
}

/// Leading part of the upstream endpoint, up to the model identifier.
pub open spec fn url_prefix() -> Seq<char> {
    "https://generativelanguage.googleapis.com/v1beta/models/"@
}

/// Part of the upstream endpoint between the model identifier and the key.
pub open spec fn url_infix() -> Seq<char> {
    ":generateContent?key="@
}

/// The fixed system instruction: a persona prompt constraining the assistant
/// to cybersecurity education, compiled in and independent of any input.
pub open spec fn persona() -> Seq<char> {
    "You are a helpful cybersecurity tutor assistant for university students. Your role is to explain cybersecurity concepts, terminologies, attack types and defenses in a clear, educational manner suitable for classroom learning. Keep explanations concise but informative. Use examples when helpful. If asked about something unrelated to cybersecurity or sensitive topics, politely redirect the conversation back to cybersecurity topics. Always prioritize educational value and ethical understanding."@
}

/// An HTTP status in the success range.
pub open spec fn success_status(status: u16) -> bool {
    200 <= status < 300
}

/// Whether a decoded response carries a reply at all: at least one candidate
/// whose content has at least one part.
pub open spec fn has_reply(resp: GeminiResponse) -> bool {
    resp.candidates@.len() > 0 && resp.candidates@[0].content.parts@.len() > 0
}

/// The reply a response carries: the first candidate's first part, verbatim.
pub open spec fn reply_of(resp: GeminiResponse) -> Seq<char>
    recommends
        has_reply(resp),
{
    resp.candidates@[0].content.parts@[0].text@
}

impl GeminiClient {
    /// Creates a client around the given API key, with the fixed model.
    pub fn new(api_key: String) -> (r: GeminiClient)
        ensures
            r.api_key@ == api_key@,
            r.model@ == default_model(),
    {
        GeminiClient { api_key, model: "gemini-2.5-flash".to_owned() }
    }

    /// The exact endpoint the relay posts to: prefix, model, infix, key.
    pub fn request_url(&self) -> (r: String)
        ensures
            r@ == url_prefix() + self.model@ + url_infix() + self.api_key@,
    {
        let mut url = "https://generativelanguage.googleapis.com/v1beta/models/".to_owned();
        url.append(self.model.as_str());
        url.append(":generateContent?key=");
        url.append(self.api_key.as_str());
        url
    }

    /// Builds the outbound payload: exactly one user turn carrying the given
    /// message verbatim, and the fixed system instruction without a role.
    pub fn build_request(&self, user_message: &str) -> (r: GeminiRequest)
        ensures
            r.contents@.len() == 1,
            r.contents@[0].parts@.len() == 1,
            r.contents@[0].parts@[0].text@ == user_message@,
            r.contents@[0].role matches Some(role) && role@ == "user"@,
            r.system_instruction matches Some(si) && {
                &&& si.parts@.len() == 1
                &&& si.parts@[0].text@ == persona()
                &&& si.role is None
            },
    {
        let system_instruction = Content {
            parts: vec![
                Part {
                    text: "You are a helpful cybersecurity tutor assistant for university students. Your role is to explain cybersecurity concepts, terminologies, attack types and defenses in a clear, educational manner suitable for classroom learning. Keep explanations concise but informative. Use examples when helpful. If asked about something unrelated to cybersecurity or sensitive topics, politely redirect the conversation back to cybersecurity topics. Always prioritize educational value and ethical understanding.".to_owned(),
                },
            ],
            role: None,
        };
        let user_content = Content {
            parts: vec![Part { text: user_message.to_owned() }],
            role: Some("user".to_owned()),
        };
        GeminiRequest { contents: vec![user_content], system_instruction: Some(system_instruction) }
    }
}

/// How an upstream answer is sorted by its HTTP status: a success status
/// passes, any other fails the relay with that very status and body.
pub open spec fn classification_matches(
    status: u16,
    body: Seq<char>,
    r: Result<(), RelayError>,
) -> bool {
    &&& (success_status(status) <==> r is Ok)
    &&& (r matches Err(e) ==> e matches RelayError::UpstreamHttpError { status: s, body: b }
        && s == status && b@ == body)
}

/// Sorts an upstream answer by its HTTP status: a success status lets the
/// body go on to decoding, any other fails the relay with that status and
/// body.
pub fn classify_response(status: u16, body: &str) -> (r: Result<(), RelayError>)
    ensures
        classification_matches(status, body@, r),
{
    if 200 <= status && status < 300 {
        Ok(())
    } else {
        Err(RelayError::UpstreamHttpError { status, body: body.to_owned() })
    }
}

/// How a reply is read out of a decoded response: the first candidate's first
/// part verbatim, and the empty-response failure exactly when either is
/// absent.
pub open spec fn extraction_matches(resp: GeminiResponse, r: Result<String, RelayError>) -> bool {
    &&& (has_reply(resp) <==> r is Ok)
    &&& (r matches Ok(text) ==> text@ == reply_of(resp))
    &&& (r matches Err(e) ==> e is EmptyResponseError)
}

/// Extracts the reply from a decoded response: the first candidate's first
/// part verbatim, or the empty-response failure when either is absent.
pub fn extract_reply(resp: &GeminiResponse) -> (r: Result<String, RelayError>)
    ensures
        extraction_matches(*resp, r),
{
    if resp.candidates.len() == 0 {
        return Err(RelayError::EmptyResponseError);
    }
    let first = &resp.candidates[0];
    if first.content.parts.len() == 0 {
        return Err(RelayError::EmptyResponseError);
    }
    Ok(first.content.parts[0].text.clone())
}

} // verus!
