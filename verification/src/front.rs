//! The HTTP front door's decisions: message validation, the health body, the
//! widget script, and the mapping from relay results to client-facing
//! outcomes.

use crate::gemini::classification_matches;
use crate::gemini::extraction_matches;
use crate::gemini::has_reply;
use crate::gemini::success_status;
use crate::gemini::GeminiResponse;
use crate::gemini::RelayError;
use crate::models::ChatRequest;
use crate::models::ChatResponse;
use crate::models::ErrorResponse;
use vstd::prelude::*;

verus! {

/// The body the chat endpoint answers with: a reply on success, an error
/// message otherwise.
#[derive(Debug)]
pub enum ChatBody {
    Reply(ChatResponse),
    Failure(ErrorResponse),
}

/// One client-facing answer of the chat endpoint: an HTTP status and a body.
#[derive(Debug)]
pub struct ChatHttpOutcome {
    pub status: u16,
    pub body: ChatBody,
}

/// The message of the rejection a blank request gets.
pub open spec fn empty_message_text() -> Seq<char> {
    "Message cannot be empty"@
}

/// The one generic message every relay failure is flattened to.
pub open spec fn generic_failure_text() -> Seq<char> {
    "Failed to generate response"@
}

/// One character with the Unicode `White_Space` property, the set `str::trim`
/// removes.
pub open spec fn is_space_char(c: char) -> bool {
    let n = c as u32;
    ||| (0x09 <= n && n <= 0x0D)
    ||| n == 0x20
    ||| n == 0x85
    ||| n == 0xA0
    ||| n == 0x1680
    ||| (0x2000 <= n && n <= 0x200A)
    ||| n == 0x2028
    ||| n == 0x2029
    ||| n == 0x202F
    ||| n == 0x205F
    ||| n == 0x3000
}

/// A message that trims to nothing: empty, or whitespace throughout.
pub open spec fn is_blank(s: Seq<char>) -> bool {
    forall|i: int| 0 <= i < s.len() ==> #[trigger] is_space_char(s[i])
}

/// Whether `c` has the Unicode `White_Space` property.
fn is_space(c: char) -> (r: bool)
    ensures
        r == is_space_char(c),
{
    let n = c as u32;
    (0x09 <= n && n <= 0x0D) || n == 0x20 || n == 0x85 || n == 0xA0 || n == 0x1680 || (0x2000 <= n
        && n <= 0x200A) || n == 0x2028 || n == 0x2029 || n == 0x202F || n == 0x205F || n == 0x3000
}

/// Whether the message is empty or all whitespace, the condition under which
/// the chat endpoint rejects it without invoking the relay.
pub fn message_is_blank(message: &str) -> (r: bool)
    ensures
        r == is_blank(message@),
{
    let len = message.unicode_len();
    let mut i: usize = 0;
    while i < len
        invariant
            i <= len,
            len == message@.len(),
            forall|j: int| 0 <= j < i ==> #[trigger] is_space_char(message@[j]),
        decreases len - i,
    {
        let c = message.get_char(i);
        if !is_space(c) {
            assert(!is_space_char(message@[i as int]));
            return false;
        }
        i = i + 1;
    }
    true
}

/// How the chat endpoint answers a blank request: a rejection with status 400
/// and the fixed message, and nothing else.
pub open spec fn blank_rejection_matches(req: ChatRequest, r: Option<ChatHttpOutcome>) -> bool {
    &&& (is_blank(req.message@) <==> r is Some)
    &&& (r matches Some(o) ==> o.status == 400 && (o.body matches ChatBody::Failure(e)
        && e.error@ == empty_message_text()))
}

/// Validates an inbound request: a blank message is answered at once with the
/// fixed rejection, any other message goes on to the relay.
pub fn reject_blank(req: &ChatRequest) -> (r: Option<ChatHttpOutcome>)
    ensures
        blank_rejection_matches(*req, r),
{
    if message_is_blank(req.message.as_str()) {
        Some(
            ChatHttpOutcome {
                status: 400,
                body: ChatBody::Failure(ErrorResponse::new("Message cannot be empty")),
            },
        )
    } else {
        None
    }
}

/// How the chat endpoint answers once the relay has run: 200 with the relay's
/// own reply, or 500 with the fixed generic message whatever the failure was.
pub open spec fn chat_outcome_matches(
    relay: Result<String, RelayError>,
    r: ChatHttpOutcome,
) -> bool {
    &&& (relay matches Ok(text) ==> r.status == 200 && (r.body matches ChatBody::Reply(c)
        && c.response@ == text@))
    &&& (relay is Err ==> r.status == 500 && (r.body matches ChatBody::Failure(e)
        && e.error@ == generic_failure_text()))
}

/// Maps the relay's result to the client-facing answer, flattening every
/// failure to one generic message.
pub fn chat_reply_outcome(relay: Result<String, RelayError>) -> (r: ChatHttpOutcome)
    ensures
        chat_outcome_matches(relay, r),
{
    match relay {
        Ok(response) => ChatHttpOutcome {
            status: 200,
            body: ChatBody::Reply(ChatResponse { response }),
        },
        Err(_) => ChatHttpOutcome {
            status: 500,
            body: ChatBody::Failure(ErrorResponse::new("Failed to generate response")),
        },
    }
}

/// Law: the chat endpoint never leaks upstream detail. Whatever the relay
/// returned, the answer has exactly one of two shapes: 200 carrying the
/// relay's own reply, or 500 whose body is the fixed generic message — never
/// an upstream status, body or cause.
pub proof fn chat_outcome_never_leaks(relay: Result<String, RelayError>, r: ChatHttpOutcome)
    requires
        chat_outcome_matches(relay, r),
    ensures
        (r.status == 200 && (relay matches Ok(t) && r.body matches ChatBody::Reply(c)
            && c.response@ == t@)) || (r.status == 500 && (r.body matches ChatBody::Failure(e)
            && e.error@ == generic_failure_text())),
        relay matches Ok(t) && t@.len() > 0 ==> (r.body matches ChatBody::Reply(c)
            && c.response@.len() > 0),
{
}

/// Law: when the upstream answer decodes but carries no candidate or no part,
/// the relay fails with the empty-response error and the endpoint answers 500
/// with the generic message.
pub proof fn empty_upstream_yields_generic_500(
    resp: GeminiResponse,
    relay: Result<String, RelayError>,
    out: ChatHttpOutcome,
)
    requires
        !has_reply(resp),
        extraction_matches(resp, relay),
        chat_outcome_matches(relay, out),
    ensures
        relay matches Err(e) && e is EmptyResponseError,
        out.status == 500,
        out.body matches ChatBody::Failure(e) && e.error@ == generic_failure_text(),
{
}

/// Law: a non-success upstream status surfaces internally with that very
/// status and body, while the endpoint still answers 500 with the generic
/// message — the status is never passed through to the client.
pub proof fn upstream_status_never_passed_through(
    status: u16,
    body: Seq<char>,
    classified: Result<(), RelayError>,
    relay: Result<String, RelayError>,
    out: ChatHttpOutcome,
)
    requires
        !success_status(status),
        classification_matches(status, body, classified),
        classified matches Err(e) && relay == Result::<String, RelayError>::Err(e),
        chat_outcome_matches(relay, out),
    ensures
        relay matches Err(e) && e matches RelayError::UpstreamHttpError { status: s, body: b }
            && s == status && b@ == body,
        out.status == 500,
        out.body matches ChatBody::Failure(e) && e.error@ == generic_failure_text(),
{
}

/// Law: a blank message — empty or whitespace throughout — is answered with
/// exactly 400 and the fixed rejection message. The rejection is decided from
/// the message alone, so no relay result takes part in it.
pub proof fn blank_message_rejected_exactly(req: ChatRequest, r: Option<ChatHttpOutcome>)
    requires
        blank_rejection_matches(req, r),
        is_blank(req.message@),
    ensures
        r matches Some(o) && o.status == 400 && (o.body matches ChatBody::Failure(e)
            && e.error@ == empty_message_text()),
{
}

/// The health endpoint's body, fixed at compile time.
pub open spec fn health_text() -> Seq<char> {
    "{\"service\":\"cybersecurity-chatbot\",\"status\":\"healthy\"}"@
}

/// The health endpoint's status: 200, unconditionally.
pub fn health_status() -> (r: u16)
    ensures
        r == 200,
{
    200
}

/// The health endpoint's body, the same whatever the relay's configuration or
/// reachability.
pub fn health_body() -> (r: String)
    ensures
        r@ == health_text(),
{
    "{\"service\":\"cybersecurity-chatbot\",\"status\":\"healthy\"}".to_owned()
}

/// Law: the health body always reports the service healthy — the fragment
/// `"status":"healthy"` stands in it.
pub proof fn health_reports_healthy()
    ensures
        exists|i: int|
            0 <= i && i + "\"status\":\"healthy\""@.len() <= health_text().len()
                && #[trigger] health_text().subrange(i, i + "\"status\":\"healthy\""@.len() as int)
                == "\"status\":\"healthy\""@,
{
    reveal_strlit("{\"service\":\"cybersecurity-chatbot\",\"status\":\"healthy\"}");
    reveal_strlit("\"status\":\"healthy\"");
    assert(health_text().subrange(35, 53) =~= "\"status\":\"healthy\""@);
    assert(0 <= 35 && 35 + "\"status\":\"healthy\""@.len() <= health_text().len()
        && health_text().subrange(35, 35 + "\"status\":\"healthy\""@.len() as int)
        == "\"status\":\"healthy\""@);
}

/// The embeddable widget script, compiled in and served verbatim.
pub open spec fn widget_source() -> Seq<char> {
    "(function(){var d=document;var s=d.currentScript;var base=s&&s.src?s.src.replace(/\\/widget\\.js$/,''):'';function el(t){return d.createElement(t);}var box=el('div');box.id='cyber-chat-widget';box.style.cssText='position:fixed;bottom:20px;right:20px;width:320px;font-family:sans-serif;z-index:9999;';var log=el('div');log.style.cssText='height:240px;overflow-y:auto;background:#fff;border:1px solid #ccc;border-radius:8px 8px 0 0;padding:8px;';var form=el('form');var input=el('input');input.type='text';input.placeholder='Ask a cybersecurity question...';input.style.cssText='width:74%;padding:6px;';var btn=el('button');btn.type='submit';btn.textContent='Send';btn.style.cssText='width:24%;padding:6px;';form.appendChild(input);form.appendChild(btn);box.appendChild(log);box.appendChild(form);function add(who,text){var p=el('p');p.textContent=who+': '+text;log.appendChild(p);log.scrollTop=log.scrollHeight;}form.addEventListener('submit',function(ev){ev.preventDefault();var msg=input.value;if(!msg.trim()){return;}add('You',msg);input.value='';fetch(base+'/api/chat',{method:'POST',headers:{'Content-Type':'application/json'},body:JSON.stringify({message:msg})}).then(function(r){return r.json();}).then(function(data){add('Tutor',data.response||data.error||'No response');}).catch(function(){add('Tutor','Failed to reach the server');});});d.body.appendChild(box);})();"@
}

/// The widget script, byte for byte the compiled-in source.
pub fn widget_js() -> (r: &'static str)
    ensures
        r@ == widget_source(),
{
    "(function(){var d=document;var s=d.currentScript;var base=s&&s.src?s.src.replace(/\\/widget\\.js$/,''):'';function el(t){return d.createElement(t);}var box=el('div');box.id='cyber-chat-widget';box.style.cssText='position:fixed;bottom:20px;right:20px;width:320px;font-family:sans-serif;z-index:9999;';var log=el('div');log.style.cssText='height:240px;overflow-y:auto;background:#fff;border:1px solid #ccc;border-radius:8px 8px 0 0;padding:8px;';var form=el('form');var input=el('input');input.type='text';input.placeholder='Ask a cybersecurity question...';input.style.cssText='width:74%;padding:6px;';var btn=el('button');btn.type='submit';btn.textContent='Send';btn.style.cssText='width:24%;padding:6px;';form.appendChild(input);form.appendChild(btn);box.appendChild(log);box.appendChild(form);function add(who,text){var p=el('p');p.textContent=who+': '+text;log.appendChild(p);log.scrollTop=log.scrollHeight;}form.addEventListener('submit',function(ev){ev.preventDefault();var msg=input.value;if(!msg.trim()){return;}add('You',msg);input.value='';fetch(base+'/api/chat',{method:'POST',headers:{'Content-Type':'application/json'},body:JSON.stringify({message:msg})}).then(function(r){return r.json();}).then(function(data){add('Tutor',data.response||data.error||'No response');}).catch(function(){add('Tutor','Failed to reach the server');});});d.body.appendChild(box);})();"
}

/// The content type the widget script is served under.
pub fn widget_content_type() -> (r: &'static str)
    ensures
        r@ == "application/javascript"@,
{
    "application/javascript"
}

} // verus!
