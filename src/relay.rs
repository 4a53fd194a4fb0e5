//! The relay's decisions. The host performs each outbound action the relay
//! asks for and hands back what came of it.
use vstd::prelude::*;
use crate::error::{headers_of, status_of, RelayError};
use crate::http::{
    classify_method, header, is_preflight, json_headers, json_response, method_of, pairs,
    preflight_response, HttpResponse, Method,
};
use crate::json::{json_string_of, quote};
use crate::payload::{
    encode_message, max_tokens_choice, message_text, model_choice, payload_text, provider_message,
    temperature_choice, usable_key, GenerateRequest, ProviderMessage, RelayConfig,
};

verus! {

/// The provider's endpoint.
pub open spec fn provider_url() -> Seq<char> {
    "https://api.anthropic.com/v1/messages"@
}

/// The headers of a call to the provider made with `key`.
pub open spec fn provider_headers(key: Seq<char>) -> Seq<(Seq<char>, Seq<char>)> {
    seq![
        ("Content-Type"@, "application/json"@),
        ("x-api-key"@, key),
        ("anthropic-version"@, "2023-06-01"@),
    ]
}

/// A `POST` to make: its URL, headers in order, and JSON body.
#[derive(Clone, Debug)]
pub struct OutboundCall {
    pub url: String,
    pub headers: Vec<(String, String)>,
    pub body: String,
}

/// What the relay does with an inbound request.
#[derive(Clone, Debug)]
pub enum Step {
    /// Answer at once with this response.
    Respond(HttpResponse),
    /// Fail with this error.
    Fail(RelayError),
    /// Make this call to the provider, then hand its outcome to [`finish`].
    Call(OutboundCall),
}

/// The JSON payload that relays `req` under `c`.
pub open spec fn request_payload(req: GenerateRequest, c: RelayConfig) -> Seq<char> {
    payload_text(
        json_string_of(model_choice(req, c)),
        max_tokens_choice(req, c),
        temperature_choice(req, c),
        json_string_of(req.prompt@),
        match req.system {
            Some(s) => Some(json_string_of(s@)),
            None => None,
        },
    )
}

/// Builds the call that relays `m` with `key`.
fn provider_call(m: &ProviderMessage, key: &String) -> (c: OutboundCall)
    ensures
        c.url@ == provider_url(),
        pairs(c.headers@) == provider_headers(key@),
        c.body@ == message_text(*m),
{
    let body = encode_message(m);
    let mut headers: Vec<(String, String)> = Vec::new();
    headers.push(header("Content-Type", "application/json"));
    headers.push(header("x-api-key", key.as_str()));
    headers.push(header("anthropic-version", "2023-06-01"));
    assert(pairs(headers@) =~= provider_headers(key@));
    OutboundCall { url: String::from_str("https://api.anthropic.com/v1/messages"), headers, body }
}

/// Decides what to do with an inbound request: `method` is its method name,
/// `body` its body as parsed into a request, or the parser's message.
///
/// A preflight is answered at once, whatever else the request holds; any
/// method but `POST` is refused; then a body that did not parse fails, then a
/// missing or empty key. Otherwise the request is relayed with the configured
/// key, its left-out fields filled from `config`.
pub fn begin(method: &str, body: Result<GenerateRequest, String>, config: &RelayConfig) -> (r:
    Step)
    ensures
        method_of(method@) == Method::Options ==> (r matches Step::Respond(resp) && is_preflight(
            resp,
        )),
        method_of(method@) == Method::Other ==> (r matches Step::Fail(e) && e is MethodNotAllowed
            && status_of(e) == 405 && headers_of(e) == seq![("Allow"@, "POST, OPTIONS"@)]),
        method_of(method@) == Method::Post ==> match body {
            Err(msg) => r matches Step::Fail(RelayError::BadRequest(m)) && m@ == msg@,
            Ok(req) => match usable_key(*config) {
                None => r matches Step::Fail(e) && e is ConfigurationError && status_of(e) == 500,
                Some(key) => (r matches Step::Call(c) && c.url@ == provider_url() && pairs(c.headers@)
                    == provider_headers(key) && c.body@ == request_payload(req, *config)),
            },
        },
        r matches Step::Call(c) ==> exists|key: Seq<char>|
            key.len() > 0 && pairs(c.headers@) == provider_headers(key),
{
    match classify_method(method) {
        Method::Options => return Step::Respond(preflight_response()),
        Method::Other => return Step::Fail(RelayError::MethodNotAllowed),
        Method::Post => {},
    }
    let req = match body {
        Ok(req) => req,
        Err(msg) => return Step::Fail(RelayError::BadRequest(msg)),
    };
    let key = match config.key() {
        Some(k) => k,
        None => return Step::Fail(RelayError::ConfigurationError),
    };
    let m = provider_message(req, config);
    Step::Call(provider_call(&m, key))
}

/// One block of generated content.
#[derive(Clone, Debug)]
pub struct ContentBlock {
    pub text: String,
}

/// The provider's answer: its content blocks, in order, if it gave any.
#[derive(Clone, Debug)]
pub struct ProviderResponse {
    pub content: Option<Vec<ContentBlock>>,
}

/// Whether `status` is a success status.
pub open spec fn is_success(status: u16) -> bool {
    200 <= status <= 299
}

/// How the host reads the body of the provider's answer.
#[derive(Clone, Copy, Debug, PartialEq, Eq)]
pub enum ReplyRead {
    /// As the text of an error.
    ErrorText,
    /// As a provider response.
    Content,
}

/// Tells how to read the provider's answer that came with `status`.
pub fn read_for_status(status: u16) -> (r: ReplyRead)
    ensures
        r == (if is_success(status) {
            ReplyRead::Content
        } else {
            ReplyRead::ErrorText
        }),
{
    if 200 <= status && status <= 299 {
        ReplyRead::Content
    } else {
        ReplyRead::ErrorText
    }
}

/// What came of the call to the provider.
#[derive(Debug)]
pub enum UpstreamEvent {
    /// The call failed in transport, with this message.
    Unreachable(String),
    /// The provider answered with a status that is not a success, that
    /// status's reason phrase, and the body text if it could be read.
    Refused { status: u16, reason: String, text: Option<String> },
    /// The provider answered with success; its body parsed into a response, or
    /// the parser's message.
    Answered(Result<ProviderResponse, String>),
}

/// The text of the block the relay hands back: the last one.
pub open spec fn selected_text(p: ProviderResponse) -> Option<Seq<char>> {
    match p.content {
        Some(v) => if v@.len() > 0 {
            Some(v@.last().text@)
        } else {
            None
        },
        None => None,
    }
}

/// The text that an event hands back, if any.
pub open spec fn event_text(ev: UpstreamEvent) -> Option<Seq<char>> {
    match ev {
        UpstreamEvent::Answered(Ok(p)) => selected_text(p),
        _ => None,
    }
}

/// The error text of a refusal, or a stand-in where none could be read.
pub open spec fn refusal_text(text: Option<String>) -> Seq<char> {
    match text {
        Some(t) => t@,
        None => "Unknown error"@,
    }
}

/// Whether `e` is the failure that an event without text ends in.
pub open spec fn event_failure(ev: UpstreamEvent, e: RelayError) -> bool {
    match ev {
        UpstreamEvent::Unreachable(m) => e matches RelayError::UpstreamUnavailable(x) && x@ == m@,
        UpstreamEvent::Refused { status, reason, text } => e matches RelayError::UpstreamError {
            status: s,
            reason: p,
            text: t,
        } && s == status && p@ == reason@ && t@ == refusal_text(text),
        UpstreamEvent::Answered(Err(m)) => e matches RelayError::UpstreamProtocolError(x) && x@
            == m@,
        UpstreamEvent::Answered(Ok(_)) => e is EmptyUpstreamResponse,
    }
}

/// Picks the text to hand back from what came of the provider call: the last
/// content block's, or the failure the event ends in.
pub fn select_text(ev: UpstreamEvent) -> (r: Result<String, RelayError>)
    ensures
        match event_text(ev) {
            Some(t) => r matches Ok(x) && x@ == t,
            None => r matches Err(e) && event_failure(ev, e),
        },
{
    match ev {
        UpstreamEvent::Unreachable(m) => Err(RelayError::UpstreamUnavailable(m)),
        UpstreamEvent::Refused { status, reason, text } => {
            let t = match text {
                Some(t) => t,
                None => String::from_str("Unknown error"),
            };
            Err(RelayError::UpstreamError { status, reason, text: t })
        },
        UpstreamEvent::Answered(Err(m)) => Err(RelayError::UpstreamProtocolError(m)),
        UpstreamEvent::Answered(Ok(p)) => match p.content {
            Some(mut blocks) => match blocks.pop() {
                Some(b) => Ok(b.text),
                None => Err(RelayError::EmptyUpstreamResponse),
            },
            None => Err(RelayError::EmptyUpstreamResponse),
        },
    }
}

/// The body that hands back a text, `text_q` being the text as a JSON string.
pub open spec fn text_body(text_q: Seq<char>) -> Seq<char> {
    "{\"text\":"@ + text_q + "}"@
}

/// Writes the body that hands back a text given as a JSON string.
pub fn frame_text_body(text_q: &str) -> (r: String)
    ensures
        r@ == text_body(text_q@),
{
    let mut s = String::from_str("{\"text\":");
    s.append(text_q);
    s.append("}");
    s
}

/// Whether `r` hands back the text `t`.
pub open spec fn is_text_response(r: HttpResponse, t: Seq<char>) -> bool {
    r.status == 200 && pairs(r.headers@) == json_headers() && r.body@ == text_body(
        json_string_of(t),
    )
}

/// Builds the response that hands back `text`.
pub fn text_response(text: &str) -> (r: HttpResponse)
    ensures
        is_text_response(r, text@),
{
    let q = quote(text).unwrap();
    json_response(frame_text_body(q.as_str()))
}

/// Ends a relayed request with what came of the provider call: the last
/// content block's text as a JSON response, or the failure the event ends in.
pub fn finish(ev: UpstreamEvent) -> (r: Result<HttpResponse, RelayError>)
    ensures
        match event_text(ev) {
            Some(t) => (r matches Ok(resp) && is_text_response(resp, t)),
            None => r matches Err(e) && event_failure(ev, e),
        },
{
    match select_text(ev) {
        Ok(t) => Ok(text_response(t.as_str())),
        Err(e) => Err(e),
    }
}

} // verus!
