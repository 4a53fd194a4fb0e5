//! The ways a relayed request fails, and the response each one gives.
use vstd::prelude::*;
use crate::http::{header, pairs, HttpResponse};
use crate::json::{decimal, push_decimal};

verus! {

/// Why a request was not relayed to a successful end. Every failure is final.
#[derive(Clone, Debug)]
pub enum RelayError {
    /// The inbound body is not a valid generation request; carries the parser's message.
    BadRequest(String),
    /// The method is neither `POST` nor `OPTIONS`.
    MethodNotAllowed,
    /// No provider key is configured.
    ConfigurationError,
    /// The provider could not be reached; carries the transport's message.
    UpstreamUnavailable(String),
    /// The provider answered with a status outside `200..=299`, the status's
    /// reason phrase, and this text.
    UpstreamError { status: u16, reason: String, text: String },
    /// The provider's answer is not a valid provider response; carries the parser's message.
    UpstreamProtocolError(String),
    /// The provider's answer holds no content block.
    EmptyUpstreamResponse,
}

/// The status code that each failure is answered with.
pub open spec fn status_of(e: RelayError) -> u16 {
    match e {
        RelayError::BadRequest(_) => 400,
        RelayError::MethodNotAllowed => 405,
        RelayError::ConfigurationError => 500,
        _ => 502,
    }
}

/// The text that each failure is answered with.
pub open spec fn message_of(e: RelayError) -> Seq<char> {
    match e {
        RelayError::BadRequest(m) => "Failed to parse request body: "@ + m@,
        RelayError::MethodNotAllowed => "Method Not Allowed"@,
        RelayError::ConfigurationError => "ANTHROPIC_API_KEY environment variable is required"@,
        RelayError::UpstreamUnavailable(m) => "Request failed: "@ + m@,
        RelayError::UpstreamError { status, reason, text } => "Anthropic API error: "@ + decimal(
            status as nat,
        ) + " "@ + reason@ + " - "@ + text@,
        RelayError::UpstreamProtocolError(m) => "Failed to parse response: "@ + m@,
        RelayError::EmptyUpstreamResponse => "No content returned from API"@,
    }
}

/// The headers that each failure is answered with: `Allow` for a refused
/// method, a plain-text content type otherwise.
pub open spec fn headers_of(e: RelayError) -> Seq<(Seq<char>, Seq<char>)> {
    match e {
        RelayError::MethodNotAllowed => seq![("Allow"@, "POST, OPTIONS"@)],
        _ => seq![("Content-Type"@, "text/plain; charset=utf-8"@)],
    }
}

impl RelayError {
    /// The status code of this failure.
    pub fn status(&self) -> (r: u16)
        ensures
            r == status_of(*self),
    {
        match self {
            RelayError::BadRequest(_) => 400,
            RelayError::MethodNotAllowed => 405,
            RelayError::ConfigurationError => 500,
            _ => 502,
        }
    }

    /// The message of this failure, as shown to the caller.
    pub fn message(&self) -> (r: String)
        ensures
            r@ == message_of(*self),
    {
        match self {
            RelayError::BadRequest(m) => {
                let mut s = String::from_str("Failed to parse request body: ");
                s.append(m.as_str());
                s
            },
            RelayError::MethodNotAllowed => String::from_str("Method Not Allowed"),
            RelayError::ConfigurationError => String::from_str(
                "ANTHROPIC_API_KEY environment variable is required",
            ),
            RelayError::UpstreamUnavailable(m) => {
                let mut s = String::from_str("Request failed: ");
                s.append(m.as_str());
                s
            },
            RelayError::UpstreamError { status, reason, text } => {
                let mut s = String::from_str("Anthropic API error: ");
                push_decimal(&mut s, *status as u32);
                s.append(" ");
                s.append(reason.as_str());
                s.append(" - ");
                s.append(text.as_str());
                s
            },
            RelayError::UpstreamProtocolError(m) => {
                let mut s = String::from_str("Failed to parse response: ");
                s.append(m.as_str());
                s
            },
            RelayError::EmptyUpstreamResponse => String::from_str("No content returned from API"),
        }
    }

    /// The response that answers this failure.
    pub fn to_response(&self) -> (r: HttpResponse)
        ensures
            r.status == status_of(*self),
            pairs(r.headers@) == headers_of(*self),
            r.body@ == message_of(*self),
    {
        let mut headers: Vec<(String, String)> = Vec::new();
        match self {
            RelayError::MethodNotAllowed => headers.push(header("Allow", "POST, OPTIONS")),
            _ => headers.push(header("Content-Type", "text/plain; charset=utf-8")),
        }
        assert(pairs(headers@) =~= headers_of(*self));
        HttpResponse { status: self.status(), headers, body: self.message() }
    }
}

} // verus!
