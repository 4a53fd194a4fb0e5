//! Plain HTTP values: methods, header lists and responses.
use vstd::prelude::*;

verus! {

/// The request methods that the relay tells apart.
#[derive(Clone, Copy, Debug, PartialEq, Eq)]
pub enum Method {
    Options,
    Post,
    Other,
}

/// The method that the name `m` stands for.
pub open spec fn method_of(m: Seq<char>) -> Method {
    if m == "OPTIONS"@ {
        Method::Options
    } else if m == "POST"@ {
        Method::Post
    } else {
        Method::Other
    }
}

/// Tells which method the name `m` stands for (names are case-sensitive).
pub fn classify_method(m: &str) -> (r: Method)
    ensures
        r == method_of(m@),
{
    let name = String::from_str(m);
    if name == String::from_str("OPTIONS") {
        Method::Options
    } else if name == String::from_str("POST") {
        Method::Post
    } else {
        Method::Other
    }
}

/// A header list as pairs of texts.
pub open spec fn pairs(h: Seq<(String, String)>) -> Seq<(Seq<char>, Seq<char>)> {
    h.map_values(|p: (String, String)| (p.0@, p.1@))
}

/// One header, from its name and value.
pub fn header(name: &str, value: &str) -> (r: (String, String))
    ensures
        r.0@ == name@,
        r.1@ == value@,
{
    (String::from_str(name), String::from_str(value))
}

/// An outbound HTTP response: status code, headers in order, and body text.
#[derive(Clone, Debug)]
pub struct HttpResponse {
    pub status: u16,
    pub headers: Vec<(String, String)>,
    pub body: String,
}

/// The cross-origin headers that preflight and successful responses carry.
pub open spec fn cors_headers() -> Seq<(Seq<char>, Seq<char>)> {
    seq![
        ("Access-Control-Allow-Origin"@, "*"@),
        ("Access-Control-Allow-Methods"@, "POST, OPTIONS"@),
        ("Access-Control-Allow-Headers"@, "Content-Type"@),
    ]
}

/// Appends the cross-origin headers to `h`.
pub fn push_cors_headers(h: &mut Vec<(String, String)>)
    ensures
        pairs(final(h)@) == pairs(old(h)@) + cors_headers(),
{
    h.push(header("Access-Control-Allow-Origin", "*"));
    h.push(header("Access-Control-Allow-Methods", "POST, OPTIONS"));
    h.push(header("Access-Control-Allow-Headers", "Content-Type"));
    assert(pairs(h@) =~= pairs(old(h)@) + cors_headers());
}

/// The answer to a preflight request: `200`, the cross-origin headers, no body.
pub open spec fn is_preflight(r: HttpResponse) -> bool {
    r.status == 200 && pairs(r.headers@) == cors_headers() && r.body@ == Seq::<char>::empty()
}

/// Builds the answer to a preflight request.
pub fn preflight_response() -> (r: HttpResponse)
    ensures
        is_preflight(r),
{
    let mut headers: Vec<(String, String)> = Vec::new();
    push_cors_headers(&mut headers);
    assert(pairs(headers@) =~= cors_headers());
    HttpResponse { status: 200, headers, body: String::new() }
}

/// The headers of a successful JSON response: its content type, then the
/// cross-origin headers.
pub open spec fn json_headers() -> Seq<(Seq<char>, Seq<char>)> {
    seq![("Content-Type"@, "application/json"@)] + cors_headers()
}

/// Builds a `200` response that carries the JSON text `body`.
pub fn json_response(body: String) -> (r: HttpResponse)
    ensures
        r.status == 200,
        pairs(r.headers@) == json_headers(),
        r.body == body,
{
    let mut headers: Vec<(String, String)> = Vec::new();
    headers.push(header("Content-Type", "application/json"));
    push_cors_headers(&mut headers);
    assert(pairs(headers@) =~= json_headers());
    HttpResponse { status: 200, headers, body }
}

} // verus!
