use relay::error::RelayError;
use relay::http::{classify_method, preflight_response, HttpResponse, Method};
use relay::json::decimal_text;
use relay::payload::{encode_message, frame_payload, provider_message, GenerateRequest, RelayConfig};
use relay::relay::{
    begin, finish, frame_text_body, read_for_status, select_text, ContentBlock, OutboundCall,
    ProviderResponse, ReplyRead, Step, UpstreamEvent,
};

fn request(prompt: &str) -> GenerateRequest {
    GenerateRequest {
        prompt: prompt.to_string(),
        model: None,
        max_tokens: None,
        temperature: None,
        system: None,
    }
}

fn keyed() -> RelayConfig {
    RelayConfig::serverless(Some("test-key".to_string()), "haiku-test".to_string())
}

fn answered(texts: &[&str]) -> UpstreamEvent {
    UpstreamEvent::Answered(Ok(ProviderResponse {
        content: Some(
            texts
                .iter()
                .map(|t| ContentBlock { text: t.to_string() })
                .collect(),
        ),
    }))
}

fn header_list(r: &HttpResponse) -> Vec<(&str, &str)> {
    r.headers.iter().map(|(n, v)| (n.as_str(), v.as_str())).collect()
}

fn expect_call(step: Step) -> OutboundCall {
    match step {
        Step::Call(c) => c,
        other => panic!("expected a call, got {:?}", other),
    }
}

fn expect_fail(step: Step) -> RelayError {
    match step {
        Step::Fail(e) => e,
        other => panic!("expected a failure, got {:?}", other),
    }
}

const CORS: [(&str, &str); 3] = [
    ("Access-Control-Allow-Origin", "*"),
    ("Access-Control-Allow-Methods", "POST, OPTIONS"),
    ("Access-Control-Allow-Headers", "Content-Type"),
];

#[test]
fn hello_is_relayed_and_answered() {
    let call = expect_call(begin("POST", Ok(request("hello")), &keyed()));
    assert_eq!(call.url, "https://api.anthropic.com/v1/messages");
    assert_eq!(
        call.body,
        "{\"max_tokens\":4096,\"messages\":[{\"content\":[{\"text\":\"hello\",\"type\":\"text\"}],\"role\":\"user\"}],\"model\":\"haiku-test\",\"temperature\":1.0}"
    );
    let resp = finish(answered(&["hi there"])).unwrap();
    assert_eq!(resp.status, 200);
    assert_eq!(resp.body, "{\"text\":\"hi there\"}");
    let mut expected = vec![("Content-Type", "application/json")];
    expected.extend_from_slice(&CORS);
    assert_eq!(header_list(&resp), expected);
}

#[test]
fn missing_key_fails_with_configuration_error() {
    let e = expect_fail(begin("POST", Ok(request("x")), &RelayConfig::serverless(None, "haiku-test".to_string())));
    assert!(matches!(e, RelayError::ConfigurationError));
    let resp = e.to_response();
    assert_eq!(resp.status, 500);
    assert!(resp.body.contains("ANTHROPIC_API_KEY"));
    assert!(resp.body.contains("required"));
}

#[test]
fn empty_key_counts_as_missing() {
    let config = RelayConfig::server(Some(String::new()), "server-test".to_string());
    let e = expect_fail(begin("POST", Ok(request("x")), &config));
    assert!(matches!(e, RelayError::ConfigurationError));
}

#[test]
fn rate_limited_upstream_is_reported() {
    assert_eq!(read_for_status(429), ReplyRead::ErrorText);
    let ev = UpstreamEvent::Refused {
        status: 429,
        reason: "Too Many Requests".to_string(),
        text: Some("rate limited".to_string()),
    };
    let e = finish(ev).unwrap_err();
    let resp = e.to_response();
    assert_eq!(resp.status, 502);
    assert_eq!(resp.body, "Anthropic API error: 429 Too Many Requests - rate limited");
    assert!(resp.body.contains("429"));
}

#[test]
fn unreadable_refusal_text_is_unknown_error() {
    let e = select_text(UpstreamEvent::Refused {
        status: 500,
        reason: "Internal Server Error".to_string(),
        text: None,
    })
    .unwrap_err();
    assert_eq!(e.message(), "Anthropic API error: 500 Internal Server Error - Unknown error");
}

#[test]
fn malformed_body_is_a_bad_request() {
    let parse_error = serde_json::from_str::<serde_json::Value>("not json").unwrap_err();
    let e = expect_fail(begin("POST", Err(parse_error.to_string()), &keyed()));
    let resp = e.to_response();
    assert_eq!(resp.status, 400);
    assert!(resp.body.starts_with("Failed to parse request body: "));
    assert!(resp.body.contains(&parse_error.to_string()));
}

#[test]
fn options_is_answered_whatever_the_request_holds() {
    for config in [keyed(), RelayConfig::server(None, "server-test".to_string())] {
        for body in [Ok(request("hello")), Err("broken".to_string())] {
            match begin("OPTIONS", body, &config) {
                Step::Respond(resp) => {
                    assert_eq!(resp.status, 200);
                    assert_eq!(resp.body, "");
                    assert_eq!(header_list(&resp), CORS.to_vec());
                }
                other => panic!("expected a response, got {:?}", other),
            }
        }
    }
    assert_eq!(preflight_response().status, 200);
}

#[test]
fn other_methods_are_refused() {
    for method in ["GET", "PUT", "DELETE", "PATCH", "HEAD", "post", ""] {
        let e = expect_fail(begin(method, Ok(request("hello")), &keyed()));
        let resp = e.to_response();
        assert_eq!(resp.status, 405);
        assert_eq!(header_list(&resp), vec![("Allow", "POST, OPTIONS")]);
        assert_eq!(resp.body, "Method Not Allowed");
    }
}

#[test]
fn methods_are_classified_by_exact_name() {
    assert_eq!(classify_method("OPTIONS"), Method::Options);
    assert_eq!(classify_method("POST"), Method::Post);
    assert_eq!(classify_method("Post"), Method::Other);
    assert_eq!(classify_method("GET"), Method::Other);
}

#[test]
fn empty_or_absent_content_is_an_empty_response() {
    for ev in [
        answered(&[]),
        UpstreamEvent::Answered(Ok(ProviderResponse { content: None })),
    ] {
        let e = finish(ev).unwrap_err();
        assert!(matches!(e, RelayError::EmptyUpstreamResponse));
        let resp = e.to_response();
        assert_eq!(resp.status, 502);
        assert_eq!(resp.body, "No content returned from API");
    }
}

#[test]
fn last_block_is_handed_back() {
    let resp = finish(answered(&["first", "second", "third"])).unwrap();
    assert_eq!(resp.body, "{\"text\":\"third\"}");
    let text = select_text(answered(&["a", "b"])).unwrap();
    assert_eq!(text, "b");
}

#[test]
fn handed_back_text_is_escaped() {
    let resp = finish(answered(&["say \"hi\"\n"])).unwrap();
    assert_eq!(resp.body, "{\"text\":\"say \\\"hi\\\"\\n\"}");
}

#[test]
fn transport_failure_is_upstream_unavailable() {
    let e = finish(UpstreamEvent::Unreachable("connection refused".to_string())).unwrap_err();
    assert!(matches!(e, RelayError::UpstreamUnavailable(_)));
    let resp = e.to_response();
    assert_eq!(resp.status, 502);
    assert_eq!(resp.body, "Request failed: connection refused");
}

#[test]
fn unparseable_answer_is_a_protocol_error() {
    let e = finish(UpstreamEvent::Answered(Err("missing field `text`".to_string()))).unwrap_err();
    assert!(matches!(e, RelayError::UpstreamProtocolError(_)));
    assert_eq!(e.to_response().status, 502);
    assert_eq!(e.message(), "Failed to parse response: missing field `text`");
}

#[test]
fn successful_statuses_read_content() {
    assert_eq!(read_for_status(200), ReplyRead::Content);
    assert_eq!(read_for_status(299), ReplyRead::Content);
    assert_eq!(read_for_status(199), ReplyRead::ErrorText);
    assert_eq!(read_for_status(300), ReplyRead::ErrorText);
    assert_eq!(read_for_status(502), ReplyRead::ErrorText);
}

#[test]
fn given_fields_override_defaults() {
    let req = GenerateRequest {
        prompt: "write \"code\"".to_string(),
        model: Some("opus-test".to_string()),
        max_tokens: Some(100),
        temperature: Some("0.25".to_string()),
        system: Some("be brief".to_string()),
    };
    let call = expect_call(begin("POST", Ok(req), &keyed()));
    assert_eq!(
        call.body,
        "{\"max_tokens\":100,\"messages\":[{\"content\":[{\"text\":\"write \\\"code\\\"\",\"type\":\"text\"}],\"role\":\"user\"}],\"model\":\"opus-test\",\"system\":\"be brief\",\"temperature\":0.25}"
    );
    let headers: Vec<(&str, &str)> =
        call.headers.iter().map(|(n, v)| (n.as_str(), v.as_str())).collect();
    assert_eq!(
        headers,
        vec![
            ("Content-Type", "application/json"),
            ("x-api-key", "test-key"),
            ("anthropic-version", "2023-06-01"),
        ]
    );
}

#[test]
fn server_defaults_fill_every_field() {
    let config = RelayConfig::server(Some("k".to_string()), "server-test".to_string());
    let m = provider_message(request("p"), &config);
    assert_eq!(m.model, "server-test");
    assert_eq!(m.max_tokens, 2048);
    assert_eq!(m.temperature, "1.0");
    let body = encode_message(&m);
    for key in ["\"model\":", "\"max_tokens\":", "\"temperature\":", "\"messages\":"] {
        assert!(body.contains(key), "{} missing from {}", key, body);
    }
    assert!(!body.contains("\"system\":"));
}

#[test]
fn payload_frames_given_parts() {
    let body = frame_payload("\"m\"", 7, "0.5", "\"p\"", Some("\"s\""));
    assert_eq!(
        body,
        "{\"max_tokens\":7,\"messages\":[{\"content\":[{\"text\":\"p\",\"type\":\"text\"}],\"role\":\"user\"}],\"model\":\"m\",\"system\":\"s\",\"temperature\":0.5}"
    );
    assert_eq!(frame_text_body("\"x\""), "{\"text\":\"x\"}");
}

#[test]
fn decimal_texts() {
    assert_eq!(decimal_text(0), "0");
    assert_eq!(decimal_text(9), "9");
    assert_eq!(decimal_text(10), "10");
    assert_eq!(decimal_text(4096), "4096");
    assert_eq!(decimal_text(u32::MAX), "4294967295");
}
