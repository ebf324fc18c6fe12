use chat_relay::front::{chat_reply_outcome, ChatBody};
use chat_relay::gemini::{
    classify_response, extract_reply, Candidate, Content, GeminiClient, GeminiResponse, Part,
    RelayError,
};
use chat_relay::models::ErrorResponse;

#[test]
fn client_stores_key_and_fixed_model() {
    let client = GeminiClient::new("example-key".to_string());
    assert_eq!(client.api_key, "example-key");
    assert_eq!(client.model, "gemini-2.5-flash");
}

#[test]
fn request_url_embeds_model_and_key() {
    let client = GeminiClient::new("test-key".to_string());
    assert_eq!(
        client.request_url(),
        "https://generativelanguage.googleapis.com/v1beta/models/gemini-2.5-flash:generateContent?key=test-key"
    );
}

#[test]
fn build_request_carries_message_and_persona() {
    let client = GeminiClient::new("k".to_string());
    let req = client.build_request("What is SQL injection?");
    assert_eq!(req.contents.len(), 1);
    assert_eq!(req.contents[0].parts.len(), 1);
    assert_eq!(req.contents[0].parts[0].text, "What is SQL injection?");
    assert_eq!(req.contents[0].role.as_deref(), Some("user"));
    let si = req.system_instruction.as_ref().expect("system instruction present");
    assert!(si.role.is_none());
    assert_eq!(si.parts.len(), 1);
    assert!(si.parts[0]
        .text
        .starts_with("You are a helpful cybersecurity tutor assistant for university students."));
}

#[test]
fn zero_candidates_is_empty_response_error() {
    let resp = GeminiResponse { candidates: vec![] };
    let r = extract_reply(&resp);
    assert!(matches!(r, Err(RelayError::EmptyResponseError)));
    let out = chat_reply_outcome(r);
    assert_eq!(out.status, 500);
    match out.body {
        ChatBody::Failure(e) => assert_eq!(e.error, "Failed to generate response"),
        ChatBody::Reply(_) => panic!("expected a failure body"),
    }
}

#[test]
fn zero_parts_is_empty_response_error() {
    let resp = GeminiResponse {
        candidates: vec![Candidate { content: Content { parts: vec![], role: None } }],
    };
    assert!(matches!(extract_reply(&resp), Err(RelayError::EmptyResponseError)));
}

#[test]
fn reply_is_first_part_verbatim() {
    let resp = GeminiResponse {
        candidates: vec![
            Candidate {
                content: Content {
                    parts: vec![
                        Part { text: "  spaced reply \n".to_string() },
                        Part { text: "second part".to_string() },
                    ],
                    role: Some("model".to_string()),
                },
            },
            Candidate {
                content: Content {
                    parts: vec![Part { text: "second candidate".to_string() }],
                    role: None,
                },
            },
        ],
    };
    let r = extract_reply(&resp).expect("a reply is present");
    assert_eq!(r, "  spaced reply \n");
}

#[test]
fn success_statuses_pass_through() {
    for status in [200u16, 201, 204, 299] {
        assert!(classify_response(status, "ignored").is_ok());
    }
}

#[test]
fn non_success_statuses_fail_with_status_and_body() {
    for status in [199u16, 300, 400, 404, 429, 500, 503] {
        match classify_response(status, "upstream detail") {
            Err(RelayError::UpstreamHttpError { status: s, body }) => {
                assert_eq!(s, status);
                assert_eq!(body, "upstream detail");
            }
            _ => panic!("status {} must fail the relay", status),
        }
    }
}

#[test]
fn every_relay_failure_flattens_to_generic_500() {
    let failures = vec![
        RelayError::UpstreamHttpError { status: 429, body: "quota exhausted".to_string() },
        RelayError::TransportError { cause: "connection reset".to_string() },
        RelayError::DecodeError { cause: "missing field candidates".to_string() },
        RelayError::EmptyResponseError,
    ];
    for failure in failures {
        let out = chat_reply_outcome(Err(failure));
        assert_eq!(out.status, 500);
        match out.body {
            ChatBody::Failure(e) => {
                assert_eq!(e.error, "Failed to generate response");
                assert!(!e.error.contains("quota"));
                assert!(!e.error.contains("429"));
                assert!(!e.error.contains("connection"));
            }
            ChatBody::Reply(_) => panic!("expected a failure body"),
        }
    }
}

#[test]
fn upstream_429_surfaces_internally_not_to_client() {
    let classified = classify_response(429, "rate limited");
    match &classified {
        Err(RelayError::UpstreamHttpError { status, .. }) => assert_eq!(*status, 429),
        _ => panic!("429 must surface as an upstream HTTP error"),
    }
    let out = chat_reply_outcome(classified.map(|_| String::new()));
    assert_eq!(out.status, 500);
    match out.body {
        ChatBody::Failure(e) => {
            assert_eq!(e.error, "Failed to generate response");
            assert!(!e.error.contains("429"));
        }
        ChatBody::Reply(_) => panic!("expected a failure body"),
    }
}

#[test]
fn error_response_carries_exact_text() {
    let e = ErrorResponse::new("Message cannot be empty");
    assert_eq!(e.error, "Message cannot be empty");
}
