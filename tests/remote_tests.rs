use clarity::remote::{
    file_request_body, file_resource_id, file_status_url, finish_generation, finish_upload,
    generate_url, is_success, media_resolution_level, parse_file_state, poll_decision,
    poll_outcome, read_status_body, starts_with, text_request_body, upload_url, Candidate,
    ClientError, FileState, GenerateResponse, PollStep, RemoteFile, ResolutionMode,
    UsageMetadata,
};

fn file(state: FileState) -> RemoteFile {
    RemoteFile {
        name: "files/abc123".to_string(),
        uri: "https://example.test/files/abc123".to_string(),
        mime_type: "video/mp4".to_string(),
        state,
    }
}

#[test]
fn poll_succeeds_only_when_active() {
    assert_eq!(poll_decision(FileState::Active, 500_000, 120_000), PollStep::Ready);
    assert_eq!(poll_decision(FileState::Failed, 0, 120_000), PollStep::ProcessingFailed);
    for s in [FileState::Processing, FileState::Unknown] {
        assert_eq!(poll_decision(s, 0, 120_000), PollStep::Wait);
        assert_eq!(poll_decision(s, 120_000, 120_000), PollStep::Wait);
        assert_eq!(poll_decision(s, 120_001, 120_000), PollStep::TimedOut);
    }
}

#[test]
fn poll_outcome_per_state() {
    assert_eq!(poll_outcome(file(FileState::Active), 10, 100), Ok(Some(file(FileState::Active))));
    assert_eq!(poll_outcome(file(FileState::Processing), 10, 100), Ok(None));
    assert_eq!(
        poll_outcome(file(FileState::Failed), 10, 100),
        Err(ClientError::RemoteProcessingFailed { name: "files/abc123".to_string() })
    );
    assert_eq!(
        poll_outcome(file(FileState::Unknown), 101, 100),
        Err(ClientError::PollTimeout { timeout_ms: 100 })
    );
}

#[test]
fn file_states_parse_structurally() {
    assert_eq!(parse_file_state("ACTIVE"), FileState::Active);
    assert_eq!(parse_file_state("FAILED"), FileState::Failed);
    assert_eq!(parse_file_state("PROCESSING"), FileState::Processing);
    assert_eq!(parse_file_state("STATE_UNSPECIFIED"), FileState::Unknown);
    assert_eq!(parse_file_state(""), FileState::Unknown);
    assert_eq!(parse_file_state("active"), FileState::Unknown);
}

#[test]
fn upload_errors() {
    assert!(is_success(200) && is_success(299) && !is_success(300) && !is_success(199));
    assert_eq!(
        finish_upload(403, "denied".to_string(), Ok(file(FileState::Processing))),
        Err(ClientError::Upload { status: 403, detail: "denied".to_string() })
    );
    assert_eq!(
        finish_upload(200, String::new(), Err("bad json".to_string())),
        Err(ClientError::Upload { status: 200, detail: "bad json".to_string() })
    );
    assert_eq!(
        finish_upload(200, String::new(), Ok(file(FileState::Processing))),
        Ok(file(FileState::Processing))
    );
}

#[test]
fn status_body_bare_or_wrapped() {
    let bare = read_status_body(200, String::new(), Ok(file(FileState::Active)), Err("x".into()));
    assert_eq!(bare, Ok(file(FileState::Active)));
    let wrapped =
        read_status_body(200, String::new(), Err("x".into()), Ok(file(FileState::Processing)));
    assert_eq!(wrapped, Ok(file(FileState::Processing)));
    assert_eq!(
        read_status_body(200, String::new(), Err("a".into()), Err("b".into())),
        Err(ClientError::StatusQuery { status: 200, detail: "b".to_string() })
    );
    assert_eq!(
        read_status_body(404, "gone".into(), Ok(file(FileState::Active)), Err("b".into())),
        Err(ClientError::StatusQuery { status: 404, detail: "gone".to_string() })
    );
}

fn response(parts: Vec<Option<String>>, usage: Option<UsageMetadata>) -> GenerateResponse {
    GenerateResponse { candidates: vec![Candidate { parts }], usage_metadata: usage }
}

#[test]
fn generation_takes_first_candidate_text() {
    let usage = UsageMetadata {
        prompt_token_count: Some(10),
        candidates_token_count: Some(5),
        total_token_count: Some(15),
    };
    let r = finish_generation(
        200,
        String::new(),
        Ok(response(vec![Some("first".into()), Some("second".into())], Some(usage))),
        321,
    )
    .unwrap();
    assert_eq!(r.content, "first");
    assert_eq!(r.prompt_tokens, Some(10));
    assert_eq!(r.completion_tokens, Some(5));
    assert_eq!(r.total_tokens, Some(15));
    assert_eq!(r.status_code, 200);
    assert_eq!(r.duration_ms, 321);
    let r = finish_generation(200, String::new(), Ok(response(vec![Some("t".into())], None)), 1)
        .unwrap();
    assert_eq!(r.total_tokens, None);
}

#[test]
fn generation_without_text_is_empty_response() {
    let none = GenerateResponse { candidates: vec![], usage_metadata: None };
    assert_eq!(
        finish_generation(200, String::new(), Ok(none), 1),
        Err(ClientError::EmptyResponse { status: 200 })
    );
    assert_eq!(
        finish_generation(200, String::new(), Ok(response(vec![None], None)), 1),
        Err(ClientError::EmptyResponse { status: 200 })
    );
    assert_eq!(
        finish_generation(200, String::new(), Ok(response(vec![], None)), 1),
        Err(ClientError::EmptyResponse { status: 200 })
    );
}

#[test]
fn generation_status_failure() {
    let e = finish_generation(500, "boom".into(), Ok(response(vec![Some("t".into())], None)), 1)
        .unwrap_err();
    assert_eq!(e.status_code(), 500);
    assert_eq!(e.message(), "Gemini API error: 500 - boom");
}

#[test]
fn error_messages_and_status() {
    assert_eq!(
        ClientError::PollTimeout { timeout_ms: 120000 }.message(),
        "Wait for file ACTIVE timeout after 120000ms"
    );
    assert_eq!(ClientError::PollTimeout { timeout_ms: 1 }.status_code(), 0);
    assert_eq!(
        ClientError::RemoteProcessingFailed { name: "files/x".into() }.message(),
        "File processing failed: files/x"
    );
    assert_eq!(
        ClientError::Upload { status: 0, detail: "refused".into() }.message(),
        "Gemini File API error: 0 - refused"
    );
    assert_eq!(ClientError::EmptyResponse { status: 200 }.message(), "No response from Gemini API");
}

#[test]
fn file_request_body_is_framed_with_quoted_text() {
    let b = file_request_body("u://f", "video/mp4", "say \"hi\"", ResolutionMode::Low);
    assert_eq!(
        b,
        "{\"contents\":[{\"parts\":[{\"fileData\":{\"fileUri\":\"u://f\",\"mimeType\":\"video/mp4\"},\"mediaResolution\":{\"level\":\"MEDIA_RESOLUTION_LOW\"}},{\"text\":\"say \\\"hi\\\"\"}]}]}"
    );
    let v: serde_json::Value = serde_json::from_str(&b).unwrap();
    assert_eq!(v["contents"][0]["parts"][1]["text"], "say \"hi\"");
    let d = file_request_body("u", "m", "p", ResolutionMode::Default);
    assert!(d.contains("\"level\":\"MEDIA_RESOLUTION_DEFAULT\""));
}

#[test]
fn text_request_body_has_only_text() {
    let b = text_request_body("line1\nline2");
    assert_eq!(b, "{\"contents\":[{\"parts\":[{\"text\":\"line1\\nline2\"}]}]}");
}

#[test]
fn resolution_levels() {
    assert_eq!(media_resolution_level(ResolutionMode::Low), "MEDIA_RESOLUTION_LOW");
    assert_eq!(media_resolution_level(ResolutionMode::Default), "MEDIA_RESOLUTION_DEFAULT");
}

#[test]
fn urls_and_resource_ids() {
    assert_eq!(file_resource_id("files/abc"), "files/abc");
    assert_eq!(file_resource_id("abc"), "files/abc");
    assert!(starts_with("files/abc", "files/"));
    assert!(!starts_with("file", "files/"));
    assert_eq!(
        file_status_url("abc"),
        "https://generativelanguage.googleapis.com/v1beta/files/abc"
    );
    assert_eq!(
        generate_url("gemini-3-flash-preview"),
        "https://generativelanguage.googleapis.com/v1beta/models/gemini-3-flash-preview:generateContent"
    );
    assert_eq!(upload_url(), "https://generativelanguage.googleapis.com/upload/v1beta/files");
}
