use codex_asr::form::{
    accept_upload, plan_field, uploaded_options, FieldPlan, TranscriptionForm,
};
use codex_asr::server::{
    authorize, format_transcription_response, healthz, resolve_server_api_key, transcription_json,
    ApiError, ErrorBody, ReplyBody, ResponseFormat,
};
use reqwest::header::{HeaderMap, HeaderName, HeaderValue};

fn headers(value: &[u8]) -> HeaderMap {
    let mut headers = HeaderMap::new();
    headers.insert(HeaderName::from_static("authorization"), HeaderValue::from_bytes(value).unwrap());
    headers
}

fn json(text: &str) -> serde_json::Value {
    serde_json::from_str(text).unwrap()
}

#[test]
fn requests_need_the_key() {
    assert!(authorize(&headers(b"Bearer key"), Some("key")).is_ok());
    assert!(authorize(&headers(b"bearer key"), Some("key")).is_ok());
    for value in [&b"Bearer ke"[..], b"Bearer keys", b"BEARER key", b"key", b"Bearer  key", b"Bearer key\xff", b"bearer"] {
        let error = authorize(&headers(value), Some("key")).unwrap_err();
        assert_eq!(error.status, 401);
        assert_eq!(error.message, "missing or invalid bearer token");
        assert_eq!(error.error_type, "authentication_error");
    }
    assert_eq!(authorize(&HeaderMap::new(), Some("key")).unwrap_err().status, 401);
    assert!(authorize(&HeaderMap::new(), None).is_ok());
    assert!(authorize(&headers(b"\xff"), None).is_ok());
    assert!(authorize(&headers(b"Bearer "), Some("")).is_ok());
}

#[test]
fn the_first_authorization_header_counts() {
    let mut two = headers(b"Bearer a");
    two.append(HeaderName::from_static("authorization"), HeaderValue::from_static("Bearer b"));
    assert!(authorize(&two, Some("a")).is_ok());
    assert!(authorize(&two, Some("b")).is_err());
}

#[test]
fn servers_have_a_key_unless_told_otherwise() {
    let text = |s: &str| Some(s.to_string());
    assert_eq!(resolve_server_api_key(text(" a "), text("b"), false), Ok(text("a")));
    assert_eq!(resolve_server_api_key(None, text("b\n"), false), Ok(text("b")));
    assert_eq!(resolve_server_api_key(text("a"), text("b"), true), Ok(None));
    let needed = Err("serve requires --api-key, CODEX_ASR_SERVER_KEY, or --no-api-key");
    assert_eq!(resolve_server_api_key(text(" "), text("b"), false), needed);
    assert_eq!(resolve_server_api_key(None, text(""), false), needed);
    assert_eq!(resolve_server_api_key(None, None, false), needed);
}

#[test]
fn formats_are_parsed() {
    for value in [None, Some(""), Some(" "), Some("json"), Some(" json\n")] {
        assert_eq!(ResponseFormat::parse(value).unwrap(), ResponseFormat::Json);
    }
    assert_eq!(ResponseFormat::parse(Some("text ")).unwrap(), ResponseFormat::Text);
    assert_eq!(ResponseFormat::parse(Some("verbose_json")).unwrap(), ResponseFormat::VerboseJson);
    for value in ["srt", " vtt"] {
        let error = ResponseFormat::parse(Some(value)).unwrap_err();
        assert_eq!(error.status, 400);
        assert_eq!(error.message, "response_format srt/vtt is not supported because timestamps are unavailable");
        assert_eq!(error.error_type, "invalid_request_error");
    }
    let error = ResponseFormat::parse(Some(" JSON ")).unwrap_err();
    assert_eq!(error.status, 400);
    assert_eq!(error.message, "unsupported response_format: JSON");
}

#[test]
fn answers_hold_the_text() {
    assert_eq!(transcription_json("say \"hi\""), json(r#"{"text":"say \"hi\""}"#));
    assert_eq!(healthz(), json(r#"{"status":"ok"}"#));
    match format_transcription_response("hi", ResponseFormat::Json, Some("en")) {
        ReplyBody::Json(value) => assert_eq!(value, json(r#"{"text":"hi"}"#)),
        other => panic!("{other:?}"),
    }
    match format_transcription_response("hi", ResponseFormat::Text, Some("en")) {
        ReplyBody::Text { content_type, text } => {
            assert_eq!(content_type, "text/plain; charset=utf-8");
            assert_eq!(text, "hi");
        }
        other => panic!("{other:?}"),
    }
    for (language, expected) in [
        (Some("en"), r#"{"task":"transcribe","language":"en","duration":null,"text":"hi","segments":[]}"#),
        (None, r#"{"task":"transcribe","language":null,"duration":null,"text":"hi","segments":[]}"#),
    ] {
        match format_transcription_response("hi", ResponseFormat::VerboseJson, language) {
            ReplyBody::Json(value) => assert_eq!(value, json(expected)),
            other => panic!("{other:?}"),
        }
    }
}

#[test]
fn errors_have_a_status_and_a_type() {
    let all = [
        (ApiError::bad_request("m"), 400, "invalid_request_error"),
        (ApiError::unauthorized("m"), 401, "authentication_error"),
        (ApiError::payload_too_large("m"), 413, "invalid_request_error"),
        (ApiError::bad_gateway("m"), 502, "upstream_error"),
        (ApiError::internal("m"), 500, "server_error"),
    ];
    for (error, status, error_type) in all {
        assert_eq!(error.status, status);
        assert_eq!(error.error_type, error_type);
        let body = ErrorBody::new(error);
        assert_eq!(body.error.message, "m");
        assert_eq!(body.error.error_type, error_type);
        assert_eq!(body.error.param, None);
        assert_eq!(body.error.code, None);
    }
    let error = ApiError::undecodable("no decoder");
    assert_eq!(error.status, 400);
    assert_eq!(error.message, "no decoder");
    let error = ApiError::upstream("no luck");
    assert_eq!(error.status, 502);
    assert_eq!(error.message, "upstream transcribe failed: no luck");
}

#[test]
fn forms_that_are_too_large_are_told_so() {
    let error = ApiError::unreadable_form("failed to read file", "too big", 413);
    assert_eq!(error.status, 413);
    assert_eq!(error.message, "failed to read file: too big");
    let error = ApiError::unreadable_form("invalid multipart body", "bad", 400);
    assert_eq!(error.status, 400);
    assert_eq!(error.message, "invalid multipart body: bad");
}

#[test]
fn fields_are_planned_by_name() {
    match plan_field(Some("file"), Some("dir/a \"b\".mp3"), None) {
        FieldPlan::File { filename, content_type } => {
            assert_eq!(filename, "a b.mp3");
            assert_eq!(content_type, "audio/mpeg");
        }
        other => panic!("{other:?}"),
    }
    match plan_field(Some("file"), None, Some("audio/wav; x")) {
        FieldPlan::File { filename, content_type } => {
            assert_eq!(filename, "audio");
            assert_eq!(content_type, "audio/wav; x");
        }
        other => panic!("{other:?}"),
    }
    match plan_field(Some("file"), None, None) {
        FieldPlan::File { content_type, .. } => assert_eq!(content_type, "application/octet-stream"),
        other => panic!("{other:?}"),
    }
    match plan_field(Some("file"), Some(""), None) {
        FieldPlan::File { filename, .. } => assert_eq!(filename, "audio"),
        other => panic!("{other:?}"),
    }
    assert!(matches!(plan_field(Some("language"), None, None), FieldPlan::Language));
    assert!(matches!(plan_field(Some("response_format"), None, None), FieldPlan::ResponseFormat));
    for name in [None, Some(""), Some("model"), Some("prompt"), Some("temperature"), Some("timestamp_granularities[]"), Some("File")] {
        assert!(matches!(plan_field(name, Some("a.wav"), None), FieldPlan::Ignore));
    }
}

#[test]
fn uploads_are_accepted() {
    let silk = b"\x02#!SILK_V3 and more";
    let upload = accept_upload("voice", "binary/octet-stream".to_string(), silk).unwrap();
    assert_eq!(upload.filename, "voice.silk");
    assert_eq!(upload.content_type, "audio/silk");
    assert_eq!(upload.suffix, ".silk");
    let upload = accept_upload("voice", "x/y".to_string(), b"??").unwrap();
    assert_eq!(upload.filename, "voice");
    assert_eq!(upload.content_type, "x/y");
    assert_eq!(upload.suffix, ".bin");
    let error = accept_upload("voice.wav", "audio/wav".to_string(), b"").unwrap_err();
    assert_eq!(error.status, 400);
    assert_eq!(error.message, "file is empty");
}

#[test]
fn the_last_field_counts() {
    let mut form: TranscriptionForm<u32> = TranscriptionForm::new(Some("en".to_string()));
    form.put_file(1, "a.wav".to_string(), "audio/wav".to_string());
    form.put_language(" zh ");
    form.put_file(2, "b.mp3".to_string(), "audio/mpeg".to_string());
    form.put_response_format("srt");
    form.put_response_format(" text ");
    let (request, format) = form.conclude().unwrap();
    assert_eq!(format, ResponseFormat::Text);
    assert_eq!(request.file, 2);
    assert_eq!(request.filename, "b.mp3");
    assert_eq!(request.content_type, "audio/mpeg");
    assert_eq!(request.language.as_deref(), Some("zh"));
    assert_eq!(request.response_format.as_deref(), Some("text"));
}

#[test]
fn the_default_language_counts_where_none_is_given() {
    let mut form: TranscriptionForm<()> = TranscriptionForm::new(Some("en".to_string()));
    form.put_file((), "a.wav".to_string(), "audio/wav".to_string());
    let request = form.finish().unwrap();
    assert_eq!(request.language.as_deref(), Some("en"));
    assert_eq!(request.response_format, None);
}

#[test]
fn forms_need_a_file() {
    let mut form: TranscriptionForm<()> = TranscriptionForm::new(None);
    form.put_language("en");
    form.put_response_format("srt");
    let error = form.conclude().unwrap_err();
    assert_eq!(error.status, 400);
    assert_eq!(error.message, "missing multipart file field");
    let form: TranscriptionForm<()> = TranscriptionForm::new(None);
    assert_eq!(form.finish().unwrap_err().message, "missing multipart file field");
}

#[test]
fn forms_for_subtitles_are_refused() {
    let mut form: TranscriptionForm<()> = TranscriptionForm::new(None);
    form.put_file((), "a.wav".to_string(), "audio/wav".to_string());
    form.put_response_format("vtt");
    assert_eq!(form.conclude().unwrap_err().status, 400);
}

#[test]
fn no_field_is_read_without_the_key() {
    let begun: Result<TranscriptionForm<()>, ApiError> =
        TranscriptionForm::begin(&headers(b"Bearer key"), Some("key"), Some("en".to_string()));
    let mut form = begun.unwrap();
    form.put_file((), "a.wav".to_string(), "audio/wav".to_string());
    assert_eq!(form.finish().unwrap().language.as_deref(), Some("en"));
    let begun: Result<TranscriptionForm<()>, ApiError> =
        TranscriptionForm::begin(&HeaderMap::new(), Some("key"), None);
    assert_eq!(begun.unwrap_err().status, 401);
    let begun: Result<TranscriptionForm<()>, ApiError> = TranscriptionForm::begin(&HeaderMap::new(), None, None);
    assert!(begun.is_ok());
}

#[test]
fn decoded_uploads_are_wav() {
    let text = |s: &str| s.to_string();
    let options = uploaded_options(true, text("voice.silk"), text("audio/silk"), Some(text("zh")));
    assert_eq!(options.filename.as_deref(), Some("voice.wav"));
    assert_eq!(options.content_type.as_deref(), Some("audio/wav"));
    assert_eq!(options.language.as_deref(), Some("zh"));
    let options = uploaded_options(false, text("a.mp3"), text("audio/mpeg"), None);
    assert_eq!(options.filename.as_deref(), Some("a.mp3"));
    assert_eq!(options.content_type.as_deref(), Some("audio/mpeg"));
    assert_eq!(options.language, None);
}
