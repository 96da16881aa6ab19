use codex_asr::auth::{AuthFile, AuthTokens};
use codex_asr::client::{
    accept_status, can_clip, clip_response_body, detect_codex_desktop_version, upload_form, Platform,
    UploadRequest,
};
use codex_asr::path::AudioPath;
use codex_asr::proxy::ProxyEnvironment;
use codex_asr::{
    CodexAsrClient, CodexAsrClientBuilder, CodexAsrError, CodexAuth, TranscribeOptions, Transcription,
    DEFAULT_ENDPOINT, DEFAULT_ORIGINATOR,
};
use reqwest::blocking::multipart::Form;
use std::io::Read;

fn platform() -> Platform {
    Platform {
        desktop_plist: None,
        os: "linux".to_string(),
        arch: "x86_64".to_string(),
        proxies: ProxyEnvironment {
            codex_asr_proxy: None,
            codex_voice_proxy: None,
            https_proxy_upper: None,
            https_proxy_lower: None,
            all_proxy_upper: None,
            all_proxy_lower: None,
            system: None,
        },
    }
}

fn login(token: &str, account: Option<&str>) -> CodexAuth {
    CodexAuth {
        access_token: token.to_string(),
        account_id: account.map(str::to_string),
        path: None,
    }
}

fn client(token: &str, account: Option<&str>) -> CodexAsrClient {
    CodexAsrClient::builder(login(token, account), &platform()).build().unwrap()
}

fn body(form: Form) -> String {
    let boundary = form.boundary().to_string();
    let mut text = String::new();
    form.into_reader().read_to_string(&mut text).unwrap();
    text.replace(&boundary, "BOUNDARY")
}

const WAV_FORM: &str = "--BOUNDARY\r\nContent-Disposition: form-data; name=\"file\"; filename=\"raw-audio.wav\"\r\nContent-Type: audio/wav\r\n\r\nsound\r\n--BOUNDARY\r\nContent-Disposition: form-data; name=\"language\"\r\n\r\nzh\r\n--BOUNDARY--\r\n";

#[test]
fn the_version_is_read_from_the_property_list() {
    let plist = "<dict><key>A</key><string>0</string><key>CFBundleShortVersionString</key>\n  <string>26.1.2</string><string>x</string></dict>";
    assert_eq!(detect_codex_desktop_version(Some(plist)).as_deref(), Some("26.1.2"));
    assert_eq!(detect_codex_desktop_version(None), None);
    assert_eq!(detect_codex_desktop_version(Some("<string>1</string>")), None);
    assert_eq!(detect_codex_desktop_version(Some("<key>CFBundleShortVersionString</key><string>1")), None);
    assert_eq!(detect_codex_desktop_version(Some("<key>CFBundleShortVersionString</key>1</string>")), None);
}

#[test]
fn requests_say_who_asks() {
    let headers = client("abc", Some("acct_1")).auth_headers().unwrap();
    assert_eq!(headers.len(), 4);
    assert_eq!(headers.get("Authorization").unwrap(), "Bearer abc");
    assert_eq!(headers.get("originator").unwrap(), DEFAULT_ORIGINATOR);
    assert_eq!(headers.get("User-Agent").unwrap(), "Codex Desktop/26.429.30905 (linux; x86_64)");
    assert_eq!(headers.get("ChatGPT-Account-Id").unwrap(), "acct_1");

    let headers = client("abc", None).auth_headers().unwrap();
    assert_eq!(headers.len(), 3);
    assert!(headers.get("ChatGPT-Account-Id").is_none());
}

#[test]
fn the_installed_version_is_claimed() {
    let mut machine = platform();
    machine.desktop_plist = Some("<key>CFBundleShortVersionString</key><string>9.9</string>".to_string());
    machine.os = "macos".to_string();
    machine.arch = "aarch64".to_string();
    let client = CodexAsrClientBuilder::new(login("t", None), &machine).build().unwrap();
    let headers = client.auth_headers().unwrap();
    assert_eq!(headers.get("user-agent").unwrap(), "Codex Desktop/9.9 (macos; aarch64)");
}

#[test]
fn the_user_agent_can_be_replaced() {
    let client = CodexAsrClient::builder(login("t", None), &platform())
        .user_agent("mine/1".to_string())
        .build()
        .unwrap();
    assert_eq!(client.auth_headers().unwrap().get("user-agent").unwrap(), "mine/1");
    assert_eq!(client.clone().auth_headers().unwrap().get("user-agent").unwrap(), "mine/1");
}

#[test]
fn logins_that_no_header_can_hold_are_refused() {
    assert!(matches!(client("a\nb", None).auth_headers(), Err(CodexAsrError::InvalidHeader(_))));
    assert!(matches!(client("ab", Some("\u{7f}")).auth_headers(), Err(CodexAsrError::InvalidHeader(_))));
    let agent = CodexAsrClient::builder(login("t", None), &platform())
        .user_agent("\0".to_string())
        .build()
        .unwrap();
    assert!(matches!(agent.auth_headers(), Err(CodexAsrError::InvalidHeader(_))));
    assert!(client("t\u{f6}k\ten", None).auth_headers().is_ok());
}

#[test]
fn proxies_that_are_no_urls_are_refused() {
    let builder = CodexAsrClient::builder(login("t", None), &platform());
    assert!(matches!(
        builder.clone().proxy(Some("http://[bad".to_string())).build(),
        Err(CodexAsrError::BuildClient(_))
    ));
    assert!(builder.clone().proxy(Some("http://127.0.0.1:7892".to_string())).build().is_ok());
    assert!(builder.proxy(None).build().is_ok());

    let mut machine = platform();
    machine.proxies.codex_asr_proxy = Some("http://[bad".to_string());
    assert!(matches!(
        CodexAsrClient::builder(login("t", None), &machine).build(),
        Err(CodexAsrError::BuildClient(_))
    ));
}

#[test]
fn the_client_goes_around_the_http_client() {
    let builder = CodexAsrClient::builder(login("t", None), &platform()).endpoint("http://e".to_string());
    let error = match reqwest::Proxy::https("http://[bad") {
        Err(error) => error,
        Ok(_) => panic!("no URL"),
    };
    assert!(matches!(builder.clone().assemble(Err(error)), Err(CodexAsrError::BuildClient(_))));
    let client = builder.assemble(Ok(reqwest::blocking::Client::new())).unwrap();
    let request = client.transcribe_bytes(vec![1], "a.wav", "audio/wav", None).unwrap();
    assert_eq!(request.url, "http://e");
}

#[test]
fn audio_is_posted_as_a_form() {
    let client = client("abc", Some("acct"));
    let UploadRequest { url, headers, form } = client
        .transcribe_bytes(b"sound".to_vec(), "raw-\"audio\".wav", "audio/wav", Some("zh".to_string()))
        .unwrap();
    assert_eq!(url, DEFAULT_ENDPOINT);
    assert_eq!(headers, client.auth_headers().unwrap());
    assert_eq!(body(form), WAV_FORM);
}

#[test]
fn requests_can_be_sent() {
    let client = CodexAsrClient::builder(login("abc", None), &platform())
        .endpoint("http://127.0.0.1:9/x".to_string())
        .build()
        .unwrap();
    let request = client.transcribe_bytes(vec![7], "a.wav", "audio/wav", None).unwrap();
    let built = client
        .http()
        .post(&request.url)
        .headers(request.headers)
        .multipart(request.form)
        .build()
        .unwrap();
    assert_eq!(built.url().as_str(), "http://127.0.0.1:9/x");
    assert_eq!(built.headers().get("authorization").unwrap(), "Bearer abc");
}

#[test]
fn forms_without_a_language_hold_the_file_alone() {
    let form = upload_form(b"x".to_vec(), "a.flac", "audio/flac; q=1", None).unwrap();
    assert_eq!(
        body(form),
        "--BOUNDARY\r\nContent-Disposition: form-data; name=\"file\"; filename=\"a.flac\"\r\nContent-Type: audio/flac; q=1\r\n\r\nx\r\n--BOUNDARY--\r\n"
    );
}

#[test]
fn content_types_that_are_no_media_types_are_refused() {
    assert!(matches!(upload_form(vec![1], "a", "audio", None), Err(CodexAsrError::BuildMultipart(_))));
    assert!(matches!(
        client("a\nb", None).transcribe_bytes(vec![1], "a", "", None),
        Err(CodexAsrError::BuildMultipart(_))
    ));
    assert!(matches!(
        client("a\nb", None).transcribe_bytes(vec![1], "a", "audio/wav", None),
        Err(CodexAsrError::InvalidHeader(_))
    ));
}

#[test]
fn files_are_named_by_their_path_and_type() {
    let client = client("abc", None);
    let typed = TranscribeOptions {
        language: Some("zh".to_string()),
        content_type: Some("audio/wav".to_string()),
        filename: None,
    };
    let request = client.transcribe_file(&AudioPath::new("/tmp/raw-audio"), b"sound".to_vec(), typed).unwrap();
    assert_eq!(body(request.form), WAV_FORM);

    let options = TranscribeOptions { language: Some("zh".to_string()), ..TranscribeOptions::default() };
    let request = client.transcribe_file(&AudioPath::new("d/raw-audio.wav"), b"sound".to_vec(), options).unwrap();
    assert_eq!(body(request.form), WAV_FORM);

    let named = TranscribeOptions {
        language: Some("zh".to_string()),
        content_type: None,
        filename: Some("raw-audio.wav".to_string()),
    };
    let request = client.transcribe_file(&AudioPath::new("x.wave"), b"sound".to_vec(), named).unwrap();
    assert_eq!(body(request.form), WAV_FORM);
}

#[test]
fn options_are_empty_by_default() {
    let options = TranscribeOptions::default();
    assert_eq!(options.language, None);
    assert_eq!(options.content_type, None);
    assert_eq!(options.filename, None);
}

#[test]
fn failed_replies_are_clipped() {
    assert_eq!(clip_response_body("  a \n\t b  "), "a b");
    assert_eq!(clip_response_body(""), "");
    let long = "x".repeat(400);
    assert_eq!(clip_response_body(&long), "x".repeat(300));
    let exact = "y ".repeat(150);
    assert_eq!(clip_response_body(&exact), exact.trim_end());
    let wide = "\u{e4}".repeat(400);
    assert!(can_clip(&wide));
    assert_eq!(clip_response_body(&wide), "\u{e4}".repeat(150));
    assert!(clip_response_body(&wide).len() <= 300);
    assert!(!can_clip(&format!("x{wide}")));
    assert!(can_clip(&format!("x{}", "\u{e4}".repeat(149))));
    assert!(can_clip(&long));
}

#[test]
fn other_statuses_are_errors() {
    for status in [200, 204, 299] {
        assert!(accept_status(status, "anything").is_ok());
    }
    for status in [0, 100, 199, 300, 401, 500, 999] {
        match accept_status(status, " no\n\nluck ") {
            Err(CodexAsrError::Http { status: s, body }) => {
                assert_eq!(s, status);
                assert_eq!(body, "no luck");
            }
            other => panic!("{other:?}"),
        }
    }
}

#[test]
fn replies_hold_a_text() {
    assert_eq!(
        Transcription::from_reply(Ok(Some("hello".to_string()))).unwrap(),
        Transcription { text: "hello".to_string() }
    );
    assert!(matches!(Transcription::from_reply(Ok(None)), Err(CodexAsrError::MissingText)));
    let error = serde_json::from_str::<serde_json::Value>("{").unwrap_err();
    let words = error.to_string();
    match Transcription::from_reply(Err(error)) {
        Err(CodexAsrError::ParseAuth { path, source }) => {
            assert_eq!(path, std::path::PathBuf::from("<transcribe response>"));
            assert_eq!(source.to_string(), words);
        }
        other => panic!("{other:?}"),
    }
}

#[test]
fn the_login_of_the_desktop_application_makes_a_client() {
    let path = std::path::PathBuf::from("/home/me/.codex/auth.json");
    let file = |token: Option<&str>| AuthFile {
        auth_mode: Some("chatgpt".to_string()),
        auth_mode_camel: None,
        tokens: Some(AuthTokens {
            access_token: token.map(str::to_string),
            account_id: Some("acct".to_string()),
        }),
    };
    let client = CodexAsrClient::from_codex_home(path.clone(), file(Some("abc")), &platform()).unwrap();
    let headers = client.auth_headers().unwrap();
    assert_eq!(headers.get("authorization").unwrap(), "Bearer abc");
    assert_eq!(headers.get("chatgpt-account-id").unwrap(), "acct");
    let request = client.transcribe_bytes(vec![1], "a.wav", "audio/wav", None).unwrap();
    assert_eq!(request.url, DEFAULT_ENDPOINT);
    assert!(matches!(
        CodexAsrClient::from_codex_home(path.clone(), file(None), &platform()),
        Err(CodexAsrError::MissingAccessToken { .. })
    ));
    assert!(CodexAsrClientBuilder::from_codex_home(path.clone(), file(Some("abc")), &platform()).is_ok());
    let auth = CodexAuth::from_codex_home(path.clone(), file(Some("abc"))).unwrap();
    assert_eq!(auth.access_token, "abc");
    assert_eq!(auth.path, Some(path));
}

#[test]
fn errors_are_reported() {
    let path = || std::path::PathBuf::from("/tmp/x.json");
    assert_eq!(CodexAsrError::InvalidBearer.message(), "invalid bearer token");
    assert_eq!(CodexAsrError::MissingText.message(), "transcribe response did not contain text");
    assert_eq!(
        CodexAsrError::UnsupportedAuthMode { mode: "apikey".to_string() }.message(),
        "Codex auth mode is apikey, not ChatGPT token auth"
    );
    assert_eq!(
        CodexAsrError::MissingAccessToken { path: path() }.message(),
        "Codex auth at /tmp/x.json does not contain a ChatGPT access token"
    );
    assert_eq!(
        CodexAsrError::Http { status: 502, body: "no luck".to_string() }.message(),
        "transcribe request failed with HTTP 502: no luck"
    );
    let source = std::io::Error::new(std::io::ErrorKind::Other, "disk on fire");
    let error = CodexAsrError::ReadFile { path: path(), source };
    assert_eq!(error.message(), "failed to read /tmp/x.json: disk on fire");
    assert_eq!(error.words("why"), "failed to read /tmp/x.json: why");
    let source = serde_json::from_str::<serde_json::Value>("{").unwrap_err();
    assert_eq!(
        CodexAsrError::ParseAuth { path: path(), source }.message(),
        "failed to parse /tmp/x.json: EOF while parsing an object at line 1 column 1"
    );
    match client("a\nb", None).auth_headers() {
        Err(error) => assert_eq!(error.message(), "invalid header value: failed to parse header value"),
        other => panic!("{other:?}"),
    }
    match upload_form(vec![1], "a", "audio", None) {
        Err(error) => assert_eq!(error.message(), "failed to build multipart request: builder error"),
        other => panic!("{other:?}"),
    }
    let builder = CodexAsrClient::builder(login("t", None), &platform());
    match builder.proxy(Some("http://[bad".to_string())).build() {
        Err(error) => assert_eq!(error.message(), "failed to build HTTP client: builder error"),
        other => panic!("{other:?}"),
    }
}

#[test]
fn clients_do_not_wait_for_replies_without_end() {
    let client = CodexAsrClient::builder(login("t", None), &platform())
        .endpoint("http://unknown.invalid/".to_string())
        .proxy(Some("http://127.0.0.1:9".to_string()))
        .timeouts(15, 0)
        .build()
        .unwrap();
    let upload = client.transcribe_bytes(vec![1], "a.wav", "audio/wav", None).unwrap();
    let request = client.http().post(&upload.url).headers(upload.headers).multipart(upload.form);
    assert!(request.send().unwrap_err().is_timeout());
}

#[test]
fn the_status_goes_before_the_body() {
    let text = || Ok(Some("hello".to_string()));
    assert_eq!(Transcription::from_response(200, "x", text()).unwrap().text, "hello");
    assert!(matches!(Transcription::from_response(299, "x", Ok(None)), Err(CodexAsrError::MissingText)));
    let parsed = serde_json::from_str::<serde_json::Value>("{").map(|_| None);
    assert!(matches!(
        Transcription::from_response(200, "{", parsed),
        Err(CodexAsrError::ParseAuth { .. })
    ));
    match Transcription::from_response(503, " try \n later ", text()) {
        Err(CodexAsrError::Http { status, body }) => {
            assert_eq!(status, 503);
            assert_eq!(body, "try later");
        }
        other => panic!("{other:?}"),
    }
}

#[test]
fn only_unreadable_proxies_are_refused() {
    let builder = CodexAsrClient::builder(login("t", None), &platform());
    assert!(builder.http_builder().is_ok());
    assert!(builder.clone().proxy(Some("http://127.0.0.1:7892".to_string())).http_builder().is_ok());
    assert!(matches!(
        builder.proxy(Some("http://[bad".to_string())).http_builder(),
        Err(CodexAsrError::BuildClient(_))
    ));
}
