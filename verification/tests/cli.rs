use codex_asr::auth::{AuthFile, AuthTokens};
use codex_asr::cli::{
    client_proxy, configure_client, load_auth, run, run_serve, transcribe_options, AuthSource, Cli, Command, Run,
};
use codex_asr::client::Platform;
use codex_asr::path::AudioPath;
use codex_asr::proxy::ProxyEnvironment;
use codex_asr::silk::{
    check_decoded_len, check_decoder_run, decode_arguments, fallback_silk_decoder_paths,
    find_on_path, resolve_silk_decoder, wants_silk_decode, Candidate, DecodeArgument,
    DecoderCandidates, DecoderError, SilkDecodeConfig, DECODED_SUFFIX,
};
use codex_asr::{CodexAsrError, CodexAuth};
use std::path::PathBuf;

fn cli(command: Option<Command>) -> Cli {
    Cli {
        command,
        audio: None,
        bearer: None,
        account_id: None,
        auth_file: None,
        endpoint: "http://e".to_string(),
        proxy: None,
        language: None,
        content_type: None,
        filename: None,
        silk_decoder: None,
        silk_sample_rate: 24000,
        no_silk_decode: false,
        json: false,
    }
}

fn serve(api_key: Option<&str>, no_api_key: bool, concurrency: usize) -> Cli {
    cli(Some(Command::Serve {
        host: "127.0.0.1".to_string(),
        port: 8788,
        api_key: api_key.map(str::to_string),
        no_api_key,
        concurrency,
    }))
}

fn candidate(path: &str, exists: bool) -> Candidate<String> {
    Candidate { path: path.to_string(), exists }
}

fn candidates() -> DecoderCandidates<String> {
    DecoderCandidates {
        explicit: None,
        configured: None,
        on_path: vec![candidate("/a/rust-silk", false), candidate("/b/rust-silk", true), candidate("/c/rust-silk", true)],
        fallback: vec![candidate("/home/release", true), candidate("/home/debug", true)],
    }
}

#[test]
fn the_command_goes_before_the_audio() {
    let mut line = cli(Some(Command::Transcribe { audio: PathBuf::from("a.wav") }));
    line.audio = Some(PathBuf::from("b.wav"));
    assert!(matches!(run(&line), Run::Transcribe { audio } if audio == PathBuf::from("a.wav")));
    line.command = None;
    assert!(matches!(run(&line), Run::Transcribe { audio } if audio == PathBuf::from("b.wav")));
    line.audio = None;
    assert!(matches!(run(&line), Run::Help));
    let mut line = serve(None, true, 1);
    line.audio = Some(PathBuf::from("b.wav"));
    assert!(matches!(run(&line), Run::Serve));
}

#[test]
fn a_bearer_goes_before_a_login_file() {
    let mut line = cli(None);
    line.account_id = Some("acct".to_string());
    match load_auth(&line, None) {
        AuthSource::CodexHome { account_id } => assert_eq!(account_id.as_deref(), Some("acct")),
        other => panic!("{other:?}"),
    }
    line.auth_file = Some(PathBuf::from("auth.json"));
    match load_auth(&line, None) {
        AuthSource::File { path, account_id } => {
            assert_eq!(path, PathBuf::from("auth.json"));
            assert_eq!(account_id.as_deref(), Some("acct"));
        }
        other => panic!("{other:?}"),
    }
    match load_auth(&line, Some("environment".to_string())) {
        AuthSource::Bearer { token, account_id } => {
            assert_eq!(token, "environment");
            assert_eq!(account_id.as_deref(), Some("acct"));
        }
        other => panic!("{other:?}"),
    }
    line.bearer = Some("explicit".to_string());
    match load_auth(&line, Some("environment".to_string())) {
        AuthSource::Bearer { token, .. } => assert_eq!(token, "explicit"),
        other => panic!("{other:?}"),
    }
}

#[test]
fn the_account_on_the_command_line_overrides_that_of_the_login_file() {
    let file = || AuthFile {
        auth_mode: None,
        auth_mode_camel: None,
        tokens: Some(AuthTokens {
            access_token: Some("t".to_string()),
            account_id: Some("acct_file".to_string()),
        }),
    };
    let mut line = cli(None);
    line.auth_file = Some(PathBuf::from("auth.json"));
    for named in [true, false] {
        line.auth_file = named.then(|| PathBuf::from("auth.json"));
        for (given, expected) in [(Some("acct_x"), "acct_x"), (None, "acct_file")] {
            line.account_id = given.map(str::to_string);
            let source = load_auth(&line, None);
            let path = source.file(PathBuf::from("home.json")).unwrap();
            assert_eq!(path, PathBuf::from(if named { "auth.json" } else { "home.json" }));
            let auth = source.login(Some((path.clone(), file()))).unwrap();
            assert_eq!(auth.account_id.as_deref(), Some(expected));
            assert_eq!(auth.access_token, "t");
            assert_eq!(auth.path, Some(path));
        }
    }
    let auth = CodexAuth::from_auth_file(PathBuf::from("p"), file()).unwrap();
    assert_eq!(auth.with_account(Some("a".to_string())).account_id.as_deref(), Some("a"));
}

#[test]
fn sources_are_logins() {
    let mut line = cli(None);
    line.account_id = Some("acct".to_string());
    let empty = AuthFile { auth_mode: Some("apikey".to_string()), auth_mode_camel: None, tokens: None };
    let source = load_auth(&line, Some(" Bearer abc ".to_string()));
    assert_eq!(source.file(PathBuf::from("home.json")), None);
    let auth = source.login(None).unwrap();
    assert_eq!(auth.access_token, "abc");
    assert_eq!(auth.account_id.as_deref(), Some("acct"));
    assert_eq!(auth.path, None);
    let blank = load_auth(&line, Some(" ".to_string()));
    assert!(matches!(blank.login(None), Err(CodexAsrError::InvalidBearer)));
    let home = load_auth(&line, None);
    assert!(matches!(
        home.login(Some((PathBuf::from("p"), empty))),
        Err(CodexAsrError::UnsupportedAuthMode { mode }) if mode == "apikey"
    ));
}

#[test]
fn clients_of_servers_have_timeouts() {
    let platform = Platform {
        desktop_plist: None,
        os: "linux".to_string(),
        arch: "x86_64".to_string(),
        proxies: ProxyEnvironment {
            codex_asr_proxy: None,
            codex_voice_proxy: None,
            https_proxy_upper: None,
            https_proxy_lower: None,
            all_proxy_upper: None,
            all_proxy_lower: None,
            system: None,
        },
    };
    let auth = || CodexAuth::from_bearer("t", None).unwrap();
    let mut server = serve(None, true, 1);
    let builder = configure_client(&server, auth(), &platform);
    let shown = format!("{builder:?}");
    assert!(shown.contains("connect_timeout: Some(10)"), "{shown}");
    assert!(shown.contains("request_timeout: Some(120)"), "{shown}");
    let client = builder.build().unwrap();
    let request = client.transcribe_bytes(vec![1], "a.wav", "audio/wav", None).unwrap();
    assert_eq!(request.url, "http://e");

    let shown = format!("{:?}", configure_client(&cli(None), auth(), &platform));
    assert!(shown.contains("connect_timeout: None"), "{shown}");
    assert!(shown.contains("request_timeout: None"), "{shown}");

    server.proxy = Some("http://[bad".to_string());
    assert!(matches!(
        configure_client(&server, auth(), &platform).build(),
        Err(CodexAsrError::BuildClient(_))
    ));
}

#[test]
fn the_proxy_on_the_command_line_is_taken_as_it_is() {
    let environment = ProxyEnvironment {
        codex_asr_proxy: Some(" http://p ".to_string()),
        codex_voice_proxy: None,
        https_proxy_upper: None,
        https_proxy_lower: None,
        all_proxy_upper: None,
        all_proxy_lower: None,
        system: None,
    };
    let mut line = cli(None);
    assert_eq!(client_proxy(&line, &environment).as_deref(), Some("http://p"));
    line.proxy = Some(" ".to_string());
    assert_eq!(client_proxy(&line, &environment).as_deref(), Some(" "));
}

#[test]
fn servers_are_configured() {
    let config = run_serve(&serve(Some(" key "), false, 3), Some("other".to_string())).unwrap();
    assert_eq!(config.address, "127.0.0.1:8788");
    assert_eq!(config.api_key.as_deref(), Some("key"));
    assert_eq!(config.concurrency, 3);
    let config = run_serve(&serve(None, false, 1), Some("env".to_string())).unwrap();
    assert_eq!(config.api_key.as_deref(), Some("env"));
    let config = run_serve(&serve(Some("key"), true, 1), None).unwrap();
    assert_eq!(config.api_key, None);
    assert_eq!(run_serve(&serve(None, false, 0), None).unwrap_err(), "--concurrency must be greater than 0");
    assert_eq!(
        run_serve(&serve(None, false, 1), None).unwrap_err(),
        "serve requires --api-key, CODEX_ASR_SERVER_KEY, or --no-api-key"
    );
}

#[test]
fn decoded_files_are_transcribed_as_wav() {
    let mut line = cli(None);
    line.language = Some("zh".to_string());
    line.content_type = Some("audio/silk".to_string());
    let path = AudioPath::new("/tmp/voice.silk");
    let options = transcribe_options(&line, &path, true);
    assert_eq!(options.language.as_deref(), Some("zh"));
    assert_eq!(options.content_type.as_deref(), Some("audio/wav"));
    assert_eq!(options.filename.as_deref(), Some("voice.wav"));
    let options = transcribe_options(&line, &path, false);
    assert_eq!(options.content_type.as_deref(), Some("audio/silk"));
    assert_eq!(options.filename, None);
    line.filename = Some("mine.ogg".to_string());
    assert_eq!(transcribe_options(&line, &path, true).filename.as_deref(), Some("mine.ogg"));
    assert_eq!(transcribe_options(&line, &path, false).filename.as_deref(), Some("mine.ogg"));
}

#[test]
fn silk_is_decoded_unless_told_otherwise() {
    let mut line = cli(None);
    line.silk_decoder = Some(PathBuf::from("/bin/rust-silk"));
    line.silk_sample_rate = 16000;
    let config = SilkDecodeConfig::from_cli(&line);
    assert_eq!(config.decoder, Some(PathBuf::from("/bin/rust-silk")));
    assert_eq!(config.sample_rate, 16000);
    assert!(wants_silk_decode(&AudioPath::new("a.SILK"), &config));
    assert!(!wants_silk_decode(&AudioPath::new("a.wav"), &config));
    line.no_silk_decode = true;
    let config = SilkDecodeConfig::from_cli(&line);
    assert!(!wants_silk_decode(&AudioPath::new("a.SILK"), &config));

    let words: Vec<String> = decode_arguments(&config)
        .into_iter()
        .map(|argument| match argument {
            DecodeArgument::Word(word) => word,
            DecodeArgument::Input => "INPUT".to_string(),
            DecodeArgument::Output => "OUTPUT".to_string(),
        })
        .collect();
    assert_eq!(words, vec!["decode", "-i", "INPUT", "-o", "OUTPUT", "--sample-rate", "16000", "--quiet"]);
}

#[test]
fn failed_decoders_are_reported() {
    assert_eq!(check_decoder_run(true, "exit status: 0", "warning", "x"), Ok(()));
    let report = |stderr: &str, stdout: &str| check_decoder_run(false, "exit status: 1", stderr, stdout).unwrap_err();
    assert_eq!(report(" bad\n", " out "), "rust-silk decode failed with status exit status: 1: bad out");
    assert_eq!(report("bad", " "), "rust-silk decode failed with status exit status: 1: bad");
    assert_eq!(report("", "out"), "rust-silk decode failed with status exit status: 1: out");
    assert_eq!(report("", "\n"), "rust-silk decode failed with status exit status: 1");
}

#[test]
fn decoded_audio_holds_samples() {
    assert_eq!(check_decoded_len(45), Ok(()));
    for len in [0, 44] {
        assert_eq!(check_decoded_len(len), Err("rust-silk decode produced an empty WAV"));
    }
}

#[test]
fn the_decoder_is_looked_up_in_order() {
    assert_eq!(find_on_path(candidates().on_path).as_deref(), Some("/b/rust-silk"));
    assert_eq!(find_on_path::<String>(vec![]), None);

    assert!(matches!(resolve_silk_decoder(candidates()), Ok(path) if path == "/b/rust-silk"));
    let mut none_on_path = candidates();
    none_on_path.on_path = vec![candidate("/a/rust-silk", false)];
    assert!(matches!(resolve_silk_decoder(none_on_path), Ok(path) if path == "/home/release"));
    let mut nowhere = candidates();
    nowhere.on_path = vec![];
    nowhere.fallback = vec![candidate("/home/release", false)];
    assert!(matches!(resolve_silk_decoder(nowhere), Err(DecoderError::NotFound)));

    let mut configured = candidates();
    configured.configured = Some(candidate("/configured", true));
    assert!(matches!(resolve_silk_decoder(configured), Ok(path) if path == "/configured"));
    let mut missing = candidates();
    missing.configured = Some(candidate("/configured", false));
    assert!(matches!(resolve_silk_decoder(missing), Err(DecoderError::ConfiguredMissing(path)) if path == "/configured"));

    let mut explicit = candidates();
    explicit.explicit = Some(candidate("/explicit", true));
    explicit.configured = Some(candidate("/configured", false));
    assert!(matches!(resolve_silk_decoder(explicit), Ok(path) if path == "/explicit"));
    let mut absent = candidates();
    absent.explicit = Some(candidate("/explicit", false));
    assert!(matches!(resolve_silk_decoder(absent), Err(DecoderError::ExplicitMissing(path)) if path == "/explicit"));
}

#[test]
fn missing_decoders_are_reported() {
    assert_eq!(DecoderError::ExplicitMissing(()).words("/x"), "rust-silk decoder not found at /x");
    assert_eq!(
        DecoderError::ConfiguredMissing(()).words("/x"),
        "CODEX_ASR_SILK_DECODER points to missing file /x"
    );
    assert_eq!(
        DecoderError::<()>::NotFound.words("/x"),
        "input is .silk, but rust-silk was not found; pass --silk-decoder or set CODEX_ASR_SILK_DECODER"
    );
    assert_eq!(DECODED_SUFFIX, ".wav");
    let path = AudioPath::new("codex-asr-silk-1.wav");
    assert_eq!(codex_asr::infer_content_type(&path), "audio/wav");
}

#[test]
fn builds_below_the_home_directory_are_fallbacks() {
    assert_eq!(
        fallback_silk_decoder_paths(true),
        vec![
            vec!["rust-silk", "target", "release", "rust-silk"],
            vec!["rust-silk", "target", "debug", "rust-silk"],
        ]
    );
    assert!(fallback_silk_decoder_paths(false).is_empty());
}
