use base64::Engine;
use codex_asr::auth::{
    account_id_from_access_token, account_id_from_claims, default_auth_file, strip_bearer_prefix,
    AuthFile, AuthTokens,
};
use codex_asr::{CodexAsrError, CodexAuth};
use std::path::PathBuf;

fn token(payload: &str) -> String {
    let payload = base64::prelude::BASE64_URL_SAFE_NO_PAD.encode(payload);
    format!("header.{payload}.sig")
}

fn file(mode: Option<&str>, camel: Option<&str>, access: Option<&str>, account: Option<&str>) -> AuthFile {
    AuthFile {
        auth_mode: mode.map(str::to_string),
        auth_mode_camel: camel.map(str::to_string),
        tokens: Some(AuthTokens {
            access_token: access.map(str::to_string),
            account_id: account.map(str::to_string),
        }),
    }
}

#[test]
fn bearer_prefix_is_optional() {
    assert_eq!(strip_bearer_prefix("Bearer abc.def").as_deref(), Some("abc.def"));
    assert_eq!(strip_bearer_prefix("abc.def").as_deref(), Some("abc.def"));
    assert_eq!(strip_bearer_prefix("  ").as_deref(), None);
}

#[test]
fn bearer_prefix_has_two_spellings() {
    assert_eq!(strip_bearer_prefix(" bearer   abc ").as_deref(), Some("abc"));
    assert_eq!(strip_bearer_prefix("BEARER abc").as_deref(), Some("BEARER abc"));
    assert_eq!(strip_bearer_prefix("Bearer bearer abc").as_deref(), Some("bearer abc"));
    assert_eq!(strip_bearer_prefix("Bearer ").as_deref(), Some("Bearer"));
    assert_eq!(strip_bearer_prefix("").as_deref(), None);
}

#[test]
fn account_id_can_be_read_from_chatgpt_jwt_payload() {
    let payload = base64::prelude::BASE64_URL_SAFE_NO_PAD
        .encode(r#"{"https://api.openai.com/auth":{"chatgpt_account_id":"acct_123"}}"#);
    let token = format!("header.{payload}.sig");
    assert_eq!(account_id_from_access_token(&token).as_deref(), Some("acct_123"));
}

#[test]
fn the_account_is_in_the_second_part_alone() {
    let claims = r#"{"https://api.openai.com/auth":{"chatgpt_account_id":"a"}}"#;
    let payload = base64::prelude::BASE64_URL_SAFE_NO_PAD.encode(claims);
    for (head, rest) in [("", ""), ("x", "y.z"), ("head", "..")] {
        let token = format!("{head}.{payload}.{rest}");
        assert_eq!(account_id_from_access_token(&token).as_deref(), Some("a"));
    }
    assert_eq!(account_id_from_access_token(&format!("head.{payload}")).as_deref(), Some("a"));
    assert_eq!(account_id_from_access_token(&payload), None);
}

#[test]
fn tokens_without_an_account_name_none() {
    for claims in [
        "{}",
        "[]",
        "{",
        r#"{"https://api.openai.com/auth":{}}"#,
        r#"{"https://api.openai.com/auth":"acct"}"#,
        r#"{"https://api.openai.com/auth":{"chatgpt_account_id":""}}"#,
        r#"{"https://api.openai.com/auth":{"chatgpt_account_id":7}}"#,
        r#"{"chatgpt_account_id":"acct"}"#,
    ] {
        assert_eq!(account_id_from_access_token(&token(claims)), None, "{claims}");
    }
    assert_eq!(account_id_from_access_token("a.!!!.c"), None);
    assert_eq!(account_id_from_access_token("a.e30=.c"), None);
    assert_eq!(account_id_from_access_token("abc"), None);
    assert_eq!(account_id_from_access_token(""), None);
}

#[test]
fn claims_name_the_account() {
    let claims: serde_json::Value = serde_json::from_str(
        r#"{"https://api.openai.com/auth":{"chatgpt_account_id":"acct_9","x":1},"sub":"s"}"#,
    )
    .unwrap();
    assert_eq!(account_id_from_claims(&claims).as_deref(), Some("acct_9"));
    assert_eq!(account_id_from_claims(&serde_json::Value::Null), None);
}

#[test]
fn a_bearer_is_a_login() {
    let claims = r#"{"https://api.openai.com/auth":{"chatgpt_account_id":"inside"}}"#;
    let auth = CodexAuth::from_bearer(&format!(" Bearer {}\n", token(claims)), None).unwrap();
    assert_eq!(auth.access_token, token(claims));
    assert_eq!(auth.account_id.as_deref(), Some("inside"));
    assert_eq!(auth.path, None);

    let auth = CodexAuth::from_bearer(&token(claims), Some("outside".to_string())).unwrap();
    assert_eq!(auth.account_id.as_deref(), Some("outside"));

    let auth = CodexAuth::from_bearer("plain", None).unwrap();
    assert_eq!(auth.access_token, "plain");
    assert_eq!(auth.account_id, None);

    assert!(matches!(CodexAuth::from_bearer(" \t", None), Err(CodexAsrError::InvalidBearer)));
}

#[test]
fn a_login_file_holds_a_token() {
    let path = PathBuf::from("/home/me/.codex/auth.json");
    for mode in [None, Some("chatgpt"), Some("chatgpt_auth_tokens")] {
        let auth = CodexAuth::from_auth_file(path.clone(), file(mode, None, Some(" t "), Some("acct"))).unwrap();
        assert_eq!(auth.access_token, " t ");
        assert_eq!(auth.account_id.as_deref(), Some("acct"));
        assert_eq!(auth.path, Some(path.clone()));
        let copy = auth.clone();
        assert_eq!(copy.access_token, " t ");
        assert_eq!(copy.account_id.as_deref(), Some("acct"));
        assert_eq!(copy.path, Some(path.clone()));
    }
    let claims = r#"{"https://api.openai.com/auth":{"chatgpt_account_id":"inside"}}"#;
    let auth = CodexAuth::from_auth_file(path, file(None, Some("chatgpt"), Some(&token(claims)), None)).unwrap();
    assert_eq!(auth.account_id.as_deref(), Some("inside"));
}

#[test]
fn other_login_modes_are_refused() {
    let path = PathBuf::from("auth.json");
    match CodexAuth::from_auth_file(path.clone(), file(Some("apikey"), Some("chatgpt"), Some("t"), None)) {
        Err(CodexAsrError::UnsupportedAuthMode { mode }) => assert_eq!(mode, "apikey"),
        other => panic!("{other:?}"),
    }
    match CodexAuth::from_auth_file(path, file(None, Some("ChatGPT"), None, None)) {
        Err(CodexAsrError::UnsupportedAuthMode { mode }) => assert_eq!(mode, "ChatGPT"),
        other => panic!("{other:?}"),
    }
}

#[test]
fn a_login_file_without_a_token_is_refused() {
    let path = PathBuf::from("auth.json");
    let none = AuthFile { auth_mode: None, auth_mode_camel: None, tokens: None };
    for file in [none, file(None, None, None, Some("acct")), file(None, None, Some(" \n"), None)] {
        match CodexAuth::from_auth_file(path.clone(), file) {
            Err(CodexAsrError::MissingAccessToken { path: p }) => assert_eq!(p, path),
            other => panic!("{other:?}"),
        }
    }
}

#[test]
fn the_login_file_is_found() {
    let found = default_auth_file(Some("/codex"), Some("/home/me"));
    assert_eq!(found.base, Some("/codex"));
    assert_eq!(found.components, vec!["auth.json"]);
    let found = default_auth_file(None, Some("/home/me"));
    assert_eq!(found.base, Some("/home/me"));
    assert_eq!(found.components, vec![".codex", "auth.json"]);
    let found = default_auth_file::<&str>(None, None);
    assert_eq!(found.base, None);
    assert_eq!(found.components, vec![".codex", "auth.json"]);
}
