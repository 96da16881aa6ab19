use codex_asr::proxy::{
    first_non_empty, parse_scutil_https_proxy, system_https_proxy, CommandOutput, ProxyEnvironment,
};
use codex_asr::resolve_proxy;

fn none() -> ProxyEnvironment {
    ProxyEnvironment {
        codex_asr_proxy: None,
        codex_voice_proxy: None,
        https_proxy_upper: None,
        https_proxy_lower: None,
        all_proxy_upper: None,
        all_proxy_lower: None,
        system: None,
    }
}

#[test]
fn macos_https_proxy_is_parsed() {
    let output = r#"
<dictionary> {
  HTTPSEnable : 1
  HTTPSProxy : 127.0.0.1
  HTTPSPort : 7892
}
"#;
    assert_eq!(parse_scutil_https_proxy(output).as_deref(), Some("http://127.0.0.1:7892"));
}

#[test]
fn incomplete_reports_name_no_proxy() {
    assert_eq!(parse_scutil_https_proxy(""), None);
    assert_eq!(parse_scutil_https_proxy("HTTPSEnable : 1\nHTTPSProxy : h"), None);
    assert_eq!(parse_scutil_https_proxy("HTTPSEnable : 1\nHTTPSPort : 1"), None);
    assert_eq!(parse_scutil_https_proxy("HTTPSProxy : h\nHTTPSPort : 1"), None);
    assert_eq!(parse_scutil_https_proxy("HTTPSEnable : 0\nHTTPSProxy : h\nHTTPSPort : 1"), None);
    assert_eq!(parse_scutil_https_proxy("HTTPSEnable : 10\nHTTPSProxy : h\nHTTPSPort : 1"), None);
}

#[test]
fn the_last_entry_of_a_report_counts() {
    let report = "HTTPSEnable : 0\r\nHTTPSPort:1\r\nHTTPSProxy:a\r\nHTTPSEnable:1\r\nHTTPSProxy : b:c \r\nno colon\r\n";
    assert_eq!(parse_scutil_https_proxy(report).as_deref(), Some("http://b:c:1"));
    let off = "HTTPSEnable : 1\nHTTPSPort:1\nHTTPSProxy:a\nHTTPSEnable: 0\n";
    assert_eq!(parse_scutil_https_proxy(off), None);
    let empty = "HTTPSEnable : 1\nHTTPSPort:\nHTTPSProxy:";
    assert_eq!(parse_scutil_https_proxy(empty).as_deref(), Some("http://:"));
}

#[test]
fn the_first_setting_that_is_not_blank_counts() {
    let list = |values: &[Option<&str>]| -> Vec<Option<String>> {
        values.iter().map(|v| v.map(str::to_string)).collect()
    };
    assert_eq!(first_non_empty(&list(&[])), None);
    assert_eq!(first_non_empty(&list(&[None, Some(" \t")])), None);
    assert_eq!(first_non_empty(&list(&[None, Some(""), Some(" a "), Some("b")])).as_deref(), Some("a"));
}

#[test]
fn settings_are_looked_up_in_order() {
    let mut environment = none();
    assert_eq!(resolve_proxy(None, &environment), None);
    environment.system = Some("http://system".to_string());
    assert_eq!(resolve_proxy(None, &environment).as_deref(), Some("http://system"));
    environment.all_proxy_lower = Some("all_proxy".to_string());
    assert_eq!(resolve_proxy(None, &environment).as_deref(), Some("all_proxy"));
    environment.all_proxy_upper = Some("ALL_PROXY".to_string());
    assert_eq!(resolve_proxy(None, &environment).as_deref(), Some("ALL_PROXY"));
    environment.https_proxy_lower = Some("https_proxy".to_string());
    assert_eq!(resolve_proxy(None, &environment).as_deref(), Some("https_proxy"));
    environment.https_proxy_upper = Some("HTTPS_PROXY".to_string());
    assert_eq!(resolve_proxy(None, &environment).as_deref(), Some("HTTPS_PROXY"));
    environment.codex_voice_proxy = Some("CODEX_VOICE_PROXY".to_string());
    assert_eq!(resolve_proxy(None, &environment).as_deref(), Some("CODEX_VOICE_PROXY"));
    environment.codex_asr_proxy = Some("CODEX_ASR_PROXY".to_string());
    assert_eq!(resolve_proxy(None, &environment).as_deref(), Some("CODEX_ASR_PROXY"));
    assert_eq!(resolve_proxy(Some(" explicit\n"), &environment).as_deref(), Some("explicit"));
    assert_eq!(resolve_proxy(Some(" "), &environment).as_deref(), Some("CODEX_ASR_PROXY"));
}

#[test]
fn the_system_is_asked_on_macos_only() {
    let report = "HTTPSEnable : 1\nHTTPSProxy : h\nHTTPSPort : 1";
    let output = |success: bool| Some(CommandOutput { success, stdout: report.to_string() });
    assert_eq!(system_https_proxy(true, output(true)).as_deref(), Some("http://h:1"));
    assert_eq!(system_https_proxy(true, output(false)), None);
    assert_eq!(system_https_proxy(true, None), None);
    assert_eq!(system_https_proxy(false, output(true)), None);
}
