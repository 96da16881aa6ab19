//! The HTTPS proxy: which setting counts, and what macOS reports.

use vstd::prelude::*;
use vstd::slice::slice_subrange;

use crate::path::opt_text;
use crate::text::{
    after_first, before_first, chars_of, find_first, lemma_first_index, lines, lines_of, same_text,
    text_of, texts, trim, trim_chars, trim_text,
};

verus! {

/// The proxy settings outside the command line: the environment variables that can hold one,
/// and the proxy of the system.
#[derive(Debug, Clone)]
pub struct ProxyEnvironment {
    /// `CODEX_ASR_PROXY`
    pub codex_asr_proxy: Option<String>,
    /// `CODEX_VOICE_PROXY`
    pub codex_voice_proxy: Option<String>,
    /// `HTTPS_PROXY`
    pub https_proxy_upper: Option<String>,
    /// `https_proxy`
    pub https_proxy_lower: Option<String>,
    /// `ALL_PROXY`
    pub all_proxy_upper: Option<String>,
    /// `all_proxy`
    pub all_proxy_lower: Option<String>,
    pub system: Option<String>,
}

/// The first of the given settings that is there and not blank, trimmed.
pub open spec fn first_setting(values: Seq<Option<Seq<char>>>) -> Option<Seq<char>>
    decreases values.len(),
{
    if values.len() == 0 {
        None
    } else {
        match values[0] {
            Some(value) => if trim(value).len() > 0 {
                Some(trim(value))
            } else {
                first_setting(values.drop_first())
            },
            None => first_setting(values.drop_first()),
        }
    }
}

/// The texts of the given optional strings.
pub open spec fn opt_texts(values: Seq<Option<String>>) -> Seq<Option<Seq<char>>> {
    values.map_values(|v: Option<String>| opt_text(v))
}

impl ProxyEnvironment {
    /// The settings, each before those that it overrides.
    pub open spec fn settings(self) -> Seq<Option<Seq<char>>> {
        seq![
            opt_text(self.codex_asr_proxy),
            opt_text(self.codex_voice_proxy),
            opt_text(self.https_proxy_upper),
            opt_text(self.https_proxy_lower),
            opt_text(self.all_proxy_upper),
            opt_text(self.all_proxy_lower),
            opt_text(self.system),
        ]
    }
}

/// The text that an optional string slice holds.
pub open spec fn opt_str(value: Option<&str>) -> Option<Seq<char>> {
    match value {
        Some(v) => Some(v@),
        None => None,
    }
}

/// The value that a line gives to `key`: what stands behind its first colon, trimmed.
pub open spec fn line_value(line: Seq<char>, key: Seq<char>) -> Option<Seq<char>> {
    if line.contains(':') && trim(before_first(line, ':')) == key {
        Some(trim(after_first(line, ':')))
    } else {
        None
    }
}

/// The value that the last line with `key` gives to it.
pub open spec fn last_value(lines: Seq<Seq<char>>, key: Seq<char>) -> Option<Seq<char>>
    decreases lines.len(),
{
    if lines.len() == 0 {
        None
    } else {
        match line_value(lines.last(), key) {
            Some(value) => Some(value),
            None => last_value(lines.drop_last(), key),
        }
    }
}

/// The proxy in what `scutil --proxy` prints: its host and port, where it is enabled and both
/// are there.
pub open spec fn reported_proxy(output: Seq<char>) -> Option<Seq<char>> {
    let report = lines(output);
    if last_value(report, "HTTPSEnable"@) == Some("1"@) {
        match (last_value(report, "HTTPSProxy"@), last_value(report, "HTTPSPort"@)) {
            (Some(host), Some(port)) => Some("http://"@ + host + ":"@ + port),
            _ => None,
        }
    } else {
        None
    }
}

/// The first of the given settings that is there and not blank, trimmed.
pub fn first_non_empty(values: &Vec<Option<String>>) -> (r: Option<String>)
    ensures
        opt_text(r) == first_setting(opt_texts(values@)),
{
    let ghost all = opt_texts(values@);
    let n: usize = values.len();
    assert(all.skip(0) =~= all);
    for i in 0..n
        invariant
            n == values@.len(),
            all == opt_texts(values@),
            first_setting(all) == first_setting(all.skip(i as int)),
    {
        assert(all.skip(i as int)[0] == opt_text(values@[i as int]));
        assert(all.skip(i as int).drop_first() =~= all.skip(i + 1));
        if let Some(value) = &values[i] {
            let trimmed = trim_text(value.as_str());
            if !trimmed.as_str().is_empty() {
                return Some(trimmed);
            }
        }
    }
    None
}

/// The proxy to use: the one that was asked for, or else the first setting that is not blank.
pub fn resolve_proxy(explicit_proxy: Option<&str>, environment: &ProxyEnvironment) -> (r: Option<
    String,
>)
    ensures
        opt_text(r) == first_setting(seq![opt_str(explicit_proxy)] + environment.settings()),
{
    let explicit: Option<String> = match explicit_proxy {
        Some(proxy) => Some(proxy.to_owned()),
        None => None,
    };
    let mut values: Vec<Option<String>> = Vec::new();
    values.push(explicit);
    values.push(environment.codex_asr_proxy.clone());
    values.push(environment.codex_voice_proxy.clone());
    values.push(environment.https_proxy_upper.clone());
    values.push(environment.https_proxy_lower.clone());
    values.push(environment.all_proxy_upper.clone());
    values.push(environment.all_proxy_lower.clone());
    values.push(environment.system.clone());
    assert(opt_texts(values@) =~= seq![opt_str(explicit_proxy)] + environment.settings());
    first_non_empty(&values)
}

/// The value that a line gives to `key`, as `line_value` says.
fn value_in(line: &[char], key: &str) -> (r: Option<String>)
    ensures
        opt_text(r) == line_value(line@, key@),
{
    let n: usize = line.len();
    let k = find_first(line, ':');
    proof {
        lemma_first_index(line@, ':');
    }
    if k == n {
        assert(!line@.contains(':'));
        return None;
    }
    assert(line@.contains(':'));
    let head = slice_subrange(line, 0, k);
    assert(head@ =~= before_first(line@, ':'));
    if same_text(trim_chars(head), key) {
        let tail = slice_subrange(line, k + 1, n);
        assert(tail@ =~= after_first(line@, ':'));
        Some(text_of(trim_chars(tail)))
    } else {
        None
    }
}

/// The proxy in what `scutil --proxy` prints.
pub fn parse_scutil_https_proxy(output: &str) -> (r: Option<String>)
    ensures
        opt_text(r) == reported_proxy(output@),
{
    let report = lines_of(output);
    let ghost all = lines(output@);
    let n: usize = report.len();
    let mut enabled: bool = false;
    let mut host: Option<String> = None;
    let mut port: Option<String> = None;
    for i in 0..n
        invariant
            n == report@.len(),
            all == texts(report@),
            enabled == (last_value(all.take(i as int), "HTTPSEnable"@) == Some("1"@)),
            opt_text(host) == last_value(all.take(i as int), "HTTPSProxy"@),
            opt_text(port) == last_value(all.take(i as int), "HTTPSPort"@),
    {
        assert(all.take(i + 1).drop_last() =~= all.take(i as int));
        assert(all.take(i + 1).last() == report@[i as int]@);
        let line = report[i].as_slice();
        if let Some(value) = value_in(line, "HTTPSEnable") {
            let chars = chars_of(value.as_str());
            enabled = same_text(chars.as_slice(), "1");
        }
        if let Some(value) = value_in(line, "HTTPSProxy") {
            host = Some(value);
        }
        if let Some(value) = value_in(line, "HTTPSPort") {
            port = Some(value);
        }
    }
    assert(all.take(n as int) =~= all);
    if !enabled {
        return None;
    }
    let host = host?;
    let port = port?;
    let mut url: String = "http://".to_owned();
    url.append(host.as_str());
    url.append(":");
    url.append(port.as_str());
    Some(url)
}

/// What a command printed, and whether it succeeded.
#[derive(Debug, Clone)]
pub struct CommandOutput {
    pub success: bool,
    pub stdout: String,
}

/// The proxy of the system, given whether that is macOS and what `scutil --proxy` did there,
/// where it could be run.
pub fn system_https_proxy(macos: bool, scutil: Option<CommandOutput>) -> (r: Option<String>)
    ensures
        opt_text(r) == match scutil {
            Some(output) => if macos && output.success {
                reported_proxy(output.stdout@)
            } else {
                None
            },
            None => None,
        },
{
    match scutil {
        Some(output) => if macos && output.success {
            parse_scutil_https_proxy(output.stdout.as_str())
        } else {
            None
        },
        None => None,
    }
}

} // verus!
