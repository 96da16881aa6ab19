//! What the choice of a proxy promises.

use vstd::prelude::*;

use crate::path::opt_text;
use crate::promises::login::alike;
use crate::promises::text::{blank, gives, lemma_blank, lemma_trims_to, trims_to};
use crate::proxy::{
    first_non_empty, first_setting, last_value, line_value, opt_texts, parse_scutil_https_proxy,
    resolve_proxy, system_https_proxy, CommandOutput, ProxyEnvironment,
};
use crate::text::{
    first_index, lemma_first_index, lemma_first_index_unique, lines, lines_of, texts, trim,
};

verus! {

/// Whether a setting is there and not blank.
pub open spec fn counts(setting: Option<Seq<char>>) -> bool {
    setting is Some && !blank(setting->0)
}

proof fn lemma_first_setting(values: Seq<Option<Seq<char>>>, k: int)
    requires
        0 <= k <= values.len(),
        forall|i: int| 0 <= i < k ==> !counts(#[trigger] values[i]),
        k < values.len() ==> counts(values[k]),
    ensures
        k == values.len() ==> first_setting(values) is None,
        k < values.len() ==> first_setting(values) == Some(trim(values[k]->0)),
    decreases values.len(),
{
    if values.len() > 0 {
        if let Some(value) = values[0] {
            lemma_blank(value);
        }
        if k > 0 {
            assert(!counts(values[0]));
            let rest = values.drop_first();
            assert forall|i: int| 0 <= i < k - 1 implies !counts(#[trigger] rest[i]) by {
                assert(rest[i] == values[i + 1]);
            }
            lemma_first_setting(rest, k - 1);
        }
    }
}

/// Of several settings the first that is there and not blank counts, trimmed; where there is
/// none, nothing counts.
pub proof fn the_first_setting_counts(values: Vec<Option<String>>, k: int, r: Option<String>)
    requires
        call_ensures(first_non_empty, (&values,), r),
        0 <= k <= values@.len(),
        forall|i: int| 0 <= i < k ==> !counts(opt_text(#[trigger] values@[i])),
        k < values@.len() ==> counts(opt_text(values@[k])),
    ensures
        k == values@.len() ==> r is None,
        k < values@.len() ==> r is Some && trims_to(values@[k]->0@, r->0@),
{
    let all = opt_texts(values@);
    assert(all.len() == values@.len());
    assert forall|i: int| 0 <= i < k implies !counts(#[trigger] all[i]) by {
        assert(all[i] == opt_text(values@[i]));
    }
    if k < values@.len() {
        assert(all[k] == opt_text(values@[k]));
        lemma_trims_to(values@[k]->0@, trim(values@[k]->0@));
    }
    lemma_first_setting(all, k);
}

/// The settings for a proxy in the order in which they count.
pub open spec fn settings_in_order(
    explicit: Option<&str>,
    environment: ProxyEnvironment,
) -> Seq<Option<Seq<char>>> {
    seq![
        if explicit is Some {
            Some(explicit->0@)
        } else {
            None
        },
        opt_text(environment.codex_asr_proxy),
        opt_text(environment.codex_voice_proxy),
        opt_text(environment.https_proxy_upper),
        opt_text(environment.https_proxy_lower),
        opt_text(environment.all_proxy_upper),
        opt_text(environment.all_proxy_lower),
        opt_text(environment.system),
    ]
}

/// The proxy that was asked for goes before the settings of the environment, and these before
/// the proxy of the system.
pub proof fn proxies_are_looked_up_in_order(
    explicit: Option<&str>,
    environment: ProxyEnvironment,
    k: int,
    r: Option<String>,
)
    requires
        call_ensures(resolve_proxy, (explicit, &environment), r),
        0 <= k <= 8,
        forall|i: int|
            0 <= i < k ==> !counts(#[trigger] settings_in_order(explicit, environment)[i]),
        k < 8 ==> counts(settings_in_order(explicit, environment)[k]),
    ensures
        k == 8 ==> r is None,
        k < 8 ==> r is Some && trims_to(settings_in_order(explicit, environment)[k]->0, r->0@),
{
    let all = settings_in_order(explicit, environment);
    assert(seq![crate::proxy::opt_str(explicit)] + environment.settings() =~= all);
    lemma_first_setting(all, k);
    if k < 8 {
        lemma_trims_to(all[k]->0, trim(all[k]->0));
    }
}

/// Whether a line of a report gives the value to the key: they stand on the two sides of its
/// first colon, with white space around them.
pub open spec fn line_gives(line: Seq<char>, key: Seq<char>, value: Seq<char>) -> bool {
    exists|k: int|
        {
            &&& 0 <= k < line.len()
            &&& line[k] == ':'
            &&& forall|i: int| 0 <= i < k ==> line[i] != ':'
            &&& #[trigger] trims_to(line.take(k), key)
            &&& trims_to(line.skip(k + 1), value)
        }
}

/// Whether a line of a report says anything of the key.
pub open spec fn line_has(line: Seq<char>, key: Seq<char>) -> bool {
    exists|value: Seq<char>| #[trigger] line_gives(line, key, value)
}

proof fn lemma_line_value(line: Seq<char>, key: Seq<char>, value: Seq<char>)
    ensures
        line_gives(line, key, value) <==> line_value(line, key) == Some(value),
        line_has(line, key) <==> line_value(line, key) is Some,
{
    lemma_line_gives(line, key, value);
    if let Some(v) = line_value(line, key) {
        lemma_line_gives(line, key, v);
        assert(line_gives(line, key, v));
    }
    if line_has(line, key) {
        let v = choose|v: Seq<char>| #[trigger] line_gives(line, key, v);
        lemma_line_gives(line, key, v);
    }
}

proof fn lemma_line_gives(line: Seq<char>, key: Seq<char>, value: Seq<char>)
    ensures
        line_gives(line, key, value) <==> line_value(line, key) == Some(value),
{
    lemma_first_index(line, ':');
    if line_gives(line, key, value) {
        let k = choose|k: int|
            {
                &&& 0 <= k < line.len()
                &&& line[k] == ':'
                &&& forall|i: int| 0 <= i < k ==> line[i] != ':'
                &&& #[trigger] trims_to(line.take(k), key)
                &&& trims_to(line.skip(k + 1), value)
            };
        lemma_first_index_unique(line, ':', k);
        lemma_trims_to(line.take(k), key);
        lemma_trims_to(line.skip(k + 1), value);
        assert(line.contains(line[k]));
    }
    if line_value(line, key) == Some(value) {
        let k = first_index(line, ':');
        let i = choose|i: int| 0 <= i < line.len() && line[i] == ':';
        assert(k < line.len());
        lemma_trims_to(line.take(k), key);
        lemma_trims_to(line.skip(k + 1), value);
        assert(trims_to(line.take(k), key));
    }
}

/// Whether the last line of a report that says anything of the key is the one at `k`, and gives
/// it the value.
pub open spec fn finally_gives(
    report: Seq<Vec<char>>,
    key: Seq<char>,
    k: int,
    value: Seq<char>,
) -> bool {
    &&& 0 <= k < report.len()
    &&& line_gives(report[k]@, key, value)
    &&& forall|i: int| k < i < report.len() ==> !line_has(#[trigger] report[i]@, key)
}

/// Whether no line of a report says anything of the key.
pub open spec fn never_gives(report: Seq<Vec<char>>, key: Seq<char>) -> bool {
    forall|i: int| 0 <= i < report.len() ==> !line_has(#[trigger] report[i]@, key)
}

proof fn lemma_last_value(report: Seq<Vec<char>>, key: Seq<char>, k: int, value: Seq<char>)
    ensures
        finally_gives(report, key, k, value) ==> last_value(texts(report), key) == Some(value),
        never_gives(report, key) ==> last_value(texts(report), key) is None,
    decreases report.len(),
{
    let all = texts(report);
    assert(all.len() == report.len());
    if report.len() > 0 {
        let init = report.drop_last();
        lemma_last_value(init, key, k, value);
        assert(texts(init) =~= all.drop_last());
        assert(all.last() == report.last()@);
        lemma_line_value(report.last()@, key, value);
        assert forall|i: int| 0 <= i < init.len() implies init[i] == report[i] by {}
        if finally_gives(report, key, k, value) && k < init.len() {
            assert(!line_has(report[report.len() - 1]@, key));
            assert(finally_gives(init, key, k, value)) by {
                assert forall|i: int| k < i < init.len() implies !line_has(
                    #[trigger] init[i]@,
                    key,
                ) by {
                    assert(!line_has(report[i]@, key));
                }
            }
        }
        if never_gives(report, key) {
            assert(!line_has(report[report.len() - 1]@, key));
            assert(never_gives(init, key)) by {
                assert forall|i: int| 0 <= i < init.len() implies !line_has(
                    #[trigger] init[i]@,
                    key,
                ) by {
                    assert(!line_has(report[i]@, key));
                }
            }
        }
    }
}

/// A report names the proxy that its last lines on host and port name, where its last line on
/// whether there is one says `1`.
pub proof fn reports_name_the_proxy(
    output: &str,
    report: Vec<Vec<char>>,
    e: int,
    enabled: Seq<char>,
    h: int,
    host: Seq<char>,
    p: int,
    port: Seq<char>,
    r: Option<String>,
)
    requires
        call_ensures(parse_scutil_https_proxy, (output,), r),
        call_ensures(lines_of, (output,), report),
    ensures
        finally_gives(report@, "HTTPSEnable"@, e, enabled) && finally_gives(
            report@,
            "HTTPSProxy"@,
            h,
            host,
        ) && finally_gives(report@, "HTTPSPort"@, p, port) && enabled == seq!['1'] ==> gives(
            r,
            "http://"@ + host + ":"@ + port,
        ),
        finally_gives(report@, "HTTPSEnable"@, e, enabled) && enabled != seq!['1'] ==> r is None,
        never_gives(report@, "HTTPSEnable"@) ==> r is None,
        never_gives(report@, "HTTPSProxy"@) ==> r is None,
        never_gives(report@, "HTTPSPort"@) ==> r is None,
{
    reveal_strlit("1");
    assert("1"@ =~= seq!['1']);
    lemma_last_value(report@, "HTTPSEnable"@, e, enabled);
    lemma_last_value(report@, "HTTPSProxy"@, h, host);
    lemma_last_value(report@, "HTTPSPort"@, p, port);
}

/// The proxy of the system is the one that a report names which could be made on macOS.
pub proof fn the_system_names_its_proxy(
    macos: bool,
    output: Option<CommandOutput>,
    printed: &str,
    named: Option<String>,
    r: Option<String>,
)
    requires
        call_ensures(system_https_proxy, (macos, output), r),
        output is Some ==> printed@ == output->0.stdout@,
        call_ensures(parse_scutil_https_proxy, (printed,), named),
    ensures
        macos && output is Some && output->0.success ==> alike(r, named),
        !macos || output is None || !output->0.success ==> r is None,
{
}

} // verus!
