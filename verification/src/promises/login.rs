//! What the operations on logins promise.

use std::path::PathBuf;

use vstd::prelude::*;

use crate::auth::{
    account_id_from_access_token, account_id_from_claims, base64_url_bytes, default_auth_file,
    strip_bearer_prefix, AuthFile, CodexAuth, FileBelow,
};
use crate::cli::{load_auth, AuthSource, Cli};
use crate::error::CodexAsrError;
use crate::json::{json_document, json_tree, JsonTree};
use crate::promises::text::{blank, gives, lemma_blank, lemma_trims_to, trims_to};
use crate::text::{lemma_first_index_unique, lemma_trim, trim, white_space};

verus! {

/// Whether two optional strings are the same.
pub open spec fn alike(a: Option<String>, b: Option<String>) -> bool {
    a is Some == b is Some && (a is Some ==> a->0@ == b->0@)
}

/// Whether a text begins with the scheme of a bearer, in one of its two spellings.
pub open spec fn has_scheme(s: Seq<char>) -> bool {
    &&& s.len() >= 7
    &&& s[0] == 'B' || s[0] == 'b'
    &&& s.subrange(1, 7) == seq!['e', 'a', 'r', 'e', 'r', ' ']
}

/// The scheme of a bearer has two spellings.
pub proof fn lemma_has_scheme(s: Seq<char>)
    ensures
        has_scheme(s) <==> "Bearer "@.is_prefix_of(s) || "bearer "@.is_prefix_of(s),
        "Bearer "@.len() == 7,
        "bearer "@.len() == 7,
{
    reveal_strlit("Bearer ");
    reveal_strlit("bearer ");
    assert("Bearer "@.subrange(1, 7) =~= seq!['e', 'a', 'r', 'e', 'r', ' ']);
    assert("bearer "@.subrange(1, 7) =~= seq!['e', 'a', 'r', 'e', 'r', ' ']);
    if s.len() >= 7 {
        assert(s.subrange(0, 7).subrange(1, 7) =~= s.subrange(1, 7));
        if has_scheme(s) {
            assert forall|i: int| 1 <= i < 7 implies s[i] == "Bearer "@[i] && s[i]
                == "bearer "@[i] by {
                assert(s[i] == s.subrange(1, 7)[i - 1]);
                assert("Bearer "@[i] == "Bearer "@.subrange(1, 7)[i - 1]);
                assert("bearer "@[i] == "bearer "@.subrange(1, 7)[i - 1]);
            }
            if s[0] == 'B' {
                assert(s.subrange(0, 7) =~= "Bearer "@);
            } else {
                assert(s.subrange(0, 7) =~= "bearer "@);
            }
        }
        if "Bearer "@.is_prefix_of(s) {
            assert(s[0] == s.subrange(0, 7)[0]);
        }
        if "bearer "@.is_prefix_of(s) {
            assert(s[0] == s.subrange(0, 7)[0]);
        }
    }
}

/// What is given as a bearer is a token unless it is blank: all of it but the white space around
/// it and one scheme before it.
pub proof fn bearers_hold_a_token(token: &str, t: Seq<char>, r: Option<String>)
    requires
        call_ensures(strip_bearer_prefix, (token,), r),
        trims_to(token@, t),
    ensures
        r is None <==> blank(token@),
        r is Some && has_scheme(t) ==> trims_to(t.skip(7), r->0@),
        r is Some && !has_scheme(t) ==> r->0@ == t,
        r is Some ==> r->0@.len() > 0,
{
    lemma_trims_to(token@, t);
    lemma_blank(token@);
    lemma_has_scheme(t);
    lemma_trim(token@);
    crate::text::trim_is_idempotent(token@);
    if t.len() > 0 && has_scheme(t) {
        let rest = t.skip(7);
        assert(t[6] == t.subrange(1, 7)[5]);
        assert(rest.last() == t.last());
        lemma_blank(rest);
        assert(!blank(rest)) by {
            assert(!white_space(rest[rest.len() - 1]));
        }
        lemma_trims_to(rest, trim(rest));
    }
}

/// Whether the claims of a token name an account.
pub open spec fn names_account(claims: JsonTree, id: Seq<char>) -> bool {
    &&& claims is Object
    &&& claims->Object_0.dom().contains("https://api.openai.com/auth"@)
    &&& claims->Object_0["https://api.openai.com/auth"@] is Object
    &&& claims->Object_0["https://api.openai.com/auth"@]->Object_0.dom().contains(
        "chatgpt_account_id"@,
    )
    &&& claims->Object_0["https://api.openai.com/auth"@]->Object_0["chatgpt_account_id"@]
        == JsonTree::Text(id)
    &&& id.len() > 0
}

/// The account is the one that the claims name, and there is none where they name none.
pub proof fn claims_name_the_account(
    claims: serde_json::Value,
    id: Seq<char>,
    r: Option<String>,
)
    requires
        call_ensures(account_id_from_claims, (&claims,), r),
    ensures
        names_account(json_tree(claims), id) ==> gives(r, id),
        r is Some ==> names_account(json_tree(claims), r->0@),
{
}

/// The account of a token is in the part between its first two dots, or behind its only dot,
/// whatever the other parts are.
pub proof fn tokens_name_the_account(
    head: Seq<char>,
    payload: Seq<char>,
    rest: Seq<char>,
    id: Seq<char>,
    token: &str,
    r: Option<String>,
)
    requires
        call_ensures(account_id_from_access_token, (token,), r),
        !head.contains('.'),
        !payload.contains('.'),
        rest.len() == 0 || rest[0] == '.',
    ensures
        token@ == head ==> r is None,
        token@ == head + seq!['.'] + payload + rest ==> {
            let bytes = base64_url_bytes(payload);
            &&& bytes is None || json_document(bytes->0) is None ==> r is None
            &&& bytes is Some && json_document(bytes->0) is Some && names_account(
                json_document(bytes->0)->0,
                id,
            ) ==> gives(r, id)
            &&& r is Some ==> names_account(json_document(bytes->0)->0, r->0@)
        },
{
    if token@ == head + seq!['.'] + payload + rest {
        let n = head.len() as int;
        assert forall|i: int| 0 <= i < n implies token@[i] != '.' by {
            assert(head.contains(head[i]));
        }
        assert(token@[n] == '.');
        lemma_first_index_unique(token@, '.', n);
        let tail = token@.skip(n + 1);
        assert(tail =~= payload + rest);
        let m = payload.len() as int;
        assert forall|i: int| 0 <= i < m implies tail[i] != '.' by {
            assert(payload.contains(payload[i]));
        }
        lemma_first_index_unique(tail, '.', m);
        assert(tail.take(m) =~= payload);
    }
}

/// The login with a bearer has the token in it and the account that was asked for, or else the
/// one that the token names.
pub proof fn bearers_are_logins(
    token: &str,
    account: Option<String>,
    stripped: Option<String>,
    bare: &str,
    named: Option<String>,
    r: Result<CodexAuth, CodexAsrError>,
)
    requires
        call_ensures(CodexAuth::from_bearer, (token, account), r),
        call_ensures(strip_bearer_prefix, (token,), stripped),
        stripped is Some ==> bare@ == stripped->0@,
        call_ensures(account_id_from_access_token, (bare,), named),
    ensures
        stripped is None ==> r matches Err(CodexAsrError::InvalidBearer),
        stripped is Some ==> {
            &&& r is Ok
            &&& r->Ok_0.access_token@ == stripped->0@
            &&& r->Ok_0.path is None
            &&& account is Some ==> alike(r->Ok_0.account_id, account)
            &&& account is None ==> alike(r->Ok_0.account_id, named)
        },
{
}

/// The mode that a login file names, in either spelling of its key.
pub open spec fn file_mode(file: AuthFile) -> Option<String> {
    if file.auth_mode is Some {
        file.auth_mode
    } else {
        file.auth_mode_camel
    }
}

/// Whether a login file has a token that is not blank.
pub open spec fn has_token(file: AuthFile) -> bool {
    file.tokens is Some && file.tokens->0.access_token is Some && !blank(
        file.tokens->0.access_token->0@,
    )
}

/// Whether `r` is what a login file holds: of a mode without tokens, that mode; without a token,
/// the path of the file; else its token as it stands there, and the account that was asked for,
/// or else that of the file, or else the one that the token names.
pub open spec fn is_login_of_file(
    path: PathBuf,
    file: AuthFile,
    asked: Option<String>,
    named: Option<String>,
    r: Result<CodexAuth, CodexAsrError>,
) -> bool {
    let mode = file_mode(file);
    if mode is Some && mode->0@ != "chatgpt"@ && mode->0@ != "chatgpt_auth_tokens"@ {
        r matches Err(CodexAsrError::UnsupportedAuthMode { mode: m }) && m@ == mode->0@
    } else if !has_token(file) {
        r matches Err(CodexAsrError::MissingAccessToken { path: p }) && p == path
    } else {
        &&& r is Ok
        &&& r->Ok_0.access_token@ == file.tokens->0.access_token->0@
        &&& r->Ok_0.path == Some(path)
        &&& asked is Some ==> alike(r->Ok_0.account_id, asked)
        &&& asked is None && file.tokens->0.account_id is Some ==> alike(
            r->Ok_0.account_id,
            file.tokens->0.account_id,
        )
        &&& asked is None && file.tokens->0.account_id is None ==> alike(
            r->Ok_0.account_id,
            named,
        )
    }
}

/// A login file gives its token unchanged, and its account.
pub proof fn login_files_give_their_token(
    path: PathBuf,
    file: AuthFile,
    token: &str,
    named: Option<String>,
    r: Result<CodexAuth, CodexAsrError>,
    q: Result<CodexAuth, CodexAsrError>,
)
    requires
        call_ensures(CodexAuth::from_auth_file, (path, file), r),
        call_ensures(CodexAuth::from_codex_home, (path, file), q),
        has_token(file) ==> token@ == file.tokens->0.access_token->0@,
        call_ensures(account_id_from_access_token, (token,), named),
    ensures
        is_login_of_file(path, file, None, named, r),
        is_login_of_file(path, file, None, named, q),
{
    lemma_file_token(file);
}

proof fn lemma_file_token(file: AuthFile)
    ensures
        has_token(file) <==> file.token() is Some,
{
    if let Some(tokens) = file.tokens {
        if let Some(token) = tokens.access_token {
            lemma_blank(token@);
        }
    }
}

/// Another account replaces that of a login, and nothing else of it.
pub proof fn the_account_that_was_asked_for_counts(
    auth: CodexAuth,
    account: Option<String>,
    r: CodexAuth,
    copy: CodexAuth,
)
    requires
        call_ensures(CodexAuth::with_account, (auth, account), r),
        call_ensures(<CodexAuth as Clone>::clone, (&auth,), copy),
    ensures
        r.access_token@ == auth.access_token@,
        r.path == auth.path,
        account is Some ==> alike(r.account_id, account),
        account is None ==> alike(r.account_id, auth.account_id),
        copy.access_token@ == auth.access_token@,
        copy.path == auth.path,
        alike(copy.account_id, auth.account_id),
{
}

/// The login file is `auth.json`, in the directory that is named for it, or else in `.codex`
/// below the home directory.
pub proof fn the_login_file_is_found<P>(codex_home: Option<P>, home: Option<P>, r: FileBelow<P>)
    requires
        call_ensures(default_auth_file::<P>, (codex_home, home), r),
    ensures
        r.components@.len() > 0,
        r.components@.last()@ == "auth.json"@,
        codex_home is Some ==> r.base == codex_home && r.components@.len() == 1,
        codex_home is None ==> r.base == home && r.components@.len() == 2 && r.components@[0]@
            == ".codex"@,
{
    assert(r.steps().len() == r.components@.len());
    assert(r.steps()[0] == r.components@[0]@);
    assert(r.steps().last() == r.components@.last()@);
}

/// A bearer on the command line goes before one in the environment, a bearer before a login
/// file that was named, and that before the one of the desktop application. The account on the
/// command line goes with each.
pub proof fn the_login_comes_from_the_first_source(
    cli: Cli,
    bearer: Option<String>,
    r: AuthSource,
)
    requires
        call_ensures(load_auth, (&cli, bearer), r),
    ensures
        cli.bearer is Some ==> (r matches AuthSource::Bearer { token, account_id } && token@
            == cli.bearer->0@ && alike(account_id, cli.account_id)),
        cli.bearer is None && bearer is Some ==> (r matches AuthSource::Bearer {
            token,
            account_id,
        } && token@ == bearer->0@ && alike(account_id, cli.account_id)),
        cli.bearer is None && bearer is None && cli.auth_file is Some ==> (
        r matches AuthSource::File { path, account_id } && path == cli.auth_file->0 && alike(
            account_id,
            cli.account_id,
        )),
        cli.bearer is None && bearer is None && cli.auth_file is None ==> (
        r matches AuthSource::CodexHome { account_id } && alike(account_id, cli.account_id)),
{
}

/// What a login file holds that was read.
pub open spec fn held(file: Option<(PathBuf, AuthFile)>) -> AuthFile {
    let (_, content) = file->0;
    content
}

/// Where a login file is that was read.
pub open spec fn place_of(file: Option<(PathBuf, AuthFile)>) -> PathBuf {
    let (path, _) = file->0;
    path
}

/// A login comes from its source: from a bearer without a file, and else from the file that the
/// source names, with the account that was asked for before all others.
pub proof fn sources_give_logins(
    source: AuthSource,
    home: PathBuf,
    file: Option<(PathBuf, AuthFile)>,
    token: &str,
    bearer: Result<CodexAuth, CodexAsrError>,
    asked: Option<String>,
    named: Option<String>,
    place: Option<PathBuf>,
    r: Result<CodexAuth, CodexAsrError>,
)
    requires
        call_ensures(AuthSource::file, (&source, home), place),
        call_ensures(AuthSource::login, (&source, file), r),
        source is Bearer || file is Some,
        asked == (match source {
            AuthSource::Bearer { token, account_id } => account_id,
            AuthSource::File { path, account_id } => account_id,
            AuthSource::CodexHome { account_id } => account_id,
        }),
        source matches AuthSource::Bearer { token: t, account_id } ==> token@ == t@,
        !(source is Bearer) && has_token(held(file)) ==> token@
            == held(file).tokens->0.access_token->0@,
        call_ensures(CodexAuth::from_bearer, (token, asked), bearer),
        call_ensures(account_id_from_access_token, (token,), named),
    ensures
        source is Bearer ==> place is None,
        source matches AuthSource::File { path, account_id } ==> place == Some(path),
        source is CodexHome ==> place == Some(home),
        source is Bearer && bearer is Ok ==> r is Ok && r->Ok_0.access_token@
            == bearer->Ok_0.access_token@ && alike(r->Ok_0.account_id, bearer->Ok_0.account_id)
            && r->Ok_0.path is None,
        source is Bearer && bearer is Err ==> r matches Err(CodexAsrError::InvalidBearer),
        !(source is Bearer) ==> is_login_of_file(place_of(file), held(file), asked, named, r),
{
    if let Some((_, held)) = file {
        lemma_file_token(held);
    }
}

} // verus!
