//! The login: bearer tokens, the account that a token names, and the login file.

use std::path::PathBuf;

use base64::Engine;
use vstd::prelude::*;
use vstd::slice::slice_subrange;

use crate::error::CodexAsrError;
use crate::json::{
    json_document, json_member, json_text, json_tree, member, parse_json, text, JsonTree,
};
use crate::path::opt_text;
use crate::text::{
    after_first, before_first, begins_with, chars_of, equal_text, find_first, lemma_first_index,
    text_of, trim, trim_chars,
};

verus! {

/// The claim that holds the facts on the login.
pub const AUTH_CLAIM: &'static str = "https://api.openai.com/auth";

/// The member of that claim that names the account.
pub const ACCOUNT_CLAIM: &'static str = "chatgpt_account_id";

/// `token` without one scheme prefix at its start.
pub open spec fn without_scheme(token: Seq<char>) -> Seq<char> {
    if "Bearer "@.is_prefix_of(token) {
        token.skip("Bearer "@.len() as int)
    } else if "bearer "@.is_prefix_of(token) {
        token.skip("bearer "@.len() as int)
    } else {
        token
    }
}

/// The token in what was given as a bearer, where one is left.
pub open spec fn bearer_token(token: Seq<char>) -> Option<Seq<char>> {
    let bare = trim(without_scheme(trim(token)));
    if bare.len() > 0 {
        Some(bare)
    } else {
        None
    }
}

/// The second of the parts of a token that dots separate.
pub open spec fn token_payload(token: Seq<char>) -> Option<Seq<char>> {
    if token.contains('.') {
        Some(before_first(after_first(token, '.'), '.'))
    } else {
        None
    }
}

/// The bytes that `BASE64_URL_SAFE_NO_PAD.decode` of the base64 crate reads from the given
/// text, `None` where it reports an error.
pub uninterp spec fn base64_url_bytes(encoded: Seq<char>) -> Option<Seq<u8>>;

/// `BASE64_URL_SAFE_NO_PAD.decode` of the base64 crate: the bytes that the text encodes, or
/// `None` where it is no base64 of the URL-safe alphabet without padding.
#[verifier::external_body]
fn decode_base64_url(encoded: &str) -> (r: Option<Vec<u8>>)
    ensures
        match r {
            Some(bytes) => base64_url_bytes(encoded@) == Some(bytes@),
            None => base64_url_bytes(encoded@) is None,
        },
{
    base64::prelude::BASE64_URL_SAFE_NO_PAD.decode(encoded).ok()
}

/// The account that the claims of a token name.
pub open spec fn claimed_account(claims: JsonTree) -> Option<Seq<char>> {
    match member(claims, AUTH_CLAIM@) {
        Some(auth) => match member(auth, ACCOUNT_CLAIM@) {
            Some(account) => match text(account) {
                Some(id) => if id.len() > 0 {
                    Some(id)
                } else {
                    None
                },
                None => None,
            },
            None => None,
        },
        None => None,
    }
}

/// The account that a token names.
pub open spec fn token_account(token: Seq<char>) -> Option<Seq<char>> {
    match token_payload(token) {
        Some(payload) => match base64_url_bytes(payload) {
            Some(bytes) => match json_document(bytes) {
                Some(claims) => claimed_account(claims),
                None => None,
            },
            None => None,
        },
        None => None,
    }
}

/// The token in what was given as a bearer, with or without its scheme.
pub fn strip_bearer_prefix(token: &str) -> (r: Option<String>)
    ensures
        opt_text(r) == bearer_token(token@),
{
    let chars = chars_of(token);
    let trimmed = trim_chars(chars.as_slice());
    let n: usize = trimmed.len();
    proof {
        reveal_strlit("Bearer ");
        reveal_strlit("bearer ");
    }
    let bare = if begins_with(trimmed, "Bearer ") {
        slice_subrange(trimmed, 7, n)
    } else if begins_with(trimmed, "bearer ") {
        slice_subrange(trimmed, 7, n)
    } else {
        trimmed
    };
    assert(bare@ =~= without_scheme(trimmed@));
    let bare = trim_chars(bare);
    if bare.len() > 0 {
        Some(text_of(bare))
    } else {
        None
    }
}

/// The account that the claims of a token name.
pub fn account_id_from_claims(claims: &serde_json::Value) -> (r: Option<String>)
    ensures
        opt_text(r) == claimed_account(json_tree(*claims)),
{
    let auth = json_member(claims, AUTH_CLAIM)?;
    let account = json_member(auth, ACCOUNT_CLAIM)?;
    let id = json_text(account)?;
    if id.is_empty() {
        None
    } else {
        Some(id.to_owned())
    }
}

/// The account that a token names: the second part of the token is base64 of a JSON document
/// with its claims.
pub fn account_id_from_access_token(access_token: &str) -> (r: Option<String>)
    ensures
        opt_text(r) == token_account(access_token@),
{
    let chars = chars_of(access_token);
    let n: usize = chars.len();
    proof {
        lemma_first_index(chars@, '.');
    }
    let k = find_first(chars.as_slice(), '.');
    if k == n {
        assert(!chars@.contains('.'));
        return None;
    }
    assert(chars@.contains('.'));
    let rest = slice_subrange(chars.as_slice(), k + 1, n);
    assert(rest@ =~= after_first(chars@, '.'));
    let payload = slice_subrange(rest, 0, find_first(rest, '.'));
    assert(payload@ =~= before_first(rest@, '.'));
    let encoded = text_of(payload);
    let decoded = decode_base64_url(encoded.as_str())?;
    let claims = parse_json(decoded.as_slice())?;
    account_id_from_claims(&claims)
}

/// A login: the token, the account where it is known, and the file it was read from.
#[derive(Debug)]
pub struct CodexAuth {
    pub access_token: String,
    pub account_id: Option<String>,
    pub path: Option<PathBuf>,
}

impl Clone for CodexAuth {
    fn clone(&self) -> (r: Self)
        ensures
            r == *self,
    {
        CodexAuth {
            access_token: self.access_token.clone(),
            account_id: self.account_id.clone(),
            path: self.path.clone(),
        }
    }
}

/// The content of a login file.
#[derive(Debug, Clone)]
pub struct AuthFile {
    pub auth_mode: Option<String>,
    pub auth_mode_camel: Option<String>,
    pub tokens: Option<AuthTokens>,
}

/// The tokens of a login file.
#[derive(Debug, Clone)]
pub struct AuthTokens {
    pub access_token: Option<String>,
    pub account_id: Option<String>,
}

/// What comes of a login file.
pub ghost enum AuthOutcome {
    UnsupportedMode(Seq<char>),
    NoToken,
    Login { access_token: Seq<char>, account_id: Option<Seq<char>> },
}

impl AuthFile {
    /// The mode that the file names, in either spelling of its key.
    pub open spec fn mode(self) -> Option<Seq<char>> {
        match self.auth_mode {
            Some(mode) => Some(mode@),
            None => opt_text(self.auth_mode_camel),
        }
    }

    /// The access token in the file, unless it is blank.
    pub open spec fn token(self) -> Option<Seq<char>> {
        match self.tokens {
            Some(AuthTokens { access_token: Some(token), account_id: _ }) => if trim(token@).len()
                > 0 {
                Some(token@)
            } else {
                None
            },
            _ => None,
        }
    }

    /// The account that the file names.
    pub open spec fn account(self) -> Option<Seq<char>> {
        match self.tokens {
            Some(tokens) => opt_text(tokens.account_id),
            None => None,
        }
    }

    /// A mode other than the two with tokens is refused; a token is needed; the account in the
    /// file goes before the one that the token names.
    pub open spec fn outcome(self) -> AuthOutcome {
        let mode = self.mode();
        if mode is Some && mode->0 != "chatgpt"@ && mode->0 != "chatgpt_auth_tokens"@ {
            AuthOutcome::UnsupportedMode(mode->0)
        } else {
            match self.token() {
                None => AuthOutcome::NoToken,
                Some(token) => AuthOutcome::Login {
                    access_token: token,
                    account_id: match self.account() {
                        Some(account) => Some(account),
                        None => token_account(token),
                    },
                },
            }
        }
    }
}

/// A file below a directory: the directory, or the current one where there is none, and the
/// components that lead from it to the file.
#[derive(Debug)]
pub struct FileBelow<P> {
    pub base: Option<P>,
    pub components: Vec<String>,
}

impl<P> FileBelow<P> {
    /// The components as sequences of characters.
    pub open spec fn steps(self) -> Seq<Seq<char>> {
        self.components@.map_values(|c: String| c@)
    }
}

/// The login file: `auth.json` in the directory that `CODEX_HOME` names, or else in `.codex` in
/// the home directory, or in the current directory where there is none.
pub fn default_auth_file<P>(codex_home: Option<P>, home: Option<P>) -> (r: FileBelow<P>)
    ensures
        match codex_home {
            Some(directory) => r.base == Some(directory) && r.steps() == seq!["auth.json"@],
            None => r.base == home && r.steps() == seq![".codex"@, "auth.json"@],
        },
{
    let mut components: Vec<String> = Vec::new();
    match codex_home {
        Some(directory) => {
            components.push("auth.json".to_owned());
            let r = FileBelow { base: Some(directory), components };
            assert(r.steps() =~= seq!["auth.json"@]);
            r
        },
        None => {
            components.push(".codex".to_owned());
            components.push("auth.json".to_owned());
            let r = FileBelow { base: home, components };
            assert(r.steps() =~= seq![".codex"@, "auth.json"@]);
            r
        },
    }
}

impl CodexAuth {
    /// The login with another account, where one is given.
    pub fn with_account(self, account_id: Option<String>) -> (r: Self)
        ensures
            r.access_token == self.access_token,
            r.path == self.path,
            opt_text(r.account_id) == match account_id {
                Some(account) => Some(account@),
                None => opt_text(self.account_id),
            },
    {
        match account_id {
            Some(account) => CodexAuth { account_id: Some(account), ..self },
            None => self,
        }
    }

    /// The login with a bearer token and, where it is given, an account.
    pub fn from_bearer(token: &str, account_id: Option<String>) -> (r: Result<Self, CodexAsrError>)
        ensures
            match bearer_token(token@) {
                None => r matches Err(CodexAsrError::InvalidBearer),
                Some(bare) => {
                    &&& r matches Ok(auth)
                    &&& auth.access_token@ == bare
                    &&& opt_text(auth.account_id) == match account_id {
                        Some(account) => Some(account@),
                        None => token_account(bare),
                    }
                    &&& auth.path is None
                },
            },
    {
        let access_token = match strip_bearer_prefix(token) {
            Some(bare) => bare,
            None => return Err(CodexAsrError::InvalidBearer),
        };
        let account_id = match account_id {
            Some(account) => Some(account),
            None => account_id_from_access_token(access_token.as_str()),
        };
        Ok(CodexAuth { access_token, account_id, path: None })
    }

    /// The login that the desktop application keeps, in its login file, which is at `path` and
    /// holds `file`.
    pub fn from_codex_home(path: PathBuf, file: AuthFile) -> (r: Result<Self, CodexAsrError>)
        ensures
            match file.outcome() {
                AuthOutcome::UnsupportedMode(mode) => r matches Err(
                    CodexAsrError::UnsupportedAuthMode { mode: m },
                ) && m@ == mode,
                AuthOutcome::NoToken => r matches Err(
                    CodexAsrError::MissingAccessToken { path: p },
                ) && p == path,
                AuthOutcome::Login { access_token, account_id } => {
                    &&& r matches Ok(auth)
                    &&& auth.access_token@ == access_token
                    &&& opt_text(auth.account_id) == account_id
                    &&& auth.path == Some(path)
                },
            },
    {
        CodexAuth::from_auth_file(path, file)
    }

    /// The login in the file at `path`, which holds `file`.
    pub fn from_auth_file(path: PathBuf, file: AuthFile) -> (r: Result<Self, CodexAsrError>)
        ensures
            match file.outcome() {
                AuthOutcome::UnsupportedMode(mode) => r matches Err(
                    CodexAsrError::UnsupportedAuthMode { mode: m },
                ) && m@ == mode,
                AuthOutcome::NoToken => r matches Err(
                    CodexAsrError::MissingAccessToken { path: p },
                ) && p == path,
                AuthOutcome::Login { access_token, account_id } => {
                    &&& r matches Ok(auth)
                    &&& auth.access_token@ == access_token
                    &&& opt_text(auth.account_id) == account_id
                    &&& auth.path == Some(path)
                },
            },
    {
        let mode = match file.auth_mode {
            Some(mode) => Some(mode),
            None => file.auth_mode_camel,
        };
        if let Some(mode) = mode {
            if !equal_text(mode.as_str(), "chatgpt") && !equal_text(
                mode.as_str(),
                "chatgpt_auth_tokens",
            ) {
                return Err(CodexAsrError::UnsupportedAuthMode { mode });
            }
        }
        let tokens = match file.tokens {
            Some(tokens) => tokens,
            None => return Err(CodexAsrError::MissingAccessToken { path }),
        };
        let token = match tokens.access_token {
            Some(token) => token,
            None => return Err(CodexAsrError::MissingAccessToken { path }),
        };
        let chars = chars_of(token.as_str());
        if trim_chars(chars.as_slice()).len() == 0 {
            return Err(CodexAsrError::MissingAccessToken { path });
        }
        let account_id = match tokens.account_id {
            Some(account) => Some(account),
            None => account_id_from_access_token(token.as_str()),
        };
        Ok(CodexAuth { access_token: token, account_id, path: Some(path) })
    }
}

} // verus!
