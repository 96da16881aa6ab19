//! The errors of the library.

use vstd::prelude::*;

use crate::text::{decimal, decimal_text};

verus! {

/// `std::path::PathBuf`, carried through.
#[verifier::external_type_specification]
#[verifier::external_body]
pub struct ExPathBuf(std::path::PathBuf);

/// `PathBuf::clone` of std: a copy of the path.
pub assume_specification[ <std::path::PathBuf as Clone>::clone ](
    path: &std::path::PathBuf,
) -> (r: std::path::PathBuf)
    ensures
        r == *path,
;

/// The path that `PathBuf::from` of std makes of the given text.
pub uninterp spec fn path_of(text: Seq<char>) -> std::path::PathBuf;

/// `PathBuf::from` of std on a string slice: the path that the text spells.
#[verifier::external_body]
pub(crate) fn path_buf(text: &str) -> (r: std::path::PathBuf)
    ensures
        r == path_of(text@),
{
    std::path::PathBuf::from(text)
}

/// What `Path::display` of std shows of a path.
pub uninterp spec fn path_words(path: std::path::PathBuf) -> Seq<char>;

/// `Path::display` of std: the path as it is shown.
#[verifier::external_body]
fn show_path(path: &std::path::PathBuf) -> (r: String)
    ensures
        r@ == path_words(*path),
{
    format!("{}", path.display())
}

/// `std::io::Error`, carried through.
#[verifier::external_type_specification]
#[verifier::external_body]
pub struct ExIoError(std::io::Error);

/// `serde_json::Error`, carried through.
#[verifier::external_type_specification]
#[verifier::external_body]
pub struct ExJsonError(serde_json::Error);

/// `reqwest::Error`, carried through.
#[verifier::external_type_specification]
#[verifier::external_body]
pub struct ExReqwestError(reqwest::Error);

/// `reqwest::header::InvalidHeaderValue`, carried through.
#[verifier::external_type_specification]
#[verifier::external_body]
pub struct ExInvalidHeaderValue(reqwest::header::InvalidHeaderValue);

/// The words of `std::io::Error`. They come from the system, so nothing is stated of them.
#[verifier::external_body]
fn show_io_error(error: &std::io::Error) -> (r: String) {
    format!("{}", error)
}

/// The words of `serde_json::Error`. They can be those of an error of the system, so nothing is
/// stated of them.
#[verifier::external_body]
fn show_json_error(error: &serde_json::Error) -> (r: String) {
    format!("{}", error)
}

/// The words of `reqwest::Error`: what failed, and the URL where it has one.
pub uninterp spec fn request_words(error: reqwest::Error) -> Seq<char>;

/// The words of `reqwest::Error`, which depend on the error alone.
#[verifier::external_body]
fn show_request_error(error: &reqwest::Error) -> (r: String)
    ensures
        r@ == request_words(*error),
{
    format!("{}", error)
}

/// The words of `reqwest::header::InvalidHeaderValue`, which are always the same.
#[verifier::external_body]
fn show_header_error(error: &reqwest::header::InvalidHeaderValue) -> (r: String)
    ensures
        r@ == "failed to parse header value"@,
{
    format!("{}", error)
}

/// Why a login or a transcription failed.
#[allow(inconsistent_fields)]
#[derive(Debug)]
pub enum CodexAsrError {
    ReadFile { path: std::path::PathBuf, source: std::io::Error },
    ParseAuth { path: std::path::PathBuf, source: serde_json::Error },
    MissingAccessToken { path: std::path::PathBuf },
    UnsupportedAuthMode { mode: String },
    InvalidBearer,
    InvalidHeader(reqwest::header::InvalidHeaderValue),
    BuildClient(reqwest::Error),
    BuildMultipart(reqwest::Error),
    Request(reqwest::Error),
    Http { status: u16, body: String },
    MissingText,
}

impl CodexAsrError {
    /// How the error is reported, given the words of the error behind it, where there is one.
    pub open spec fn report(self, reason: Seq<char>) -> Seq<char> {
        match self {
            CodexAsrError::ReadFile { path, source: _ } => "failed to read "@ + path_words(path)
                + ": "@ + reason,
            CodexAsrError::ParseAuth { path, source: _ } => "failed to parse "@ + path_words(path)
                + ": "@ + reason,
            CodexAsrError::MissingAccessToken { path } => "Codex auth at "@ + path_words(path)
                + " does not contain a ChatGPT access token"@,
            CodexAsrError::UnsupportedAuthMode { mode } => "Codex auth mode is "@ + mode@
                + ", not ChatGPT token auth"@,
            CodexAsrError::InvalidBearer => "invalid bearer token"@,
            CodexAsrError::InvalidHeader(_) => "invalid header value: "@ + reason,
            CodexAsrError::BuildClient(_) => "failed to build HTTP client: "@ + reason,
            CodexAsrError::BuildMultipart(_) => "failed to build multipart request: "@ + reason,
            CodexAsrError::Request(_) => "transcribe request failed: "@ + reason,
            CodexAsrError::Http { status, body } => "transcribe request failed with HTTP "@
                + decimal(status as nat) + ": "@ + body@,
            CodexAsrError::MissingText => "transcribe response did not contain text"@,
        }
    }

    /// How the error is reported, given the words of the error behind it.
    pub fn words(&self, reason: &str) -> (r: String)
        ensures
            r@ == self.report(reason@),
    {
        match self {
            CodexAsrError::ReadFile { path, source: _ } => {
                let head = joined("failed to read ", show_path(path).as_str());
                joined(joined(head.as_str(), ": ").as_str(), reason)
            },
            CodexAsrError::ParseAuth { path, source: _ } => {
                let head = joined("failed to parse ", show_path(path).as_str());
                joined(joined(head.as_str(), ": ").as_str(), reason)
            },
            CodexAsrError::MissingAccessToken { path } => {
                let head = joined("Codex auth at ", show_path(path).as_str());
                joined(head.as_str(), " does not contain a ChatGPT access token")
            },
            CodexAsrError::UnsupportedAuthMode { mode } => {
                let head = joined("Codex auth mode is ", mode.as_str());
                joined(head.as_str(), ", not ChatGPT token auth")
            },
            CodexAsrError::InvalidBearer => "invalid bearer token".to_owned(),
            CodexAsrError::InvalidHeader(_) => joined("invalid header value: ", reason),
            CodexAsrError::BuildClient(_) => joined("failed to build HTTP client: ", reason),
            CodexAsrError::BuildMultipart(_) => joined(
                "failed to build multipart request: ",
                reason,
            ),
            CodexAsrError::Request(_) => joined("transcribe request failed: ", reason),
            CodexAsrError::Http { status, body } => {
                let head = joined(
                    "transcribe request failed with HTTP ",
                    decimal_text(*status as u64).as_str(),
                );
                joined(joined(head.as_str(), ": ").as_str(), body.as_str())
            },
            CodexAsrError::MissingText => "transcribe response did not contain text".to_owned(),
        }
    }

    /// How the error is reported. The words of a file that could not be read and of a document
    /// that could not be parsed are not stated.
    pub fn message(&self) -> (r: String)
        ensures
            match *self {
                CodexAsrError::ReadFile { .. } => exists|reason: Seq<char>|
                    r@ == #[trigger] self.report(reason),
                CodexAsrError::ParseAuth { .. } => exists|reason: Seq<char>|
                    r@ == #[trigger] self.report(reason),
                CodexAsrError::InvalidHeader(_) => r@ == self.report(
                    "failed to parse header value"@,
                ),
                CodexAsrError::BuildClient(e) => r@ == self.report(request_words(e)),
                CodexAsrError::BuildMultipart(e) => r@ == self.report(request_words(e)),
                CodexAsrError::Request(e) => r@ == self.report(request_words(e)),
                _ => forall|reason: Seq<char>| r@ == #[trigger] self.report(reason),
            },
    {
        let reason = match self {
            CodexAsrError::ReadFile { path: _, source } => show_io_error(source),
            CodexAsrError::ParseAuth { path: _, source } => show_json_error(source),
            CodexAsrError::InvalidHeader(error) => show_header_error(error),
            CodexAsrError::BuildClient(error) => show_request_error(error),
            CodexAsrError::BuildMultipart(error) => show_request_error(error),
            CodexAsrError::Request(error) => show_request_error(error),
            _ => String::new(),
        };
        self.words(reason.as_str())
    }
}

/// The second text behind the first.
fn joined(a: &str, b: &str) -> (r: String)
    ensures
        r@ == a@ + b@,
{
    let mut r: String = a.to_owned();
    r.append(b);
    r
}

} // verus!
