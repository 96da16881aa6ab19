//! What is reported of errors.

use vstd::prelude::*;

use crate::error::{path_words, request_words, CodexAsrError};
use crate::promises::text::{all_digits, number};

verus! {

/// Each error is reported in its own words, with what it holds and the words of the error behind
/// it.
pub proof fn errors_are_reported_in_full(error: CodexAsrError, reason: &str, r: String)
    requires
        call_ensures(CodexAsrError::words, (&error, reason), r),
    ensures
        error matches CodexAsrError::ReadFile { path, source } ==> r@ == "failed to read "@
            + path_words(path) + ": "@ + reason@,
        error matches CodexAsrError::ParseAuth { path, source } ==> r@ == "failed to parse "@
            + path_words(path) + ": "@ + reason@,
        error matches CodexAsrError::MissingAccessToken { path } ==> r@ == "Codex auth at "@
            + path_words(path) + " does not contain a ChatGPT access token"@,
        error matches CodexAsrError::UnsupportedAuthMode { mode } ==> r@ == "Codex auth mode is "@
            + mode@ + ", not ChatGPT token auth"@,
        error is InvalidBearer ==> r@ == "invalid bearer token"@,
        error is InvalidHeader ==> r@ == "invalid header value: "@ + reason@,
        error is BuildClient ==> r@ == "failed to build HTTP client: "@ + reason@,
        error is BuildMultipart ==> r@ == "failed to build multipart request: "@ + reason@,
        error is Request ==> r@ == "transcribe request failed: "@ + reason@,
        error is MissingText ==> r@ == "transcribe response did not contain text"@,
{
}

/// A reply that failed is reported with its status in digits and its body.
pub proof fn failed_replies_name_their_status(
    status: u16,
    body: String,
    digits: Seq<char>,
    error: CodexAsrError,
    reason: &str,
    r: String,
    m: String,
)
    requires
        error == (CodexAsrError::Http { status, body }),
        call_ensures(CodexAsrError::words, (&error, reason), r),
        call_ensures(CodexAsrError::message, (&error,), m),
        all_digits(digits),
        digits.len() > 1 ==> digits[0] != '0',
        number(digits) == status,
    ensures
        r@ == "transcribe request failed with HTTP "@ + digits + ": "@ + body@,
        m@ == r@,
{
    crate::promises::text::lemma_digits_unique(digits, status as nat);
    assert(m@ == error.report(reason@));
}

/// What is reported of an error is said in its words: those of the error behind it follow where
/// there is one.
pub proof fn messages_are_the_words(error: CodexAsrError, reason: &str, w: String, m: String)
    requires
        call_ensures(CodexAsrError::words, (&error, reason), w),
        call_ensures(CodexAsrError::message, (&error,), m),
        error is InvalidHeader ==> reason@ == "failed to parse header value"@,
        error matches CodexAsrError::BuildClient(e) ==> reason@ == request_words(e),
        error matches CodexAsrError::BuildMultipart(e) ==> reason@ == request_words(e),
        error matches CodexAsrError::Request(e) ==> reason@ == request_words(e),
    ensures
        !(error is ReadFile) && !(error is ParseAuth) ==> m@ == w@,
        error matches CodexAsrError::ReadFile { path, source } ==> ("failed to read "@
            + path_words(path) + ": "@).is_prefix_of(m@),
        error matches CodexAsrError::ParseAuth { path, source } ==> ("failed to parse "@
            + path_words(path) + ": "@).is_prefix_of(m@),
{
    match error {
        CodexAsrError::ReadFile { path, source } => {
            let why = choose|why: Seq<char>| m@ == #[trigger] error.report(why);
            let head = "failed to read "@ + path_words(path) + ": "@;
            assert((head + why).subrange(0, head.len() as int) =~= head);
        },
        CodexAsrError::ParseAuth { path, source } => {
            let why = choose|why: Seq<char>| m@ == #[trigger] error.report(why);
            let head = "failed to parse "@ + path_words(path) + ": "@;
            assert((head + why).subrange(0, head.len() as int) =~= head);
        },
        _ => {
            assert(w@ == error.report(reason@));
        },
    }
}

} // verus!
