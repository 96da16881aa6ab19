//! The REST server: its errors, who may use it, what it accepts and what it answers.

use reqwest::header::HeaderMap;
use vstd::prelude::*;
use vstd::slice::slice_subrange;

use crate::http::{first_header, header_str, header_values, visible_text};
use crate::json::{
    json_array, json_null, json_object, json_string, json_tree, member_trees, object, JsonTree,
};
use crate::path::opt_text;
use crate::proxy::opt_str;
use crate::text::{begins_with, chars_of, equal_text, same_text, trim, trim_text};

verus! {

/// What is said of a failed request.
pub ghost struct ApiFailure {
    pub status: u16,
    pub message: Seq<char>,
    pub error_type: Seq<char>,
}

/// A failed request: the HTTP status of the answer, and what the answer says.
#[derive(Debug)]
pub struct ApiError {
    pub status: u16,
    pub message: String,
    pub error_type: &'static str,
}

impl View for ApiError {
    type V = ApiFailure;

    open spec fn view(&self) -> ApiFailure {
        ApiFailure {
            status: self.status,
            message: self.message@,
            error_type: self.error_type@,
        }
    }
}

/// A request that cannot be served as it is.
pub open spec fn bad_request(message: Seq<char>) -> ApiFailure {
    ApiFailure { status: 400, message, error_type: "invalid_request_error"@ }
}

/// A request without the key of the server.
pub open spec fn unauthorized(message: Seq<char>) -> ApiFailure {
    ApiFailure { status: 401, message, error_type: "authentication_error"@ }
}

/// A request with more content than the server takes.
pub open spec fn payload_too_large(message: Seq<char>) -> ApiFailure {
    ApiFailure { status: 413, message, error_type: "invalid_request_error"@ }
}

/// A request that the endpoint behind the server did not serve.
pub open spec fn bad_gateway(message: Seq<char>) -> ApiFailure {
    ApiFailure { status: 502, message, error_type: "upstream_error"@ }
}

/// A request on which the server itself failed.
pub open spec fn internal(message: Seq<char>) -> ApiFailure {
    ApiFailure { status: 500, message, error_type: "server_error"@ }
}

impl ApiError {
    pub fn bad_request(message: &str) -> (r: Self)
        ensures
            r@ == bad_request(message@),
    {
        ApiError { status: 400, message: message.to_owned(), error_type: "invalid_request_error" }
    }

    pub fn unauthorized(message: &str) -> (r: Self)
        ensures
            r@ == unauthorized(message@),
    {
        ApiError { status: 401, message: message.to_owned(), error_type: "authentication_error" }
    }

    pub fn payload_too_large(message: &str) -> (r: Self)
        ensures
            r@ == payload_too_large(message@),
    {
        ApiError { status: 413, message: message.to_owned(), error_type: "invalid_request_error" }
    }

    pub fn bad_gateway(message: &str) -> (r: Self)
        ensures
            r@ == bad_gateway(message@),
    {
        ApiError { status: 502, message: message.to_owned(), error_type: "upstream_error" }
    }

    pub fn internal(message: &str) -> (r: Self)
        ensures
            r@ == internal(message@),
    {
        ApiError { status: 500, message: message.to_owned(), error_type: "server_error" }
    }

    /// The error for a form that could not be read: the given context and the reason, with the
    /// status of the reason where that is that the form is too large.
    pub fn unreadable_form(context: &str, reason: &str, status: u16) -> (r: Self)
        ensures
            r@ == if status == 413 {
                payload_too_large(context@ + ": "@ + reason@)
            } else {
                bad_request(context@ + ": "@ + reason@)
            },
    {
        let mut message: String = context.to_owned();
        message.append(": ");
        message.append(reason);
        if status == 413 {
            ApiError::payload_too_large(message.as_str())
        } else {
            ApiError::bad_request(message.as_str())
        }
    }

    /// The error for an upload that could not be decoded.
    pub fn undecodable(reason: &str) -> (r: Self)
        ensures
            r@ == bad_request(reason@),
    {
        ApiError::bad_request(reason)
    }

    /// The error for a transcription that failed at the endpoint behind the server.
    pub fn upstream(reason: &str) -> (r: Self)
        ensures
            r@ == bad_gateway("upstream transcribe failed: "@ + reason@),
    {
        let mut message: String = "upstream transcribe failed: ".to_owned();
        message.append(reason);
        ApiError::bad_gateway(message.as_str())
    }
}

/// The body of the answer to a failed request.
#[derive(Debug)]
pub struct ErrorBody {
    pub error: ErrorPayload,
}

/// What the answer to a failed request says.
#[derive(Debug)]
pub struct ErrorPayload {
    pub message: String,
    pub error_type: &'static str,
    pub param: Option<String>,
    pub code: Option<String>,
}

impl ErrorBody {
    pub fn new(error: ApiError) -> (r: Self)
        ensures
            r.error.message == error.message,
            r.error.error_type == error.error_type,
            r.error.param is None,
            r.error.code is None,
    {
        ErrorBody {
            error: ErrorPayload {
                message: error.message,
                error_type: error.error_type,
                param: None,
                code: None,
            },
        }
    }
}

/// The key in the value of an authorization header.
pub open spec fn scheme_key(value: Seq<char>) -> Option<Seq<char>> {
    if "Bearer "@.is_prefix_of(value) {
        Some(value.skip("Bearer "@.len() as int))
    } else if "bearer "@.is_prefix_of(value) {
        Some(value.skip("bearer "@.len() as int))
    } else {
        None
    }
}

/// The key in the first authorization header among the given headers.
pub open spec fn provided_key(headers: Map<Seq<char>, Seq<Seq<u8>>>) -> Option<Seq<char>> {
    if headers.dom().contains("authorization"@) {
        match visible_text(headers["authorization"@][0]) {
            Some(value) => scheme_key(value),
            None => None,
        }
    } else {
        None
    }
}

/// Passes a request with the expected key, and every request where none is expected.
pub fn authorize(headers: &HeaderMap, expected: Option<&str>) -> (r: Result<(), ApiError>)
    ensures
        match expected {
            None => r is Ok,
            Some(key) => match r {
                Ok(()) => provided_key(header_values(*headers)) == Some(key@),
                Err(error) => {
                    &&& provided_key(header_values(*headers)) != Some(key@)
                    &&& error@ == unauthorized("missing or invalid bearer token"@)
                },
            },
        },
{
    let expected = match expected {
        Some(key) => key,
        None => return Ok(()),
    };
    proof {
        reveal_strlit("authorization");
        reveal_strlit("Bearer ");
        reveal_strlit("bearer ");
    }
    if let Some(header) = first_header(headers, "authorization") {
        if let Some(value) = header_str(header) {
            let chars = chars_of(value);
            let text = chars.as_slice();
            let n: usize = chars.len();
            if begins_with(text, "Bearer ") || begins_with(text, "bearer ") {
                let provided = slice_subrange(text, 7, n);
                assert(scheme_key(value@) == Some(provided@)) by {
                    assert(provided@ =~= value@.skip(7));
                }
                if same_text(provided, expected) {
                    return Ok(());
                }
            }
        }
    }
    Err(ApiError::unauthorized("missing or invalid bearer token"))
}

/// What is said where the server has no key and may not do without.
pub const KEY_NEEDED: &'static str =
    "serve requires --api-key, CODEX_ASR_SERVER_KEY, or --no-api-key";

/// The key of a server, given the one on the command line, the one in the environment, and
/// whether the server does without.
pub open spec fn server_key(
    explicit: Option<Seq<char>>,
    environment: Option<Seq<char>>,
    no_api_key: bool,
) -> Result<Option<Seq<char>>, Seq<char>> {
    let given = match explicit {
        Some(key) => Some(key),
        None => environment,
    };
    if no_api_key {
        Ok(None)
    } else if given is Some && trim(given->0).len() > 0 {
        Ok(Some(trim(given->0)))
    } else {
        Err(KEY_NEEDED@)
    }
}

/// The key of a server. Without one it is refused, unless it may do without.
pub fn resolve_server_api_key(
    explicit: Option<String>,
    environment: Option<String>,
    no_api_key: bool,
) -> (r: Result<Option<String>, &'static str>)
    ensures
        match r {
            Ok(key) => server_key(opt_text(explicit), opt_text(environment), no_api_key) == Ok::<
                Option<Seq<char>>,
                Seq<char>,
            >(opt_text(key)),
            Err(message) => server_key(opt_text(explicit), opt_text(environment), no_api_key)
                == Err::<Option<Seq<char>>, Seq<char>>(message@),
        },
{
    if no_api_key {
        return Ok(None);
    }
    let given = match explicit {
        Some(key) => Some(key),
        None => environment,
    };
    if let Some(key) = given {
        let trimmed = trim_text(key.as_str());
        if !trimmed.as_str().is_empty() {
            return Ok(Some(trimmed));
        }
    }
    Err(KEY_NEEDED)
}

/// How a transcription is answered.
#[derive(Debug, Clone, Copy, PartialEq, Eq, Structural)]
pub enum ResponseFormat {
    Json,
    Text,
    VerboseJson,
}

/// What is said to a request for subtitles.
pub const NO_TIMESTAMPS: &'static str =
    "response_format srt/vtt is not supported because timestamps are unavailable";

/// The format that a request asks for, or what is said where there is no such format.
pub open spec fn requested_format(value: Option<Seq<char>>) -> Result<ResponseFormat, Seq<char>> {
    let name = match value {
        Some(v) => trim(v),
        None => "json"@,
    };
    if name == ""@ || name == "json"@ {
        Ok(ResponseFormat::Json)
    } else if name == "text"@ {
        Ok(ResponseFormat::Text)
    } else if name == "verbose_json"@ {
        Ok(ResponseFormat::VerboseJson)
    } else if name == "srt"@ || name == "vtt"@ {
        Err(NO_TIMESTAMPS@)
    } else {
        Err("unsupported response_format: "@ + name)
    }
}

impl ResponseFormat {
    /// The format that a request asks for.
    pub fn parse(value: Option<&str>) -> (r: Result<Self, ApiError>)
        ensures
            match requested_format(opt_str(value)) {
                Ok(format) => r == Ok::<ResponseFormat, ApiError>(format),
                Err(message) => r matches Err(error) && error@ == bad_request(message),
            },
    {
        let name = match value {
            Some(value) => trim_text(value),
            None => "json".to_owned(),
        };
        let n = name.as_str();
        if equal_text(n, "") || equal_text(n, "json") {
            Ok(ResponseFormat::Json)
        } else if equal_text(n, "text") {
            Ok(ResponseFormat::Text)
        } else if equal_text(n, "verbose_json") {
            Ok(ResponseFormat::VerboseJson)
        } else if equal_text(n, "srt") || equal_text(n, "vtt") {
            Err(ApiError::bad_request(NO_TIMESTAMPS))
        } else {
            let mut message: String = "unsupported response_format: ".to_owned();
            message.append(n);
            Err(ApiError::bad_request(message.as_str()))
        }
    }
}

/// The document `{"text": ...}`.
pub open spec fn text_document(text: Seq<char>) -> JsonTree {
    object(seq![("text"@, JsonTree::Text(text))])
}

/// The members of a verbose answer: there are neither a duration nor segments.
pub open spec fn verbose_members(text: Seq<char>, language: Option<Seq<char>>) -> Seq<
    (Seq<char>, JsonTree),
> {
    seq![
        ("task"@, JsonTree::Text("transcribe"@)),
        (
            "language"@,
            match language {
                Some(l) => JsonTree::Text(l),
                None => JsonTree::Null,
            },
        ),
        ("duration"@, JsonTree::Null),
        ("text"@, JsonTree::Text(text)),
        ("segments"@, JsonTree::Array(seq![])),
    ]
}

/// The document of a verbose answer.
pub open spec fn verbose_document(text: Seq<char>, language: Option<Seq<char>>) -> JsonTree {
    object(verbose_members(text, language))
}

/// The answer to a request that was served.
#[derive(Debug)]
pub enum ReplyBody {
    Json(serde_json::Value),
    Text { content_type: &'static str, text: String },
}

/// The content type of an answer in plain text.
pub const PLAIN_TEXT: &'static str = "text/plain; charset=utf-8";

/// The document `{"text": ...}`.
pub fn transcription_json(text: &str) -> (r: serde_json::Value)
    ensures
        json_tree(r) == text_document(text@),
{
    let mut members: Vec<(String, serde_json::Value)> = Vec::new();
    members.push(("text".to_owned(), json_string(text)));
    assert(member_trees(members@) =~= seq![("text"@, JsonTree::Text(text@))]);
    json_object(members)
}

/// The answer of a server that is up: `{"status": "ok"}`.
pub fn healthz() -> (r: serde_json::Value)
    ensures
        json_tree(r) == object(seq![("status"@, JsonTree::Text("ok"@))]),
{
    let mut members: Vec<(String, serde_json::Value)> = Vec::new();
    members.push(("status".to_owned(), json_string("ok")));
    assert(member_trees(members@) =~= seq![("status"@, JsonTree::Text("ok"@))]);
    json_object(members)
}

/// The answer with a transcription, in the given format.
pub fn format_transcription_response(
    text: &str,
    format: ResponseFormat,
    language: Option<&str>,
) -> (r: ReplyBody)
    ensures
        match format {
            ResponseFormat::Json => r matches ReplyBody::Json(value) && json_tree(value)
                == text_document(text@),
            ResponseFormat::Text => r matches ReplyBody::Text { content_type, text: t }
                && content_type@ == PLAIN_TEXT@ && t@ == text@,
            ResponseFormat::VerboseJson => r matches ReplyBody::Json(value) && json_tree(value)
                == verbose_document(text@, opt_str(language)),
        },
{
    match format {
        ResponseFormat::Json => ReplyBody::Json(transcription_json(text)),
        ResponseFormat::Text => ReplyBody::Text {
            content_type: PLAIN_TEXT,
            text: text.to_owned(),
        },
        ResponseFormat::VerboseJson => {
            let named = match language {
                Some(language) => json_string(language),
                None => json_null(),
            };
            let mut members: Vec<(String, serde_json::Value)> = Vec::new();
            members.push(("task".to_owned(), json_string("transcribe")));
            members.push(("language".to_owned(), named));
            members.push(("duration".to_owned(), json_null()));
            members.push(("text".to_owned(), json_string(text)));
            let none: Vec<serde_json::Value> = Vec::new();
            let segments = json_array(none);
            assert(none@.map_values(|v: serde_json::Value| json_tree(v)) =~= seq![]);
            members.push(("segments".to_owned(), segments));
            assert(member_trees(members@) =~= verbose_members(text@, opt_str(language)));
            proof {
                reveal_strlit("task");
                reveal_strlit("language");
                reveal_strlit("duration");
                reveal_strlit("text");
                reveal_strlit("segments");
                assert("task"@[1] != "text"@[1]);
                assert("language"@[0] != "duration"@[0]);
                assert("language"@[0] != "segments"@[0]);
                assert("duration"@[0] != "segments"@[0]);
            }
            ReplyBody::Json(json_object(members))
        },
    }
}

} // verus!
