//! What the REST server promises.

use reqwest::header::HeaderMap;
use vstd::prelude::*;

use crate::http::{ascii_text, header_values, visible_byte};
use crate::json::{json_tree, JsonTree};
use crate::promises::login::{has_scheme, lemma_has_scheme};
use crate::promises::text::{blank, lemma_blank, lemma_trims_to, trims_to};
use crate::server::{
    authorize, format_transcription_response, healthz, resolve_server_api_key, transcription_json,
    verbose_members, ApiError, ErrorBody, ReplyBody, ResponseFormat,
};
use crate::text::trim;

verus! {

/// Whether an error has the status, the type and the message.
pub open spec fn says(error: ApiError, status: int, kind: Seq<char>, message: Seq<char>) -> bool {
    error.status == status && error.error_type@ == kind && error.message@ == message
}

/// Each error has its status and its type, and says what it was given to say.
pub proof fn errors_have_a_status_and_a_type(
    message: &str,
    a: ApiError,
    b: ApiError,
    c: ApiError,
    d: ApiError,
    e: ApiError,
    f: ApiError,
    g: ApiError,
)
    requires
        call_ensures(ApiError::bad_request, (message,), a),
        call_ensures(ApiError::unauthorized, (message,), b),
        call_ensures(ApiError::payload_too_large, (message,), c),
        call_ensures(ApiError::bad_gateway, (message,), d),
        call_ensures(ApiError::internal, (message,), e),
        call_ensures(ApiError::undecodable, (message,), f),
        call_ensures(ApiError::upstream, (message,), g),
    ensures
        says(a, 400, "invalid_request_error"@, message@),
        says(b, 401, "authentication_error"@, message@),
        says(c, 413, "invalid_request_error"@, message@),
        says(d, 502, "upstream_error"@, message@),
        says(e, 500, "server_error"@, message@),
        says(f, 400, "invalid_request_error"@, message@),
        says(g, 502, "upstream_error"@, "upstream transcribe failed: "@ + message@),
{
}

/// A form that is too large is told so; any other that cannot be read is a bad request.
pub proof fn large_forms_are_told_so(
    context: &str,
    reason: &str,
    status: u16,
    error: ApiError,
    r: ErrorBody,
    other: ApiError,
)
    requires
        call_ensures(ApiError::unreadable_form, (context, reason, status), error),
        call_ensures(ErrorBody::new, (other,), r),
    ensures
        says(
            error,
            if status == 413 {
                413
            } else {
                400
            },
            "invalid_request_error"@,
            context@ + ": "@ + reason@,
        ),
        r.error.message@ == other.message@,
        r.error.error_type@ == other.error_type@,
        r.error.param is None,
        r.error.code is None,
{
}

/// Whether the bytes are visible ASCII that spells the text.
pub open spec fn spells(bytes: Seq<u8>, text: Seq<char>) -> bool {
    &&& bytes.len() == text.len()
    &&& forall|i: int|
        0 <= i < bytes.len() ==> {
            let b = #[trigger] bytes[i];
            (b == 9 || 32 <= b < 127) && text[i] == b as char
        }
}

/// Whether the first authorization header holds the key behind the scheme.
pub open spec fn shows_key(headers: Map<Seq<char>, Seq<Seq<u8>>>, key: Seq<char>) -> bool {
    &&& headers.dom().contains("authorization"@)
    &&& exists|text: Seq<char>|
        {
            &&& #[trigger] spells(headers["authorization"@][0], text)
            &&& has_scheme(text)
            &&& text.skip(7) == key
        }
}

/// A request passes where the server has no key or the request shows it, and no other does.
pub proof fn requests_need_the_key(
    headers: HeaderMap,
    expected: Option<&str>,
    r: Result<(), ApiError>,
)
    requires
        call_ensures(authorize, (&headers, expected), r),
    ensures
        r is Ok <==> expected is None || shows_key(header_values(headers), expected->0@),
        r is Err ==> says(
            r->Err_0,
            401,
            "authentication_error"@,
            "missing or invalid bearer token"@,
        ),
{
    if let Some(key) = expected {
        lemma_shows_key(header_values(headers), key@);
    }
}

/// What a request shows is the key that it provides.
pub proof fn lemma_shows_key(headers: Map<Seq<char>, Seq<Seq<u8>>>, key: Seq<char>)
    ensures
        shows_key(headers, key) <==> crate::server::provided_key(headers) == Some(key),
{
    if headers.dom().contains("authorization"@) {
        let bytes = headers["authorization"@][0];
        let value = ascii_text(bytes);
        lemma_has_scheme(value);
        assert(value.len() == bytes.len());
        if crate::server::provided_key(headers) == Some(key) {
            assert forall|i: int| 0 <= i < bytes.len() implies {
                let b = #[trigger] bytes[i];
                (b == 9 || 32 <= b < 127) && value[i] == b as char
            } by {
                assert(visible_byte(bytes[i]));
            }
            assert(spells(bytes, value));
        }
        if shows_key(headers, key) {
            let text = choose|text: Seq<char>|
                {
                    &&& #[trigger] spells(bytes, text)
                    &&& has_scheme(text)
                    &&& text.skip(7) == key
                };
            assert(text =~= value);
            assert forall|i: int| 0 <= i < bytes.len() implies visible_byte(
                #[trigger] bytes[i],
            ) by {}
        }
    }
}

/// The key of a server is the one that was asked for, or else that of the environment, trimmed;
/// without one the server is refused, unless it does without.
pub proof fn servers_have_a_key(
    explicit: Option<String>,
    environment: Option<String>,
    no_api_key: bool,
    given: Option<String>,
    r: Result<Option<String>, &'static str>,
)
    requires
        call_ensures(resolve_server_api_key, (explicit, environment, no_api_key), r),
        given == if explicit is Some {
            explicit
        } else {
            environment
        },
    ensures
        no_api_key ==> r is Ok && r->Ok_0 is None,
        !no_api_key && given is Some && !blank(given->0@) ==> r is Ok && r->Ok_0 is Some
            && trims_to(given->0@, r->Ok_0->0@),
        !no_api_key && (given is None || blank(given->0@)) ==> r is Err && r->Err_0@
            == "serve requires --api-key, CODEX_ASR_SERVER_KEY, or --no-api-key"@,
{
    if let Some(key) = given {
        lemma_blank(key@);
        lemma_trims_to(key@, trim(key@));
    }
}

/// The format is named in one of a few words, with whatever white space around it; without a
/// name it is JSON. Subtitles, and what is none of the words, are refused.
pub proof fn formats_are_named(
    value: Option<&str>,
    name: Seq<char>,
    r: Result<ResponseFormat, ApiError>,
)
    requires
        call_ensures(ResponseFormat::parse, (value,), r),
        value is Some ==> trims_to(value->0@, name),
        value is None ==> name == "json"@,
    ensures
        name.len() == 0 || name == "json"@ ==> r is Ok && r->Ok_0 == ResponseFormat::Json,
        name == "text"@ ==> r is Ok && r->Ok_0 == ResponseFormat::Text,
        name == "verbose_json"@ ==> r is Ok && r->Ok_0 == ResponseFormat::VerboseJson,
        name == "srt"@ || name == "vtt"@ ==> r is Err && says(
            r->Err_0,
            400,
            "invalid_request_error"@,
            "response_format srt/vtt is not supported because timestamps are unavailable"@,
        ),
        r is Ok ==> name.len() == 0 || name == "json"@ || name == "text"@ || name
            == "verbose_json"@,
        r is Err && name != "srt"@ && name != "vtt"@ ==> says(
            r->Err_0,
            400,
            "invalid_request_error"@,
            "unsupported response_format: "@ + name,
        ),
{
    if let Some(v) = value {
        lemma_trims_to(v@, name);
    }
    reveal_strlit("");
    reveal_strlit("json");
    reveal_strlit("text");
    reveal_strlit("verbose_json");
    reveal_strlit("srt");
    reveal_strlit("vtt");
    assert(name.len() == 0 ==> name =~= ""@);
    assert("json"@[0] != "text"@[0]);
    assert("srt"@.len() == 3 && "vtt"@.len() == 3 && "json"@.len() == 4 && "text"@.len() == 4);
}

/// Whether a document is an object with one member.
pub open spec fn has_only(tree: JsonTree, key: Seq<char>, value: JsonTree) -> bool {
    &&& tree is Object
    &&& forall|k: Seq<char>| #[trigger] tree->Object_0.dom().contains(k) <==> k == key
    &&& tree->Object_0[key] == value
}

/// Whether a document is the verbose answer with the text and the language.
pub open spec fn is_verbose(tree: JsonTree, text: Seq<char>, language: Option<&str>) -> bool {
    let members = tree->Object_0;
    &&& tree is Object
    &&& forall|k: Seq<char>| #[trigger]
        members.dom().contains(k) <==> k == "task"@ || k == "language"@ || k == "duration"@ || k
            == "text"@ || k == "segments"@
    &&& members["task"@] == JsonTree::Text("transcribe"@)
    &&& members["language"@] == if language is Some {
        JsonTree::Text(language->0@)
    } else {
        JsonTree::Null
    }
    &&& members["duration"@] == JsonTree::Null
    &&& members["text"@] == JsonTree::Text(text)
    &&& members["segments"@] == JsonTree::Array(Seq::empty())
}

/// An answer holds the text of the transcription as it is, in the format that was asked for.
pub proof fn answers_hold_the_text(
    text: &str,
    format: ResponseFormat,
    language: Option<&str>,
    r: ReplyBody,
    document: serde_json::Value,
    up: serde_json::Value,
)
    requires
        call_ensures(format_transcription_response, (text, format, language), r),
        call_ensures(transcription_json, (text,), document),
        call_ensures(healthz, (), up),
    ensures
        has_only(json_tree(document), "text"@, JsonTree::Text(text@)),
        has_only(json_tree(up), "status"@, JsonTree::Text("ok"@)),
        format == ResponseFormat::Json ==> (r matches ReplyBody::Json(value) && has_only(
            json_tree(value),
            "text"@,
            JsonTree::Text(text@),
        )),
        format == ResponseFormat::Text ==> (r matches ReplyBody::Text { content_type, text: t }
            && content_type@ == "text/plain; charset=utf-8"@ && t@ == text@),
        format == ResponseFormat::VerboseJson ==> (r matches ReplyBody::Json(value) && is_verbose(
            json_tree(value),
            text@,
            language,
        )),
{
    lemma_single("text"@, JsonTree::Text(text@));
    lemma_single("status"@, JsonTree::Text("ok"@));
    lemma_verbose(text@, language);
}

proof fn lemma_single(key: Seq<char>, value: JsonTree)
    ensures
        has_only(crate::json::object(seq![(key, value)]), key, value),
{
    let list = seq![(key, value)];
    assert(list.last() == (key, value));
    assert(list.drop_last().len() == 0);
    assert(crate::json::member_map(list.drop_last()) =~= Map::empty());
}

proof fn lemma_verbose(text: Seq<char>, language: Option<&str>)
    ensures
        is_verbose(
            crate::server::verbose_document(text, crate::proxy::opt_str(language)),
            text,
            language,
        ),
{
    let l = crate::proxy::opt_str(language);
    let list = verbose_members(text, l);
    let four = list.drop_last();
    let three = four.drop_last();
    let two = three.drop_last();
    let one = two.drop_last();
    assert(list.last() == ("segments"@, JsonTree::Array(seq![])));
    assert(four.last() == ("text"@, JsonTree::Text(text)));
    assert(three.last() == ("duration"@, JsonTree::Null));
    assert(two.last() == list[1]);
    assert(one.last() == ("task"@, JsonTree::Text("transcribe"@)));
    assert(one.drop_last().len() == 0);
    assert(crate::json::member_map(one.drop_last()) =~= Map::empty());
    assert(crate::json::member_map(one).dom().contains("task"@));
    assert(crate::json::member_map(two).dom().contains("language"@));
    assert(crate::json::member_map(three).dom().contains("duration"@));
    assert(crate::json::member_map(four).dom().contains("text"@));
    reveal_strlit("task");
    reveal_strlit("language");
    reveal_strlit("duration");
    reveal_strlit("text");
    reveal_strlit("segments");
    assert("task"@.len() == 4 && "text"@.len() == 4);
    assert("language"@.len() == 8 && "duration"@.len() == 8 && "segments"@.len() == 8);
    assert("task"@[1] != "text"@[1]);
    assert("language"@[0] != "duration"@[0]);
    assert("language"@[0] != "segments"@[0]);
    assert("duration"@[0] != "segments"@[0]);
}

} // verus!
