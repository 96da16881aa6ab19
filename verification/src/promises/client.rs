//! What the client of the endpoint promises.

use reqwest::blocking::multipart::Form;
use reqwest::blocking::{Client, ClientBuilder};
use reqwest::header::HeaderMap;
use std::path::PathBuf;
use vstd::prelude::*;
use vstd::utf8::{encode_utf8, is_char_boundary};

use crate::auth::{AuthFile, CodexAuth};
use crate::client::{
    accept_status, can_clip, clip_response_body, detect_codex_desktop_version, upload_form,
    CodexAsrClient, CodexAsrClientBuilder, Platform, TranscribeOptions, Transcription,
    UploadRequest,
};
use crate::error::{path_of, CodexAsrError};
use crate::http::{
    builder_limits, builder_proxies, client_limits, client_proxies, form_fields, header_byte,
    header_text, header_values, read_media_type, read_proxy_url,
};
use crate::media::{infer_content_type, upload_filename};
use crate::path::AudioPath;
use crate::promises::login::alike;
use crate::promises::text::{gives, lemma_occurs_first, lemma_occurs_nowhere, occurs, occurs_first};
use crate::proxy::resolve_proxy;
use crate::text::{collapse_text, remove_char};

verus! {

/// Whether a text can be the value of a header: its bytes are no control characters but tabs.
pub open spec fn fits_header(text: Seq<char>) -> bool {
    forall|i: int|
        0 <= i < encode_utf8(text).len() ==> {
            let b = #[trigger] encode_utf8(text)[i];
            b == 9 || (b >= 32 && b != 127)
        }
}

proof fn lemma_fits_header(text: Seq<char>)
    ensures
        fits_header(text) <==> header_text(text),
{
    if header_text(text) {
        assert forall|i: int| 0 <= i < encode_utf8(text).len() implies {
            let b = #[trigger] encode_utf8(text)[i];
            b == 9 || (b >= 32 && b != 127)
        } by {
            assert(header_byte(encode_utf8(text)[i]));
        }
    }
}

/// Whether a form uploads the audio under the file name, media type and language: all of the
/// audio in its first field, the language in its second where there is one, and nothing else.
pub open spec fn uploads(
    form: Form,
    audio: Seq<u8>,
    filename: Seq<char>,
    media_type: Seq<char>,
    language: Option<String>,
) -> bool {
    let fields = form_fields(form);
    let (name, file) = fields[0];
    let (second, text) = fields[1];
    &&& fields.len() == if language is Some {
        2nat
    } else {
        1nat
    }
    &&& name == "file"@
    &&& file.body == audio
    &&& file.file_name == Some(filename)
    &&& file.media_type == Some(media_type)
    &&& language is Some ==> {
        &&& second == "language"@
        &&& text.body == encode_utf8(language->0@)
        &&& text.file_name is None
        &&& text.media_type is None
    }
}

/// A form holds the whole of the audio, byte for byte.
pub proof fn forms_hold_the_whole_audio(
    audio: Vec<u8>,
    filename: &str,
    plain: String,
    content_type: &str,
    language: Option<String>,
    r: Result<Form, CodexAsrError>,
)
    requires
        call_ensures(upload_form, (audio, filename, content_type, language), r),
        call_ensures(remove_char, (filename, '"'), plain),
    ensures
        read_media_type(content_type@) is Some ==> r is Ok && uploads(
            r->Ok_0,
            audio@,
            plain@,
            read_media_type(content_type@)->0,
            language,
        ),
        read_media_type(content_type@) is None ==> r matches Err(CodexAsrError::BuildMultipart(_)),
{
}

/// The settings of a client, as a caller sees them.
pub ghost struct Sender {
    pub endpoint: Seq<char>,
    pub token: Seq<char>,
    pub account: Option<Seq<char>>,
    pub user_agent: Seq<char>,
}

impl Sender {
    /// Whether the login and the user agent can stand in headers.
    pub open spec fn fits(self) -> bool {
        &&& fits_header(
            seq!['B', 'e', 'a', 'r', 'e', 'r', ' '] + self.token,
        )
        &&& fits_header(self.user_agent)
        &&& self.account is Some ==> fits_header(self.account->0)
    }

    /// Whether headers name the login, the program and the account, and nothing else.
    pub open spec fn signs(self, headers: Map<Seq<char>, Seq<Seq<u8>>>) -> bool {
        &&& headers.dom().contains("authorization"@)
        &&& headers["authorization"@] == seq![
            encode_utf8(seq!['B', 'e', 'a', 'r', 'e', 'r', ' '] + self.token),
        ]
        &&& headers.dom().contains("originator"@)
        &&& headers["originator"@] == seq![encode_utf8("Codex Desktop"@)]
        &&& headers.dom().contains("user-agent"@)
        &&& headers["user-agent"@] == seq![encode_utf8(self.user_agent)]
        &&& headers.dom().contains("chatgpt-account-id"@) <==> self.account is Some
        &&& self.account is Some ==> headers["chatgpt-account-id"@] == seq![
            encode_utf8(self.account->0),
        ]
        &&& forall|name: Seq<char>| #[trigger]
            headers.dom().contains(name) ==> name == "authorization"@ || name == "originator"@
                || name == "user-agent"@ || name == "chatgpt-account-id"@
    }
}

/// What a client sends that was built with the given settings.
pub open spec fn sender_of(auth: CodexAuth, endpoint: Seq<char>, user_agent: Seq<char>) -> Sender {
    Sender {
        endpoint,
        token: auth.access_token@,
        account: if auth.account_id is Some {
            Some(auth.account_id->0@)
        } else {
            None
        },
        user_agent,
    }
}

/// Whether `r` is the request that uploads the audio: it goes to the endpoint, signed by the
/// sender. A content type that is no media type is refused, and then a sender that no header can
/// name.
pub open spec fn posts(
    sender: Sender,
    audio: Seq<u8>,
    filename: Seq<char>,
    content_type: Seq<char>,
    language: Option<String>,
    r: Result<UploadRequest, CodexAsrError>,
) -> bool {
    if read_media_type(content_type) is None {
        r matches Err(CodexAsrError::BuildMultipart(_))
    } else if !sender.fits() {
        r matches Err(CodexAsrError::InvalidHeader(_))
    } else {
        &&& r is Ok
        &&& r->Ok_0.url@ == sender.endpoint
        &&& sender.signs(header_values(r->Ok_0.headers))
        &&& uploads(
            r->Ok_0.form,
            audio,
            filename,
            read_media_type(content_type)->0,
            language,
        )
    }
}

proof fn lemma_signs(client: CodexAsrClient, sender: Sender)
    requires
        client@.auth.access_token@ == sender.token,
        crate::path::opt_text(client@.auth.account_id) == sender.account,
        client@.originator == "Codex Desktop"@,
        client@.user_agent == sender.user_agent,
    ensures
        crate::client::sendable(client@) <==> sender.fits(),
        sender.signs(crate::client::request_headers(client@)),
{
    let bearer = seq!['B', 'e', 'a', 'r', 'e', 'r', ' '] + sender.token;
    reveal_strlit("Bearer ");
    assert("Bearer "@ =~= seq!['B', 'e', 'a', 'r', 'e', 'r', ' ']);
    lemma_fits_header(bearer);
    lemma_fits_header(sender.user_agent);
    if let Some(account) = sender.account {
        lemma_fits_header(account);
    }
    lemma_originator_fits();
    lemma_fits_header("Codex Desktop"@);
    reveal_strlit("authorization");
    reveal_strlit("originator");
    reveal_strlit("user-agent");
    reveal_strlit("chatgpt-account-id");
    assert("authorization"@.len() == 13);
    assert("originator"@.len() == 10);
    assert("user-agent"@.len() == 10);
    assert("chatgpt-account-id"@.len() == 18);
    assert("originator"@[0] != "user-agent"@[0]);
    let headers = crate::client::request_headers(client@);
    assert(headers["authorization"@] == seq![encode_utf8(bearer)]);
    assert(headers["originator"@] == seq![encode_utf8("Codex Desktop"@)]);
    assert(headers["user-agent"@] == seq![encode_utf8(sender.user_agent)]);
    assert(headers.dom().contains("chatgpt-account-id"@) <==> sender.account is Some);
}

proof fn lemma_originator_fits()
    ensures
        fits_header("Codex Desktop"@),
{
    reveal_strlit("Codex Desktop");
    let text = "Codex Desktop"@;
    assert(vstd::utf8::is_ascii_chars(text));
    vstd::utf8::is_ascii_chars_encode_utf8(text);
}

/// A client posts the audio to the endpoint that it was built with, signed by the login that it
/// was built with; whatever proxy it uses.
pub proof fn audio_is_posted_with_the_login(
    auth: CodexAuth,
    platform: Platform,
    endpoint: String,
    proxy: Option<String>,
    agent: String,
    a: CodexAsrClientBuilder,
    b: CodexAsrClientBuilder,
    c: CodexAsrClientBuilder,
    d: CodexAsrClientBuilder,
    client: CodexAsrClient,
    copy: CodexAsrClient,
    audio: Vec<u8>,
    filename: &str,
    plain: String,
    content_type: &str,
    language: Option<String>,
    r: Result<UploadRequest, CodexAsrError>,
    headers: Result<HeaderMap, CodexAsrError>,
)
    requires
        call_ensures(CodexAsrClient::builder, (auth, &platform), a),
        call_ensures(CodexAsrClientBuilder::endpoint, (a, endpoint), b),
        call_ensures(CodexAsrClientBuilder::proxy, (b, proxy), c),
        call_ensures(CodexAsrClientBuilder::user_agent, (c, agent), d),
        call_ensures(
            CodexAsrClientBuilder::build,
            (d,),
            Ok::<CodexAsrClient, CodexAsrError>(client),
        ),
        call_ensures(<CodexAsrClient as Clone>::clone, (&client,), copy),
        call_ensures(
            CodexAsrClient::transcribe_bytes,
            (&copy, audio, filename, content_type, language),
            r,
        ),
        call_ensures(CodexAsrClient::auth_headers, (&client,), headers),
        call_ensures(remove_char, (filename, '"'), plain),
    ensures
        posts(
            sender_of(auth, endpoint@, agent@),
            audio@,
            plain@,
            content_type@,
            language,
            r,
        ),
        sender_of(auth, endpoint@, agent@).fits() ==> headers is Ok && sender_of(
            auth,
            endpoint@,
            agent@,
        ).signs(header_values(headers->Ok_0)),
        !sender_of(auth, endpoint@, agent@).fits() ==> headers matches Err(
            CodexAsrError::InvalidHeader(_),
        ),
{
    lemma_signs(client, sender_of(auth, endpoint@, agent@));
}

/// A client that was given neither an endpoint nor a user agent posts to that of the desktop
/// application, in its name, with its version where it is installed.
pub proof fn clients_stand_for_the_desktop_application(
    auth: CodexAuth,
    platform: Platform,
    plist: Option<&str>,
    installed: Option<String>,
    a: CodexAsrClientBuilder,
    n: CodexAsrClientBuilder,
    client: CodexAsrClient,
    audio: Vec<u8>,
    filename: &str,
    plain: String,
    content_type: &str,
    language: Option<String>,
    r: Result<UploadRequest, CodexAsrError>,
)
    requires
        call_ensures(CodexAsrClient::builder, (auth, &platform), a) || call_ensures(
            CodexAsrClientBuilder::new,
            (auth, &platform),
            a,
        ),
        call_ensures(
            CodexAsrClientBuilder::build,
            (a,),
            Ok::<CodexAsrClient, CodexAsrError>(client),
        ),
        plist is Some == platform.desktop_plist is Some,
        plist is Some ==> plist->0@ == platform.desktop_plist->0@,
        call_ensures(detect_codex_desktop_version, (plist,), installed),
        call_ensures(
            CodexAsrClient::transcribe_bytes,
            (&client, audio, filename, content_type, language),
            r,
        ),
        call_ensures(remove_char, (filename, '"'), plain),
    ensures
        posts(
            sender_of(
                auth,
                "https://chatgpt.com/backend-api/transcribe"@,
                "Codex Desktop"@ + "/"@ + (if installed is Some {
                    installed->0@
                } else {
                    "26.429.30905"@
                }) + " ("@ + platform.os@ + "; "@ + platform.arch@ + ")"@,
            ),
            audio@,
            plain@,
            content_type@,
            language,
            r,
        ),
{
    let agent = "Codex Desktop"@ + "/"@ + (if installed is Some {
        installed->0@
    } else {
        "26.429.30905"@
    }) + " ("@ + platform.os@ + "; "@ + platform.arch@ + ")"@;
    assert(client@.user_agent == agent);
    lemma_signs(
        client,
        sender_of(auth, "https://chatgpt.com/backend-api/transcribe"@, agent),
    );
}

/// An explicit content type and an explicit file name always count; else the content type is
/// that of the extension, and the file name that of the path for this content type.
pub proof fn explicit_options_count(
    client: CodexAsrClient,
    path: AudioPath,
    audio: Vec<u8>,
    options: TranscribeOptions,
    inferred: &'static str,
    content_type: &str,
    named: String,
    filename: &str,
    plain: String,
    r: Result<UploadRequest, CodexAsrError>,
    q: Result<UploadRequest, CodexAsrError>,
)
    requires
        call_ensures(CodexAsrClient::transcribe_file, (&client, &path, audio, options), r),
        call_ensures(infer_content_type, (&path,), inferred),
        content_type@ == if options.content_type is Some {
            options.content_type->0@
        } else {
            inferred@
        },
        call_ensures(upload_filename, (&path, content_type), named),
        filename@ == if options.filename is Some {
            options.filename->0@
        } else {
            named@
        },
        call_ensures(remove_char, (filename, '"'), plain),
        call_ensures(
            CodexAsrClient::transcribe_bytes,
            (&client, audio, filename, content_type, options.language),
            q,
        ),
    ensures
        r is Ok <==> q is Ok,
        r is Ok ==> uploads(
            r->Ok_0.form,
            audio@,
            plain@,
            read_media_type(content_type@)->0,
            options.language,
        ),
        r is Ok ==> r->Ok_0.url@ == q->Ok_0.url@ && header_values(r->Ok_0.headers)
            == header_values(q->Ok_0.headers),
        read_media_type(content_type@) is None ==> r matches Err(CodexAsrError::BuildMultipart(_)),
        read_media_type(content_type@) is Some && r is Err ==> r matches Err(
            CodexAsrError::InvalidHeader(_),
        ),
{
}

/// A client uses the proxy that it was given last, or else the one that is set on the machine,
/// and waits as long as it was told, or else half a minute for a reply. A proxy is refused only
/// where it is no URL.
pub proof fn clients_use_their_proxy_and_timeouts(
    auth: CodexAuth,
    platform: Platform,
    set: Option<String>,
    proxy: Option<String>,
    connect: u32,
    request: u32,
    a: CodexAsrClientBuilder,
    b: CodexAsrClientBuilder,
    c: CodexAsrClientBuilder,
    plain: Result<ClientBuilder, CodexAsrError>,
    given: Result<ClientBuilder, CodexAsrError>,
    http: Result<Client, reqwest::Error>,
    client: Result<CodexAsrClient, CodexAsrError>,
    sent: &Client,
)
    requires
        call_ensures(CodexAsrClient::builder, (auth, &platform), a),
        call_ensures(resolve_proxy, (None, &platform.proxies), set),
        call_ensures(CodexAsrClientBuilder::http_builder, (&a,), plain),
        call_ensures(CodexAsrClientBuilder::proxy, (a, proxy), b),
        call_ensures(CodexAsrClientBuilder::timeouts, (b, connect, request), c),
        call_ensures(CodexAsrClientBuilder::http_builder, (&c,), given),
        call_ensures(CodexAsrClientBuilder::assemble, (c, http), client),
        client is Ok ==> call_ensures(CodexAsrClient::http, (&client->Ok_0,), sent),
    ensures
        has_proxy(plain, set),
        plain is Ok ==> builder_limits(plain->Ok_0).connect is None && builder_limits(
            plain->Ok_0,
        ).request == Some(30nat),
        has_proxy(given, proxy),
        given is Ok ==> builder_limits(given->Ok_0).connect == Some(connect as nat)
            && builder_limits(given->Ok_0).request == Some(request as nat),
        http is Ok ==> client is Ok && *sent == http->Ok_0,
        http is Err ==> client == Err::<CodexAsrClient, CodexAsrError>(
            CodexAsrError::BuildClient(http->Err_0),
        ),
{
    assert(seq![None] + platform.proxies.settings() =~= seq![crate::proxy::opt_str(None)]
        + platform.proxies.settings());
}

/// Whether a builder of HTTP clients has the proxy, or was refused where it is no URL.
pub open spec fn has_proxy(
    r: Result<ClientBuilder, CodexAsrError>,
    proxy: Option<String>,
) -> bool {
    &&& proxy is None ==> r is Ok && builder_proxies(r->Ok_0).len() == 0
    &&& proxy is Some && read_proxy_url(proxy->0@) is Some ==> r is Ok && builder_proxies(r->Ok_0)
        == seq![read_proxy_url(proxy->0@)->0]
    &&& proxy is Some && read_proxy_url(proxy->0@) is None ==> (r is Err
        && r->Err_0 is BuildClient)
}

/// What is built has the proxies and the timeouts of what `http_builder` gives.
pub proof fn clients_are_built_as_configured(
    builder: CodexAsrClientBuilder,
    http: Result<ClientBuilder, CodexAsrError>,
    client: CodexAsrClient,
    copy: CodexAsrClient,
    sent: &Client,
)
    requires
        call_ensures(CodexAsrClientBuilder::http_builder, (&builder,), http),
        call_ensures(
            CodexAsrClientBuilder::build,
            (builder,),
            Ok::<CodexAsrClient, CodexAsrError>(client),
        ),
        call_ensures(<CodexAsrClient as Clone>::clone, (&client,), copy),
        call_ensures(CodexAsrClient::http, (&copy,), sent),
    ensures
        http is Ok,
        client_proxies(*sent) == builder_proxies(http->Ok_0),
        client_limits(*sent) == builder_limits(http->Ok_0),
{
    assert(client_proxies(*sent) =~= builder_proxies(http->Ok_0));
}

/// Whether two failed logins failed alike.
pub open spec fn fail_alike(a: CodexAsrError, b: CodexAsrError) -> bool {
    &&& a matches CodexAsrError::UnsupportedAuthMode { mode: m } ==> (
    b matches CodexAsrError::UnsupportedAuthMode { mode: n } && m@ == n@)
    &&& a matches CodexAsrError::MissingAccessToken { path: p } ==> (
    b matches CodexAsrError::MissingAccessToken { path: q } && p == q)
    &&& a is UnsupportedAuthMode || a is MissingAccessToken
}

/// Whether two logins are the same.
pub open spec fn same_login(a: CodexAuth, b: CodexAuth) -> bool {
    a.access_token@ == b.access_token@ && alike(a.account_id, b.account_id) && a.path == b.path
}

/// The client with the login of the desktop application is built as one with that login and
/// without other settings; where there is no login there is no client.
pub proof fn the_kept_login_makes_a_client(
    path: PathBuf,
    file: AuthFile,
    platform: Platform,
    auth: Result<CodexAuth, CodexAsrError>,
    n: CodexAsrClientBuilder,
    b: Result<CodexAsrClientBuilder, CodexAsrError>,
    http: Result<ClientBuilder, CodexAsrError>,
    client: Result<CodexAsrClient, CodexAsrError>,
    sent: &Client,
)
    requires
        call_ensures(CodexAuth::from_codex_home, (path, file), auth),
        auth is Ok ==> call_ensures(CodexAsrClientBuilder::new, (auth->Ok_0, &platform), n),
        call_ensures(CodexAsrClientBuilder::from_codex_home, (path, file, &platform), b),
        call_ensures(CodexAsrClient::from_codex_home, (path, file, &platform), client),
        call_ensures(CodexAsrClientBuilder::http_builder, (&n,), http),
        client is Ok ==> call_ensures(CodexAsrClient::http, (&client->Ok_0,), sent),
    ensures
        auth is Err ==> b is Err && fail_alike(auth->Err_0, b->Err_0),
        auth is Err ==> client is Err && fail_alike(auth->Err_0, client->Err_0),
        auth is Ok ==> {
            &&& b is Ok
            &&& same_login(b->Ok_0@.auth, auth->Ok_0)
            &&& b->Ok_0@.endpoint == n@.endpoint
            &&& b->Ok_0@.originator == n@.originator
            &&& b->Ok_0@.user_agent == n@.user_agent
            &&& b->Ok_0.chosen_proxy() == n.chosen_proxy()
            &&& b->Ok_0.limits() == n.limits()
        },
        auth is Ok && client is Err ==> client->Err_0 is BuildClient,
        client is Ok ==> {
            &&& auth is Ok
            &&& same_login(client->Ok_0@.auth, auth->Ok_0)
            &&& client->Ok_0@.endpoint == n@.endpoint
            &&& client->Ok_0@.originator == n@.originator
            &&& client->Ok_0@.user_agent == n@.user_agent
            &&& http is Ok
            &&& client_proxies(*sent) == builder_proxies(http->Ok_0)
            &&& client_limits(*sent) == builder_limits(http->Ok_0)
        },
{
    if client is Ok {
        assert(client_proxies(*sent) =~= builder_proxies(http->Ok_0));
    }
}

/// The version is the first text in a `string` element behind the key of the version.
pub proof fn the_version_stands_behind_its_key(
    plist: &str,
    key: int,
    open: int,
    close: int,
    r: Option<String>,
    missing: Option<String>,
)
    requires
        call_ensures(detect_codex_desktop_version, (Some(plist),), r),
        call_ensures(detect_codex_desktop_version, (None::<&str>,), missing),
    ensures
        missing is None,
        ({
            let k = key + "<key>CFBundleShortVersionString</key>"@.len();
            let o = k + open + "<string>"@.len();
            occurs_first(plist@, "<key>CFBundleShortVersionString</key>"@, key) && occurs_first(
                plist@.skip(k),
                "<string>"@,
                open,
            ) && occurs_first(plist@.skip(o), "</string>"@, close) ==> gives(
                r,
                plist@.subrange(o, o + close),
            )
        }),
        (forall|i: int|
            !#[trigger] occurs(plist@, "<key>CFBundleShortVersionString</key>"@, i)) ==> r is None,
        ({
            let k = key + "<key>CFBundleShortVersionString</key>"@.len();
            occurs_first(plist@, "<key>CFBundleShortVersionString</key>"@, key) && (forall|i: int|
                !#[trigger] occurs(plist@.skip(k), "<string>"@, i)) ==> r is None
        }),
        ({
            let k = key + "<key>CFBundleShortVersionString</key>"@.len();
            let o = k + open + "<string>"@.len();
            occurs_first(plist@, "<key>CFBundleShortVersionString</key>"@, key) && occurs_first(
                plist@.skip(k),
                "<string>"@,
                open,
            ) && (forall|i: int| !#[trigger] occurs(plist@.skip(o), "</string>"@, i)) ==> r is None
        }),
{
    let s = plist@;
    let k = key + "<key>CFBundleShortVersionString</key>"@.len();
    let o = k + open + "<string>"@.len();
    if forall|i: int| !#[trigger] occurs(s, "<key>CFBundleShortVersionString</key>"@, i) {
        lemma_occurs_nowhere(s, "<key>CFBundleShortVersionString</key>"@);
    }
    if occurs_first(s, "<key>CFBundleShortVersionString</key>"@, key) {
        lemma_occurs_first(s, "<key>CFBundleShortVersionString</key>"@, key);
        if forall|i: int| !#[trigger] occurs(s.skip(k), "<string>"@, i) {
            lemma_occurs_nowhere(s.skip(k), "<string>"@);
        }
        if occurs_first(s.skip(k), "<string>"@, open) {
            lemma_occurs_first(s.skip(k), "<string>"@, open);
            assert(s.skip(k).skip(open + "<string>"@.len()) =~= s.skip(o));
            if forall|i: int| !#[trigger] occurs(s.skip(o), "</string>"@, i) {
                lemma_occurs_nowhere(s.skip(o), "</string>"@);
            }
            if occurs_first(s.skip(o), "</string>"@, close) {
                lemma_occurs_first(s.skip(o), "</string>"@, close);
                assert(s.skip(o).take(close) =~= s.subrange(o, o + close));
            }
        }
    }
}

/// A reply is a success or is reported with its status and the first three hundred bytes of its
/// body, once the white space of that is collapsed.
pub proof fn failed_replies_are_reported(
    status: u16,
    body: &str,
    collapsed: String,
    clip: String,
    fits: bool,
    r: Result<(), CodexAsrError>,
)
    requires
        call_ensures(accept_status, (status, body), r),
        call_ensures(collapse_text, (body,), collapsed),
        call_ensures(clip_response_body, (body,), clip),
        call_ensures(can_clip, (body,), fits),
    ensures
        r is Ok <==> 200 <= status && status <= 299,
        r is Err ==> (r->Err_0 matches CodexAsrError::Http { status: s, body: b } && s == status
            && b@ == clip@),
        fits <==> encode_utf8(collapsed@).len() <= 300 || is_char_boundary(
            encode_utf8(collapsed@),
            300,
        ),
        fits && encode_utf8(collapsed@).len() <= 300 ==> clip@ == collapsed@,
        fits && encode_utf8(collapsed@).len() > 300 ==> encode_utf8(clip@) == encode_utf8(
            collapsed@,
        ).take(300),
{
    let bytes = encode_utf8(collapsed@);
    if fits && bytes.len() > 300 {
        vstd::utf8::encode_utf8_valid_utf8(collapsed@);
        vstd::utf8::valid_utf8_split(bytes, 300);
        assert(bytes.subrange(0, 300) =~= bytes.take(300));
        vstd::utf8::decode_utf8_encode_utf8(bytes.take(300));
    }
}

/// The status of a response goes before its body; the text of the transcription is the one in
/// the reply.
pub proof fn replies_give_their_text(
    status: u16,
    body: &str,
    reply: Result<Option<String>, serde_json::Error>,
    accepted: Result<(), CodexAsrError>,
    r: Result<Transcription, CodexAsrError>,
    q: Result<Transcription, CodexAsrError>,
)
    requires
        call_ensures(accept_status, (status, body), accepted),
        call_ensures(Transcription::from_response, (status, body, reply), r),
        call_ensures(Transcription::from_reply, (reply,), q),
    ensures
        accepted is Err ==> (r matches Err(CodexAsrError::Http { status: s, body: b }) && (
        accepted->Err_0 matches CodexAsrError::Http { status: t, body: c } && s == t && b@ == c@)),
        accepted is Ok ==> is_text_of(reply, r),
        is_text_of(reply, q),
{
}

/// Whether `r` is the text in a reply: without one, that is reported; so is a reply that could
/// not be read.
pub open spec fn is_text_of(
    reply: Result<Option<String>, serde_json::Error>,
    r: Result<Transcription, CodexAsrError>,
) -> bool {
    &&& reply is Ok && reply->Ok_0 is Some ==> r is Ok && r->Ok_0.text@ == reply->Ok_0->0@
    &&& reply is Ok && reply->Ok_0 is None ==> (r is Err && r->Err_0 is MissingText)
    &&& reply is Err ==> (r is Err && r->Err_0 is ParseAuth && r->Err_0->ParseAuth_path == path_of(
        "<transcribe response>"@,
    ) && r->Err_0->ParseAuth_source == reply->Err_0)
}

/// Without options, nothing is asked for.
pub proof fn options_are_empty_by_default(r: TranscribeOptions)
    requires
        call_ensures(<TranscribeOptions as Default>::default, (), r),
    ensures
        r.language is None,
        r.content_type is None,
        r.filename is None,
{
}

} // verus!
