//! The client of the dictation endpoint: how it is built, what it sends, and what it makes of
//! the reply.

use std::path::PathBuf;

use reqwest::blocking::multipart::Form;
use reqwest::blocking::{Client, ClientBuilder};
use reqwest::header::HeaderMap;
use vstd::prelude::*;
use vstd::utf8::{decode_utf8, encode_utf8, is_char_boundary};

use crate::auth::{AuthFile, AuthOutcome, CodexAuth};
use crate::error::{path_buf, path_of, CodexAsrError};
use crate::http::{
    build_client, builder_limits, builder_proxies, bytes_part, client_builder, client_limits,
    client_proxies, default_limits, form_fields, header_text, header_value, header_values,
    https_proxy, insert_header, new_form, new_headers, no_headers, read_media_type, read_proxy_url,
    with_connect_timeout, with_file_name, with_media_type, with_part, with_proxy,
    with_request_timeout, with_text, Limits, PartFields,
};
use crate::media::{infer_content_type, inferred_type, upload_filename, upload_name};
use crate::path::{opt_text, AudioPath};
use crate::proxy::{first_setting, resolve_proxy, ProxyEnvironment};
use crate::text::{
    ahead, ahead_text, behind, behind_text, chars_of, collapse, collapse_text, remove_char, text_of,
    without,
};

verus! {

/// The endpoint that transcribes audio.
pub const DEFAULT_ENDPOINT: &'static str = "https://chatgpt.com/backend-api/transcribe";

/// The name under which the client introduces itself.
pub const DEFAULT_ORIGINATOR: &'static str = "Codex Desktop";

/// The version that the client claims where none is installed.
pub const DEFAULT_DESKTOP_VERSION: &'static str = "26.429.30905";

/// The number of bytes to which the body of a failed reply is cut.
pub const CLIP_BYTES: usize = 300;

/// The version in the property list of an application bundle.
pub open spec fn bundle_version(plist: Seq<char>) -> Option<Seq<char>> {
    match behind(plist, "<key>CFBundleShortVersionString</key>"@) {
        Some(rest) => match behind(rest, "<string>"@) {
            Some(value) => ahead(value, "</string>"@),
            None => None,
        },
        None => None,
    }
}

/// The user agent of a client of the given version on the given system.
pub open spec fn agent(version: Seq<char>, os: Seq<char>, arch: Seq<char>) -> Seq<char> {
    DEFAULT_ORIGINATOR@ + "/"@ + version + " ("@ + os + "; "@ + arch + ")"@
}

/// The version of the installed desktop application, given the property list of its bundle
/// where it could be read.
pub fn detect_codex_desktop_version(plist: Option<&str>) -> (r: Option<String>)
    ensures
        opt_text(r) == match plist {
            Some(p) => bundle_version(p@),
            None => None,
        },
{
    let chars = chars_of(plist?);
    let rest = behind_text(chars.as_slice(), "<key>CFBundleShortVersionString</key>")?;
    let value = behind_text(rest, "<string>")?;
    let version = ahead_text(value, "</string>")?;
    Some(text_of(version))
}

/// What a client takes from the machine that it runs on.
#[derive(Debug, Clone)]
pub struct Platform {
    /// The property list of the installed desktop application, where it could be read.
    pub desktop_plist: Option<String>,
    pub os: String,
    pub arch: String,
    pub proxies: ProxyEnvironment,
}

impl Platform {
    /// The version of the installed desktop application, or else the one to claim.
    pub open spec fn version(self) -> Seq<char> {
        match self.desktop_plist {
            Some(plist) => match bundle_version(plist@) {
                Some(version) => version,
                None => DEFAULT_DESKTOP_VERSION@,
            },
            None => DEFAULT_DESKTOP_VERSION@,
        }
    }
}

/// The settings of a client.
pub ghost struct ClientParts {
    pub auth: CodexAuth,
    pub endpoint: Seq<char>,
    pub originator: Seq<char>,
    pub user_agent: Seq<char>,
}

/// Builds a [`CodexAsrClient`].
#[derive(Debug, Clone)]
pub struct CodexAsrClientBuilder {
    auth: CodexAuth,
    endpoint: String,
    proxy: Option<String>,
    originator: String,
    user_agent: String,
    connect_timeout: Option<u32>,
    request_timeout: Option<u32>,
}

impl View for CodexAsrClientBuilder {
    type V = ClientParts;

    closed spec fn view(&self) -> ClientParts {
        ClientParts {
            auth: self.auth,
            endpoint: self.endpoint@,
            originator: self.originator@,
            user_agent: self.user_agent@,
        }
    }
}

/// A client of the dictation endpoint.
#[derive(Debug)]
pub struct CodexAsrClient {
    endpoint: String,
    auth: CodexAuth,
    http: Client,
    originator: String,
    user_agent: String,
}

impl View for CodexAsrClient {
    type V = ClientParts;

    closed spec fn view(&self) -> ClientParts {
        ClientParts {
            auth: self.auth,
            endpoint: self.endpoint@,
            originator: self.originator@,
            user_agent: self.user_agent@,
        }
    }
}

/// `reqwest::blocking::Client::clone`: a handle to the same client, with the same proxies and
/// timeouts.
pub assume_specification[ <Client as Clone>::clone ](client: &Client) -> (r: Client)
    ensures
        client_proxies(r) == client_proxies(*client),
        client_limits(r) == client_limits(*client),
;

impl Clone for CodexAsrClient {
    fn clone(&self) -> (r: Self)
        ensures
            r@ == self@,
            client_proxies(r.http_client()) == client_proxies(self.http_client()),
            client_limits(r.http_client()) == client_limits(self.http_client()),
    {
        CodexAsrClient {
            endpoint: self.endpoint.clone(),
            auth: self.auth.clone(),
            http: self.http.clone(),
            originator: self.originator.clone(),
            user_agent: self.user_agent.clone(),
        }
    }
}

impl CodexAsrClientBuilder {
    /// The proxy that the client is to use.
    pub closed spec fn chosen_proxy(&self) -> Option<Seq<char>> {
        opt_text(self.proxy)
    }

    /// How long the client is to wait.
    pub closed spec fn limits(&self) -> Limits {
        Limits {
            connect: match self.connect_timeout {
                Some(seconds) => Some(seconds as nat),
                None => default_limits().connect,
            },
            request: match self.request_timeout {
                Some(seconds) => Some(seconds as nat),
                None => default_limits().request,
            },
        }
    }

    /// A builder with the settings of the desktop application on the given machine.
    pub fn new(auth: CodexAuth, platform: &Platform) -> (r: Self)
        ensures
            r@ == (ClientParts {
                auth,
                endpoint: DEFAULT_ENDPOINT@,
                originator: DEFAULT_ORIGINATOR@,
                user_agent: agent(platform.version(), platform.os@, platform.arch@),
            }),
            r.chosen_proxy() == first_setting(seq![None] + platform.proxies.settings()),
            r.limits() == default_limits(),
    {
        let found = match &platform.desktop_plist {
            Some(plist) => detect_codex_desktop_version(Some(plist.as_str())),
            None => None,
        };
        let version = match found {
            Some(version) => version,
            None => DEFAULT_DESKTOP_VERSION.to_owned(),
        };
        let mut user_agent: String = DEFAULT_ORIGINATOR.to_owned();
        user_agent.append("/");
        user_agent.append(version.as_str());
        user_agent.append(" (");
        user_agent.append(platform.os.as_str());
        user_agent.append("; ");
        user_agent.append(platform.arch.as_str());
        user_agent.append(")");
        CodexAsrClientBuilder {
            auth,
            endpoint: DEFAULT_ENDPOINT.to_owned(),
            proxy: resolve_proxy(None, &platform.proxies),
            originator: DEFAULT_ORIGINATOR.to_owned(),
            user_agent,
            connect_timeout: None,
            request_timeout: None,
        }
    }

    /// A builder with the settings of the desktop application on the given machine and the
    /// login in its login file, which is at `path` and holds `file`.
    pub fn from_codex_home(path: PathBuf, file: AuthFile, platform: &Platform) -> (r: Result<
        Self,
        CodexAsrError,
    >)
        ensures
            match file.outcome() {
                AuthOutcome::UnsupportedMode(mode) => r matches Err(
                    CodexAsrError::UnsupportedAuthMode { mode: m },
                ) && m@ == mode,
                AuthOutcome::NoToken => r matches Err(
                    CodexAsrError::MissingAccessToken { path: p },
                ) && p == path,
                AuthOutcome::Login { access_token, account_id } => {
                    &&& r matches Ok(builder)
                    &&& builder@.auth.access_token@ == access_token
                    &&& opt_text(builder@.auth.account_id) == account_id
                    &&& builder@.auth.path == Some(path)
                    &&& builder@.endpoint == DEFAULT_ENDPOINT@
                    &&& builder@.originator == DEFAULT_ORIGINATOR@
                    &&& builder@.user_agent == agent(
                        platform.version(),
                        platform.os@,
                        platform.arch@,
                    )
                    &&& builder.chosen_proxy() == first_setting(
                        seq![None] + platform.proxies.settings(),
                    )
                    &&& builder.limits() == default_limits()
                },
            },
    {
        match CodexAuth::from_codex_home(path, file) {
            Ok(auth) => Ok(CodexAsrClientBuilder::new(auth, platform)),
            Err(error) => Err(error),
        }
    }

    /// The builder with another endpoint.
    pub fn endpoint(self, endpoint: String) -> (r: Self)
        ensures
            r@ == (ClientParts { endpoint: endpoint@, ..self@ }),
            r.chosen_proxy() == self.chosen_proxy(),
            r.limits() == self.limits(),
    {
        CodexAsrClientBuilder { endpoint, ..self }
    }

    /// The builder with another proxy, or with none.
    pub fn proxy(self, proxy: Option<String>) -> (r: Self)
        ensures
            r@ == self@,
            r.chosen_proxy() == opt_text(proxy),
            r.limits() == self.limits(),
    {
        CodexAsrClientBuilder { proxy, ..self }
    }

    /// The builder with timeouts in seconds, for connections and for replies.
    pub fn timeouts(self, connect: u32, request: u32) -> (r: Self)
        ensures
            r@ == self@,
            r.chosen_proxy() == self.chosen_proxy(),
            r.limits() == (Limits { connect: Some(connect as nat), request: Some(request as nat) }),
    {
        CodexAsrClientBuilder {
            connect_timeout: Some(connect),
            request_timeout: Some(request),
            ..self
        }
    }

    /// The builder with another user agent.
    pub fn user_agent(self, user_agent: String) -> (r: Self)
        ensures
            r@ == (ClientParts { user_agent: user_agent@, ..self@ }),
            r.chosen_proxy() == self.chosen_proxy(),
            r.limits() == self.limits(),
    {
        CodexAsrClientBuilder { user_agent, ..self }
    }

    /// The client with the settings of the builder, around what came of building the HTTP
    /// client.
    pub fn assemble(self, http: Result<Client, reqwest::Error>) -> (r: Result<
        CodexAsrClient,
        CodexAsrError,
    >)
        ensures
            match http {
                Ok(h) => r matches Ok(client) && client@ == self@ && client.http_client() == h,
                Err(e) => r == Err::<CodexAsrClient, CodexAsrError>(CodexAsrError::BuildClient(e)),
            },
    {
        match http {
            Ok(http) => Ok(
                CodexAsrClient {
                    endpoint: self.endpoint,
                    auth: self.auth,
                    http,
                    originator: self.originator,
                    user_agent: self.user_agent,
                },
            ),
            Err(error) => Err(CodexAsrError::BuildClient(error)),
        }
    }

    /// The builder of the HTTP client, with the proxy and the timeouts. A proxy that is no URL
    /// is refused.
    pub fn http_builder(&self) -> (r: Result<ClientBuilder, CodexAsrError>)
        ensures
            match self.chosen_proxy() {
                Some(url) => match read_proxy_url(url) {
                    Some(u) => r matches Ok(builder) && builder_proxies(builder) == seq![u]
                        && builder_limits(builder) == self.limits(),
                    None => r matches Err(CodexAsrError::BuildClient(_)),
                },
                None => r matches Ok(builder) && builder_proxies(builder).len() == 0
                    && builder_limits(builder) == self.limits(),
            },
    {
        let mut builder = client_builder();
        if let Some(url) = &self.proxy {
            match https_proxy(url.as_str()) {
                Ok(proxy) => {
                    builder = with_proxy(builder, proxy);
                },
                Err(error) => return Err(CodexAsrError::BuildClient(error)),
            }
        }
        if let Some(seconds) = self.connect_timeout {
            builder = with_connect_timeout(builder, seconds);
        }
        if let Some(seconds) = self.request_timeout {
            builder = with_request_timeout(builder, seconds);
        }
        Ok(builder)
    }

    /// The client with the settings of the builder: what `http_builder` gives is built, and
    /// `assemble` takes what comes of it. Whether the HTTP client can be built depends on the
    /// machine. Not to be called from within an async runtime.
    pub fn build(self) -> (r: Result<CodexAsrClient, CodexAsrError>)
        ensures
            match r {
                Ok(client) => {
                    &&& client@ == self@
                    &&& match self.chosen_proxy() {
                        Some(url) => {
                            &&& read_proxy_url(url) is Some
                            &&& client_proxies(client.http_client()) == seq![read_proxy_url(url)->0]
                        },
                        None => client_proxies(client.http_client()).len() == 0,
                    }
                    &&& client_limits(client.http_client()) == self.limits()
                },
                Err(error) => error is BuildClient,
            },
    {
        match self.http_builder() {
            Ok(builder) => self.assemble(build_client(builder)),
            Err(error) => Err(error),
        }
    }
}

/// The headers of a request: who asks, and with which program.
pub open spec fn request_headers(client: ClientParts) -> Map<Seq<char>, Seq<Seq<u8>>> {
    let named = no_headers().insert(
        "authorization"@,
        seq![encode_utf8("Bearer "@ + client.auth.access_token@)],
    ).insert("originator"@, seq![encode_utf8(client.originator)]).insert(
        "user-agent"@,
        seq![encode_utf8(client.user_agent)],
    );
    match client.auth.account_id {
        Some(account) => named.insert("chatgpt-account-id"@, seq![encode_utf8(account@)]),
        None => named,
    }
}

/// Whether all that the headers of a request hold can stand in a header.
pub open spec fn sendable(client: ClientParts) -> bool {
    &&& header_text("Bearer "@ + client.auth.access_token@)
    &&& header_text(client.originator)
    &&& header_text(client.user_agent)
    &&& client.auth.account_id is Some ==> header_text(client.auth.account_id->0@)
}

/// What is to be posted: where, with which headers, and with which form.
#[derive(Debug)]
pub struct UploadRequest {
    pub url: String,
    pub headers: HeaderMap,
    pub form: Form,
}

/// The fields of the form that uploads `audio`.
pub open spec fn upload_fields(
    audio: Seq<u8>,
    filename: Seq<char>,
    media_type: Seq<char>,
    language: Option<Seq<char>>,
) -> Seq<(Seq<char>, PartFields)> {
    let file = (
        "file"@,
        PartFields {
            body: audio,
            file_name: Some(without(filename, '"')),
            media_type: Some(media_type),
        },
    );
    match language {
        Some(l) => seq![
            file,
            (
                "language"@,
                PartFields { body: encode_utf8(l), file_name: None, media_type: None },
            ),
        ],
        None => seq![file],
    }
}

/// The form that uploads `audio` under a file name without quotes, with the language where it
/// is given.
pub fn upload_form(
    audio: Vec<u8>,
    filename: &str,
    content_type: &str,
    language: Option<String>,
) -> (r: Result<Form, CodexAsrError>)
    ensures
        match read_media_type(content_type@) {
            Some(media_type) => r matches Ok(form) && form_fields(form) == upload_fields(
                audio@,
                filename@,
                media_type,
                opt_text(language),
            ),
            None => r matches Err(CodexAsrError::BuildMultipart(_)),
        },
{
    let part = with_file_name(bytes_part(audio), remove_char(filename, '"'));
    let part = match with_media_type(part, content_type) {
        Ok(part) => part,
        Err(error) => return Err(CodexAsrError::BuildMultipart(error)),
    };
    let form = with_part(new_form(), "file", part);
    let form = match language {
        Some(language) => with_text(form, "language", language),
        None => form,
    };
    assert(form_fields(form) =~= upload_fields(
        audio@,
        filename@,
        read_media_type(content_type@)->0,
        opt_text(language),
    ));
    Ok(form)
}

/// The options of a transcription.
#[derive(Debug, Clone)]
pub struct TranscribeOptions {
    pub language: Option<String>,
    /// The content type of the audio, where it is not to be inferred.
    pub content_type: Option<String>,
    /// The file name of the upload, where it is not to be taken from the path.
    pub filename: Option<String>,
}

impl Default for TranscribeOptions {
    fn default() -> (r: Self)
        ensures
            r.language is None,
            r.content_type is None,
            r.filename is None,
    {
        TranscribeOptions { language: None, content_type: None, filename: None }
    }
}

impl TranscribeOptions {
    /// The content type under which the file at `path` is uploaded.
    pub open spec fn type_for(self, path: AudioPath) -> Seq<char> {
        match self.content_type {
            Some(content_type) => content_type@,
            None => inferred_type(path@),
        }
    }

    /// The file name under which the file at `path` is uploaded.
    pub open spec fn name_for(self, path: AudioPath) -> Seq<char> {
        match self.filename {
            Some(filename) => filename@,
            None => upload_name(path@, self.type_for(path)),
        }
    }
}

/// The text of an audio file.
#[derive(Debug, Clone, PartialEq, Eq)]
pub struct Transcription {
    pub text: String,
}

impl CodexAsrClient {
    /// The HTTP client that sends the requests.
    pub closed spec fn http_client(&self) -> Client {
        self.http
    }

    /// A builder for a client with the given login.
    pub fn builder(auth: CodexAuth, platform: &Platform) -> (r: CodexAsrClientBuilder)
        ensures
            r@ == (ClientParts {
                auth,
                endpoint: DEFAULT_ENDPOINT@,
                originator: DEFAULT_ORIGINATOR@,
                user_agent: agent(platform.version(), platform.os@, platform.arch@),
            }),
            r.chosen_proxy() == first_setting(seq![None] + platform.proxies.settings()),
            r.limits() == default_limits(),
    {
        CodexAsrClientBuilder::new(auth, platform)
    }

    /// The client with the settings of the desktop application on the given machine and the
    /// login in its login file, which is at `path` and holds `file`. Whether the HTTP client can
    /// be built depends on the machine.
    pub fn from_codex_home(path: PathBuf, file: AuthFile, platform: &Platform) -> (r: Result<
        Self,
        CodexAsrError,
    >)
        ensures
            match file.outcome() {
                AuthOutcome::UnsupportedMode(mode) => r matches Err(
                    CodexAsrError::UnsupportedAuthMode { mode: m },
                ) && m@ == mode,
                AuthOutcome::NoToken => r matches Err(
                    CodexAsrError::MissingAccessToken { path: p },
                ) && p == path,
                AuthOutcome::Login { access_token, account_id } => match r {
                    Ok(client) => {
                        &&& client@.auth.access_token@ == access_token
                        &&& opt_text(client@.auth.account_id) == account_id
                        &&& client@.auth.path == Some(path)
                        &&& client@.endpoint == DEFAULT_ENDPOINT@
                        &&& client@.originator == DEFAULT_ORIGINATOR@
                        &&& client@.user_agent == agent(
                            platform.version(),
                            platform.os@,
                            platform.arch@,
                        )
                        &&& match first_setting(seq![None] + platform.proxies.settings()) {
                            Some(url) => {
                                &&& read_proxy_url(url) is Some
                                &&& client_proxies(client.http_client())
                                    == seq![read_proxy_url(url)->0]
                            },
                            None => client_proxies(client.http_client()).len() == 0,
                        }
                        &&& client_limits(client.http_client()) == default_limits()
                    },
                    Err(error) => error is BuildClient,
                },
            },
    {
        match CodexAsrClientBuilder::from_codex_home(path, file, platform) {
            Ok(builder) => builder.build(),
            Err(error) => Err(error),
        }
    }

    /// The HTTP client that sends the requests.
    pub fn http(&self) -> (r: &Client)
        ensures
            *r == self.http_client(),
    {
        &self.http
    }

    /// The headers of a request.
    pub fn auth_headers(&self) -> (r: Result<HeaderMap, CodexAsrError>)
        ensures
            match r {
                Ok(headers) => sendable(self@) && header_values(headers) == request_headers(self@),
                Err(error) => !sendable(self@) && error is InvalidHeader,
            },
    {
        proof {
            reveal_strlit("authorization");
            reveal_strlit("originator");
            reveal_strlit("user-agent");
            reveal_strlit("chatgpt-account-id");
        }
        let mut headers = new_headers();
        let mut bearer: String = "Bearer ".to_owned();
        bearer.append(self.auth.access_token.as_str());
        match header_value(bearer.as_str()) {
            Ok(value) => insert_header(&mut headers, "authorization", value),
            Err(error) => return Err(CodexAsrError::InvalidHeader(error)),
        }
        match header_value(self.originator.as_str()) {
            Ok(value) => insert_header(&mut headers, "originator", value),
            Err(error) => return Err(CodexAsrError::InvalidHeader(error)),
        }
        match header_value(self.user_agent.as_str()) {
            Ok(value) => insert_header(&mut headers, "user-agent", value),
            Err(error) => return Err(CodexAsrError::InvalidHeader(error)),
        }
        if let Some(account_id) = &self.auth.account_id {
            match header_value(account_id.as_str()) {
                Ok(value) => insert_header(&mut headers, "chatgpt-account-id", value),
                Err(error) => return Err(CodexAsrError::InvalidHeader(error)),
            }
        }
        Ok(headers)
    }

    /// The request that has `audio` transcribed.
    pub fn transcribe_bytes(
        &self,
        audio: Vec<u8>,
        filename: &str,
        content_type: &str,
        language: Option<String>,
    ) -> (r: Result<UploadRequest, CodexAsrError>)
        ensures
            self.requests(audio@, filename@, content_type@, opt_text(language), r),
    {
        let form = match upload_form(audio, filename, content_type, language) {
            Ok(form) => form,
            Err(error) => return Err(error),
        };
        let headers = match self.auth_headers() {
            Ok(headers) => headers,
            Err(error) => return Err(error),
        };
        Ok(UploadRequest { url: self.endpoint.clone(), headers, form })
    }

    /// The request that has the file at `path`, which holds `audio`, transcribed.
    pub fn transcribe_file(
        &self,
        path: &AudioPath,
        audio: Vec<u8>,
        options: TranscribeOptions,
    ) -> (r: Result<UploadRequest, CodexAsrError>)
        ensures
            self.requests(
                audio@,
                options.name_for(*path),
                options.type_for(*path),
                opt_text(options.language),
                r,
            ),
    {
        let content_type = match options.content_type {
            Some(content_type) => content_type,
            None => infer_content_type(path).to_owned(),
        };
        let filename = match options.filename {
            Some(filename) => filename,
            None => upload_filename(path, content_type.as_str()),
        };
        self.transcribe_bytes(audio, filename.as_str(), content_type.as_str(), options.language)
    }

    /// Whether `r` is what comes of a transcription: a content type that is no media type is
    /// refused first, then a login that cannot stand in a header; else the form goes to the
    /// endpoint with the headers of the client.
    pub open spec fn requests(
        &self,
        audio: Seq<u8>,
        filename: Seq<char>,
        content_type: Seq<char>,
        language: Option<Seq<char>>,
        r: Result<UploadRequest, CodexAsrError>,
    ) -> bool {
        match read_media_type(content_type) {
            None => r matches Err(CodexAsrError::BuildMultipart(_)),
            Some(media_type) => if !sendable(self@) {
                r matches Err(CodexAsrError::InvalidHeader(_))
            } else {
                &&& r matches Ok(request)
                &&& request.url@ == self@.endpoint
                &&& header_values(request.headers) == request_headers(self@)
                &&& form_fields(request.form) == upload_fields(
                    audio,
                    filename,
                    media_type,
                    language,
                )
            },
        }
    }
}

/// Whether the body of a failed reply, with its white space collapsed, can be cut without
/// parting a character.
pub open spec fn clippable(body: Seq<char>) -> bool {
    let bytes = encode_utf8(collapse(body));
    bytes.len() <= CLIP_BYTES || is_char_boundary(bytes, CLIP_BYTES as int)
}

/// The body of a failed reply with its white space collapsed, cut where it is long.
pub open spec fn clipped(body: Seq<char>) -> Seq<char> {
    let bytes = encode_utf8(collapse(body));
    if bytes.len() <= CLIP_BYTES {
        collapse(body)
    } else {
        decode_utf8(bytes.take(CLIP_BYTES as int))
    }
}

/// Whether a reply of the given status is a success.
pub open spec fn success(status: u16) -> bool {
    200 <= status < 300
}

/// Whether the body of a failed reply can be cut without parting a character.
pub fn can_clip(body: &str) -> (r: bool)
    ensures
        r == clippable(body@),
{
    let text = collapse_text(body);
    let s = text.as_str();
    s.as_bytes().len() <= CLIP_BYTES || s.is_char_boundary(CLIP_BYTES)
}

/// The body of a failed reply with its white space collapsed, cut where it is long.
pub fn clip_response_body(body: &str) -> (r: String)
    requires
        clippable(body@),
    ensures
        r@ == clipped(body@),
{
    let text = collapse_text(body);
    let s = text.as_str();
    if s.as_bytes().len() <= CLIP_BYTES {
        return text;
    }
    let (head, _) = s.split_at(CLIP_BYTES);
    proof {
        vstd::utf8::encode_utf8_decode_utf8(head@);
        let bytes = encode_utf8(s@);
        assert(bytes.subrange(0, CLIP_BYTES as int) =~= bytes.take(CLIP_BYTES as int));
    }
    head.to_owned()
}

/// Passes a reply that is a success; any other is an error with its status and body.
pub fn accept_status(status: u16, body: &str) -> (r: Result<(), CodexAsrError>)
    requires
        success(status) || clippable(body@),
    ensures
        match r {
            Ok(()) => success(status),
            Err(error) => !success(status) && (error matches CodexAsrError::Http {
                status: s,
                body: b,
            } && s == status && b@ == clipped(body@)),
        },
{
    if 200 <= status && status < 300 {
        Ok(())
    } else {
        Err(CodexAsrError::Http { status, body: clip_response_body(body) })
    }
}

/// What stands for the path of a reply that is no JSON document of the expected form.
pub const REPLY_PATH: &'static str = "<transcribe response>";

impl Transcription {
    /// The transcription in a reply, given what came of reading its text.
    pub fn from_reply(reply: Result<Option<String>, serde_json::Error>) -> (r: Result<
        Self,
        CodexAsrError,
    >)
        ensures
            match reply {
                Ok(Some(t)) => r matches Ok(transcription) && transcription.text == t,
                Ok(None) => r matches Err(CodexAsrError::MissingText),
                Err(e) => r matches Err(CodexAsrError::ParseAuth { path, source }) && path
                    == path_of(REPLY_PATH@) && source == e,
            },
    {
        match reply {
            Ok(Some(text)) => Ok(Transcription { text }),
            Ok(None) => Err(CodexAsrError::MissingText),
            Err(source) => Err(CodexAsrError::ParseAuth { path: path_buf(REPLY_PATH), source }),
        }
    }

    /// The transcription in a response of the given status and body, given what came of reading
    /// the text of the body. The status goes before all that the body says.
    pub fn from_response(
        status: u16,
        body: &str,
        reply: Result<Option<String>, serde_json::Error>,
    ) -> (r: Result<Self, CodexAsrError>)
        requires
            success(status) || clippable(body@),
        ensures
            if !success(status) {
                r matches Err(CodexAsrError::Http { status: s, body: b }) && s == status && b@
                    == clipped(body@)
            } else {
                match reply {
                    Ok(Some(t)) => r matches Ok(transcription) && transcription.text == t,
                    Ok(None) => r matches Err(CodexAsrError::MissingText),
                    Err(e) => r matches Err(CodexAsrError::ParseAuth { path, source }) && path
                        == path_of(REPLY_PATH@) && source == e,
                }
            },
    {
        match accept_status(status, body) {
            Ok(()) => Transcription::from_reply(reply),
            Err(error) => Err(error),
        }
    }
}

} // verus!
