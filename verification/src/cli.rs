//! The command line: what it asks for, and the settings that follow from it.

use std::path::PathBuf;

use vstd::pervasive::unreached;
use vstd::prelude::*;

use crate::auth::{bearer_token, token_account, AuthFile, AuthOutcome, CodexAuth};
use crate::client::{
    agent, ClientParts, CodexAsrClient, CodexAsrClientBuilder, Platform, TranscribeOptions,
    DEFAULT_ORIGINATOR,
};
use crate::error::CodexAsrError;
use crate::http::{default_limits, Limits};
use crate::media::{decoded_name, decoded_wav_filename};
use crate::path::{opt_text, AudioPath};
use crate::proxy::{first_setting, resolve_proxy, ProxyEnvironment};
use crate::server::{resolve_server_api_key, server_key};
use crate::silk::SilkDecodeConfig;
use crate::text::{decimal, decimal_text};

verus! {

/// The host to which the server binds by default: the loopback interface.
pub const DEFAULT_HOST: &'static str = "127.0.0.1";

/// The port to which the server binds by default.
pub const DEFAULT_PORT: u16 = 8788;

/// The number of transcriptions that the server has in flight at most, by default.
pub const DEFAULT_CONCURRENCY: usize = 16;

/// The sample rate of decoded SILK audio by default.
pub const DEFAULT_SILK_SAMPLE_RATE: u32 = 24000;

/// A command line.
#[derive(Debug)]
pub struct Cli {
    pub command: Option<Command>,
    /// The audio to transcribe where there is no command.
    pub audio: Option<PathBuf>,
    pub bearer: Option<String>,
    pub account_id: Option<String>,
    pub auth_file: Option<PathBuf>,
    pub endpoint: String,
    pub proxy: Option<String>,
    pub language: Option<String>,
    pub content_type: Option<String>,
    pub filename: Option<String>,
    pub silk_decoder: Option<PathBuf>,
    pub silk_sample_rate: u32,
    pub no_silk_decode: bool,
    pub json: bool,
}

/// A command.
#[derive(Debug)]
pub enum Command {
    Transcribe { audio: PathBuf },
    Serve {
        host: String,
        port: u16,
        api_key: Option<String>,
        no_api_key: bool,
        concurrency: usize,
    },
}

/// What a command line has done.
#[derive(Debug)]
pub enum Run {
    Serve,
    Transcribe { audio: PathBuf },
    /// Show how the program is used.
    Help,
}

/// Decides what a command line has done: the command goes before the audio.
pub fn run(cli: &Cli) -> (r: Run)
    ensures
        r == match cli.command {
            Some(Command::Serve { .. }) => Run::Serve,
            Some(Command::Transcribe { audio }) => Run::Transcribe { audio },
            None => match cli.audio {
                Some(audio) => Run::Transcribe { audio },
                None => Run::Help,
            },
        },
{
    match &cli.command {
        Some(Command::Serve { .. }) => Run::Serve,
        Some(Command::Transcribe { audio }) => Run::Transcribe { audio: audio.clone() },
        None => match &cli.audio {
            Some(audio) => Run::Transcribe { audio: audio.clone() },
            None => Run::Help,
        },
    }
}

/// Where the login comes from.
#[derive(Debug)]
pub enum AuthSource {
    Bearer { token: String, account_id: Option<String> },
    File { path: PathBuf, account_id: Option<String> },
    /// The login file of the desktop application.
    CodexHome { account_id: Option<String> },
}

/// Decides where the login comes from: a bearer on the command line or in the environment, then
/// a login file that was named, then that of the desktop application. The account on the command
/// line goes with each.
pub fn load_auth(cli: &Cli, environment_bearer: Option<String>) -> (r: AuthSource)
    ensures
        match (cli.bearer, environment_bearer, cli.auth_file) {
            (Some(token), _, _) => r == (AuthSource::Bearer { token, account_id: cli.account_id }),
            (None, Some(token), _) => r == (AuthSource::Bearer {
                token,
                account_id: cli.account_id,
            }),
            (None, None, Some(path)) => r == (AuthSource::File {
                path,
                account_id: cli.account_id,
            }),
            (None, None, None) => r == (AuthSource::CodexHome { account_id: cli.account_id }),
        },
{
    let bearer = match &cli.bearer {
        Some(token) => Some(token.clone()),
        None => environment_bearer,
    };
    if let Some(token) = bearer {
        return AuthSource::Bearer { token, account_id: cli.account_id.clone() };
    }
    match &cli.auth_file {
        Some(path) => AuthSource::File {
            path: path.clone(),
            account_id: cli.account_id.clone(),
        },
        None => AuthSource::CodexHome { account_id: cli.account_id.clone() },
    }
}

impl AuthSource {
    /// The login file to read, given where that of the desktop application is. There is none
    /// for a bearer.
    pub fn file(&self, codex_home_file: PathBuf) -> (r: Option<PathBuf>)
        ensures
            r == match *self {
                AuthSource::Bearer { .. } => None,
                AuthSource::File { path, .. } => Some(path),
                AuthSource::CodexHome { .. } => Some(codex_home_file),
            },
    {
        match self {
            AuthSource::Bearer { .. } => None,
            AuthSource::File { path, .. } => Some(path.clone()),
            AuthSource::CodexHome { .. } => Some(codex_home_file),
        }
    }

    /// The account that was asked for.
    pub open spec fn account(self) -> Option<Seq<char>> {
        match self {
            AuthSource::Bearer { token: _, account_id } => opt_text(account_id),
            AuthSource::File { path: _, account_id } => opt_text(account_id),
            AuthSource::CodexHome { account_id } => opt_text(account_id),
        }
    }

    /// The login, given the path of the login file and what it holds, unless it is a bearer. The
    /// account that was asked for goes before any other.
    pub fn login(&self, file: Option<(PathBuf, AuthFile)>) -> (r: Result<CodexAuth, CodexAsrError>)
        requires
            self is Bearer || file is Some,
        ensures
            match (*self, file) {
                (AuthSource::Bearer { token, account_id: _ }, _) => match bearer_token(token@) {
                    None => r matches Err(CodexAsrError::InvalidBearer),
                    Some(bare) => {
                        &&& r matches Ok(auth)
                        &&& auth.access_token@ == bare
                        &&& opt_text(auth.account_id) == match self.account() {
                            Some(account) => Some(account),
                            None => token_account(bare),
                        }
                        &&& auth.path is None
                    },
                },
                (_, Some((path, held))) => match held.outcome() {
                    AuthOutcome::UnsupportedMode(mode) => r matches Err(
                        CodexAsrError::UnsupportedAuthMode { mode: m },
                    ) && m@ == mode,
                    AuthOutcome::NoToken => r matches Err(
                        CodexAsrError::MissingAccessToken { path: p },
                    ) && p == path,
                    AuthOutcome::Login { access_token, account_id } => {
                        &&& r matches Ok(auth)
                        &&& auth.access_token@ == access_token
                        &&& opt_text(auth.account_id) == match self.account() {
                            Some(account) => Some(account),
                            None => account_id,
                        }
                        &&& auth.path == Some(path)
                    },
                },
                (_, None) => false,
            },
    {
        match (self, file) {
            (AuthSource::Bearer { token, account_id }, _) => CodexAuth::from_bearer(
                token.as_str(),
                account_id.clone(),
            ),
            (AuthSource::File { path: _, account_id }, Some((path, file))) => {
                match CodexAuth::from_auth_file(path, file) {
                    Ok(auth) => Ok(auth.with_account(account_id.clone())),
                    Err(error) => Err(error),
                }
            },
            (AuthSource::CodexHome { account_id }, Some((path, file))) => {
                match CodexAuth::from_codex_home(path, file) {
                    Ok(auth) => Ok(auth.with_account(account_id.clone())),
                    Err(error) => Err(error),
                }
            },
            _ => unreached(),
        }
    }
}

/// The proxy for the client: the one on the command line, or else the first setting that is not
/// blank.
pub fn client_proxy(cli: &Cli, environment: &ProxyEnvironment) -> (r: Option<String>)
    ensures
        opt_text(r) == match cli.proxy {
            Some(proxy) => Some(proxy@),
            None => first_setting(seq![None] + environment.settings()),
        },
{
    match &cli.proxy {
        Some(proxy) => Some(proxy.clone()),
        None => resolve_proxy(None, environment),
    }
}

/// The number of seconds within which a server reaches the endpoint, or gives up.
pub const UPSTREAM_CONNECT_TIMEOUT: u32 = 10;

/// The number of seconds within which a server has the reply of the endpoint, or gives up.
pub const UPSTREAM_REQUEST_TIMEOUT: u32 = 120;

/// How long the client waits that a command line asks for: that of a server has limits of its
/// own.
pub open spec fn client_limits_for(cli: Cli) -> Limits {
    if cli.command matches Some(Command::Serve { .. }) {
        Limits {
            connect: Some(UPSTREAM_CONNECT_TIMEOUT as nat),
            request: Some(UPSTREAM_REQUEST_TIMEOUT as nat),
        }
    } else {
        default_limits()
    }
}

/// The builder of the client that a command line asks for, with the given login on the given
/// machine.
pub fn configure_client(cli: &Cli, auth: CodexAuth, platform: &Platform) -> (r:
    CodexAsrClientBuilder)
    ensures
        r@ == (ClientParts {
            auth,
            endpoint: cli.endpoint@,
            originator: DEFAULT_ORIGINATOR@,
            user_agent: agent(platform.version(), platform.os@, platform.arch@),
        }),
        r.chosen_proxy() == match cli.proxy {
            Some(proxy) => Some(proxy@),
            None => first_setting(seq![None] + platform.proxies.settings()),
        },
        r.limits() == client_limits_for(*cli),
{
    let builder = CodexAsrClient::builder(auth, platform).endpoint(cli.endpoint.clone()).proxy(
        client_proxy(cli, &platform.proxies),
    );
    match &cli.command {
        Some(Command::Serve { .. }) => builder.timeouts(
            UPSTREAM_CONNECT_TIMEOUT,
            UPSTREAM_REQUEST_TIMEOUT,
        ),
        _ => builder,
    }
}

impl SilkDecodeConfig {
    /// How SILK audio is decoded, by the command line.
    pub fn from_cli(cli: &Cli) -> (r: Self)
        ensures
            r.decoder == cli.silk_decoder,
            r.sample_rate == cli.silk_sample_rate,
            r.no_decode == cli.no_silk_decode,
    {
        SilkDecodeConfig {
            decoder: cli.silk_decoder.clone(),
            sample_rate: cli.silk_sample_rate,
            no_decode: cli.no_silk_decode,
        }
    }
}

/// The options with which the audio at `path` is transcribed, given whether it was decoded to
/// WAV. The file name on the command line goes before that of the decoded file.
pub fn transcribe_options(cli: &Cli, path: &AudioPath, decoded: bool) -> (r: TranscribeOptions)
    ensures
        opt_text(r.language) == opt_text(cli.language),
        opt_text(r.content_type) == if decoded {
            Some("audio/wav"@)
        } else {
            opt_text(cli.content_type)
        },
        opt_text(r.filename) == match cli.filename {
            Some(filename) => Some(filename@),
            None => if decoded {
                Some(decoded_name(path@))
            } else {
                None
            },
        },
{
    let filename = match &cli.filename {
        Some(filename) => Some(filename.clone()),
        None => if decoded {
            Some(decoded_wav_filename(path))
        } else {
            None
        },
    };
    let content_type = if decoded {
        Some("audio/wav".to_owned())
    } else {
        cli.content_type.clone()
    };
    TranscribeOptions { language: cli.language.clone(), content_type, filename }
}

/// What is said to a server that may have no transcription in flight.
pub const CONCURRENCY_NEEDED: &'static str = "--concurrency must be greater than 0";

/// The settings of a server.
#[derive(Debug)]
pub struct ServeConfig {
    /// Host and port.
    pub address: String,
    /// The key that requests have to show, where one is needed.
    pub api_key: Option<String>,
    pub concurrency: usize,
}

/// The settings of the server that a command line starts, given the key in the environment. A
/// server that may have no transcription in flight is refused, and then one without a key.
pub fn run_serve(cli: &Cli, environment_key: Option<String>) -> (r: Result<
    ServeConfig,
    &'static str,
>)
    requires
        cli.command matches Some(Command::Serve { .. }),
    ensures
        cli.command matches Some(Command::Serve { host, port, api_key, no_api_key, concurrency })
            && if concurrency == 0 {
            r matches Err(message) && message@ == CONCURRENCY_NEEDED@
        } else {
            match server_key(opt_text(api_key), opt_text(environment_key), no_api_key) {
                Ok(key) => {
                    &&& r matches Ok(config)
                    &&& config.address@ == host@ + ":"@ + decimal(port as nat)
                    &&& opt_text(config.api_key) == key
                    &&& config.concurrency == concurrency
                },
                Err(needed) => r matches Err(message) && message@ == needed,
            }
        },
{
    match &cli.command {
        Some(Command::Serve { host, port, api_key, no_api_key, concurrency }) => {
            if *concurrency == 0 {
                return Err(CONCURRENCY_NEEDED);
            }
            match resolve_server_api_key(api_key.clone(), environment_key, *no_api_key) {
                Ok(key) => {
                    let mut address: String = host.clone();
                    address.append(":");
                    address.append(decimal_text(*port as u64).as_str());
                    Ok(ServeConfig { address, api_key: key, concurrency: *concurrency })
                },
                Err(message) => Err(message),
            }
        },
        _ => unreached(),
    }
}

} // verus!
