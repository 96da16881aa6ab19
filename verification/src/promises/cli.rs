//! What the command line promises.

use vstd::prelude::*;

use crate::auth::CodexAuth;
use crate::cli::{
    client_proxy, configure_client, run, run_serve, transcribe_options, Cli, Command, Run,
    ServeConfig, DEFAULT_CONCURRENCY, DEFAULT_HOST, DEFAULT_PORT, DEFAULT_SILK_SAMPLE_RATE,
};
use crate::client::{
    CodexAsrClient, CodexAsrClientBuilder, Platform, TranscribeOptions, DEFAULT_ENDPOINT,
    DEFAULT_ORIGINATOR,
};
use crate::media::decoded_wav_filename;
use crate::path::AudioPath;
use crate::promises::login::alike;
use crate::promises::text::{all_digits, gives, lemma_digits_unique, number};
use crate::proxy::{resolve_proxy, ProxyEnvironment};
use crate::server::resolve_server_api_key;
use crate::silk::{SilkDecodeConfig, DECODED_SUFFIX};

verus! {

/// A command goes before audio that is named without one; with neither, help is shown.
pub proof fn commands_go_first(cli: Cli, r: Run)
    requires
        call_ensures(run, (&cli,), r),
    ensures
        cli.command matches Some(Command::Transcribe { audio }) ==> r == (Run::Transcribe {
            audio,
        }),
        cli.command is Some && cli.command->0 is Serve ==> r is Serve,
        cli.command is None && cli.audio is Some ==> r == (Run::Transcribe {
            audio: cli.audio->0,
        }),
        cli.command is None && cli.audio is None ==> r is Help,
{
}

/// A server binds to loopback at port 8788 with sixteen transcriptions in flight, and SILK audio
/// is decoded to 24000 samples a second into a file of its own, unless something else is asked
/// for.
pub proof fn the_defaults_are_fixed()
    ensures
        DEFAULT_HOST@ == "127.0.0.1"@,
        DEFAULT_PORT == 8788,
        DEFAULT_CONCURRENCY == 16,
        DEFAULT_SILK_SAMPLE_RATE == 24000,
        DECODED_SUFFIX@ == ".wav"@,
        DEFAULT_ENDPOINT@ == "https://chatgpt.com/backend-api/transcribe"@,
        DEFAULT_ORIGINATOR@ == "Codex Desktop"@,
{
}

/// A proxy on the command line is taken as it is; else the settings of the machine count.
pub proof fn the_proxy_on_the_command_line_counts(
    cli: Cli,
    environment: ProxyEnvironment,
    set: Option<String>,
    r: Option<String>,
    config: SilkDecodeConfig,
)
    requires
        call_ensures(client_proxy, (&cli, &environment), r),
        call_ensures(resolve_proxy, (None, &environment), set),
        call_ensures(SilkDecodeConfig::from_cli, (&cli,), config),
    ensures
        cli.proxy is Some ==> alike(r, cli.proxy),
        cli.proxy is None ==> alike(r, set),
        config.decoder == cli.silk_decoder,
        config.sample_rate == cli.silk_sample_rate,
        config.no_decode == cli.no_silk_decode,
{
    assert(seq![None] + environment.settings() =~= seq![crate::proxy::opt_str(None)]
        + environment.settings());
}

/// A client is configured with the endpoint and the proxy of the command line, the login and the
/// machine, and with timeouts of its own where it is that of a server.
pub proof fn clients_are_configured(
    cli: Cli,
    auth: CodexAuth,
    platform: Platform,
    proxy: Option<String>,
    a: CodexAsrClientBuilder,
    b: CodexAsrClientBuilder,
    c: CodexAsrClientBuilder,
    d: CodexAsrClientBuilder,
    r: CodexAsrClientBuilder,
    endpoint: String,
)
    requires
        call_ensures(configure_client, (&cli, auth, &platform), r),
        call_ensures(client_proxy, (&cli, &platform.proxies), proxy),
        call_ensures(CodexAsrClient::builder, (auth, &platform), a),
        endpoint@ == cli.endpoint@,
        call_ensures(CodexAsrClientBuilder::endpoint, (a, endpoint), b),
        call_ensures(CodexAsrClientBuilder::proxy, (b, proxy), c),
        call_ensures(CodexAsrClientBuilder::timeouts, (c, 10u32, 120u32), d),
    ensures
        r@ == c@,
        r@.auth == auth,
        r@.endpoint == cli.endpoint@,
        r.chosen_proxy() == c.chosen_proxy(),
        cli.command is Some && cli.command->0 is Serve ==> r.limits() == d.limits(),
        cli.command is None || !(cli.command->0 is Serve) ==> r.limits() == c.limits(),
{
    assert(r@ =~= c@);
}

/// The options on the command line count: the file name before that of a decoded file, and the
/// content type unless the file was decoded to WAV.
pub proof fn the_options_on_the_command_line_count(
    cli: Cli,
    path: AudioPath,
    decoded: bool,
    wav: String,
    r: TranscribeOptions,
)
    requires
        call_ensures(transcribe_options, (&cli, &path, decoded), r),
        call_ensures(decoded_wav_filename, (&path,), wav),
    ensures
        alike(r.language, cli.language),
        decoded ==> gives(r.content_type, "audio/wav"@),
        !decoded ==> alike(r.content_type, cli.content_type),
        cli.filename is Some ==> alike(r.filename, cli.filename),
        cli.filename is None && decoded ==> gives(r.filename, wav@),
        cli.filename is None && !decoded ==> r.filename is None,
{
}

/// A server binds to the host and port of the command line, with the key that counts and with
/// room for as many transcriptions as it says; it is refused where that is none, and then where
/// it has no key.
pub proof fn servers_are_configured(
    cli: Cli,
    environment: Option<String>,
    host: String,
    port: u16,
    digits: Seq<char>,
    api_key: Option<String>,
    no_api_key: bool,
    concurrency: usize,
    key: Result<Option<String>, &'static str>,
    r: Result<ServeConfig, &'static str>,
)
    requires
        cli.command == Some(
            (Command::Serve { host, port, api_key, no_api_key, concurrency }),
        ),
        call_ensures(run_serve, (&cli, environment), r),
        call_ensures(resolve_server_api_key, (api_key, environment, no_api_key), key),
        all_digits(digits),
        digits.len() > 1 ==> digits[0] != '0',
        number(digits) == port,
    ensures
        concurrency == 0 ==> r is Err && r->Err_0@ == "--concurrency must be greater than 0"@,
        concurrency > 0 && key is Err ==> r is Err && r->Err_0@ == key->Err_0@,
        concurrency > 0 && key is Ok ==> {
            &&& r is Ok
            &&& r->Ok_0.address@ == host@ + seq![':'] + digits
            &&& alike(r->Ok_0.api_key, key->Ok_0)
            &&& r->Ok_0.concurrency == concurrency
        },
{
    lemma_digits_unique(digits, port as nat);
    reveal_strlit(":");
    assert(":"@ =~= seq![':']);
}

} // verus!
