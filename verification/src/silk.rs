//! SILK audio: when it is decoded, by which program, and what comes of that.

use std::path::PathBuf;

use vstd::prelude::*;

use crate::media::{is_silk_path, silk_path};
use crate::path::AudioPath;
use crate::text::{decimal, decimal_text, trim, trim_text};

verus! {

/// How SILK audio is decoded.
#[derive(Debug, Clone)]
pub struct SilkDecodeConfig {
    /// The decoder to use, where it is not to be searched for.
    pub decoder: Option<PathBuf>,
    /// The sample rate of the decoded audio.
    pub sample_rate: u32,
    /// Whether SILK audio is uploaded as it is.
    pub no_decode: bool,
}

/// The length of the header of a WAV file: one that is no longer holds no samples.
pub const WAV_HEADER_LEN: u64 = 44;

/// Whether the audio at `path` is decoded before it is uploaded.
pub fn wants_silk_decode(path: &AudioPath, config: &SilkDecodeConfig) -> (r: bool)
    ensures
        r == (!config.no_decode && silk_path(path@)),
{
    !config.no_decode && is_silk_path(path)
}

/// One argument of the decoder: a word, or the path of its input or output.
#[derive(Debug, Clone)]
pub enum DecodeArgument {
    Word(String),
    Input,
    Output,
}

/// One argument of the decoder, its word as a sequence of characters.
pub ghost enum ArgumentParts {
    Word(Seq<char>),
    Input,
    Output,
}

impl View for DecodeArgument {
    type V = ArgumentParts;

    open spec fn view(&self) -> ArgumentParts {
        match self {
            DecodeArgument::Word(word) => ArgumentParts::Word(word@),
            DecodeArgument::Input => ArgumentParts::Input,
            DecodeArgument::Output => ArgumentParts::Output,
        }
    }
}

/// The ending of the name of the file that the decoder writes.
pub const DECODED_SUFFIX: &'static str = ".wav";

/// The arguments with which the decoder is run.
pub open spec fn decode_command(sample_rate: u32) -> Seq<ArgumentParts> {
    seq![
        ArgumentParts::Word("decode"@),
        ArgumentParts::Word("-i"@),
        ArgumentParts::Input,
        ArgumentParts::Word("-o"@),
        ArgumentParts::Output,
        ArgumentParts::Word("--sample-rate"@),
        ArgumentParts::Word(decimal(sample_rate as nat)),
        ArgumentParts::Word("--quiet"@),
    ]
}

/// The arguments with which the decoder is run.
pub fn decode_arguments(config: &SilkDecodeConfig) -> (r: Vec<DecodeArgument>)
    ensures
        r@.map_values(|a: DecodeArgument| a@) == decode_command(config.sample_rate),
{
    let mut r: Vec<DecodeArgument> = Vec::new();
    r.push(DecodeArgument::Word("decode".to_owned()));
    r.push(DecodeArgument::Word("-i".to_owned()));
    r.push(DecodeArgument::Input);
    r.push(DecodeArgument::Word("-o".to_owned()));
    r.push(DecodeArgument::Output);
    r.push(DecodeArgument::Word("--sample-rate".to_owned()));
    r.push(DecodeArgument::Word(decimal_text(config.sample_rate as u64)));
    r.push(DecodeArgument::Word("--quiet".to_owned()));
    assert(r@.map_values(|a: DecodeArgument| a@) =~= decode_command(config.sample_rate));
    r
}

/// What a failed decoder said: what it printed to its error output and to its output, trimmed,
/// with a space between them where both said something.
pub open spec fn decoder_detail(stderr: Seq<char>, stdout: Seq<char>) -> Seq<char> {
    if trim(stderr).len() > 0 && trim(stdout).len() > 0 {
        trim(stderr) + " "@ + trim(stdout)
    } else if trim(stderr).len() > 0 {
        trim(stderr)
    } else {
        trim(stdout)
    }
}

/// What is reported of a failed decoder.
pub open spec fn decoder_failure(status: Seq<char>, stderr: Seq<char>, stdout: Seq<char>) -> Seq<
    char,
> {
    let detail = decoder_detail(stderr, stdout);
    let head = "rust-silk decode failed with status "@ + status;
    if detail.len() == 0 {
        head
    } else {
        head + ": "@ + detail
    }
}

/// Passes a decoder that succeeded; of any other, what is reported of it.
pub fn check_decoder_run(success: bool, status: &str, stderr: &str, stdout: &str) -> (r: Result<
    (),
    String,
>)
    ensures
        match r {
            Ok(()) => success,
            Err(message) => !success && message@ == decoder_failure(status@, stderr@, stdout@),
        },
{
    if success {
        return Ok(());
    }
    let said = trim_text(stderr);
    let printed = trim_text(stdout);
    let mut message: String = "rust-silk decode failed with status ".to_owned();
    message.append(status);
    if !said.as_str().is_empty() && !printed.as_str().is_empty() {
        message.append(": ");
        message.append(said.as_str());
        message.append(" ");
        message.append(printed.as_str());
        let ghost head = "rust-silk decode failed with status "@ + status@ + ": "@;
        assert(head + said@ + " "@ + printed@ =~= head + (said@ + " "@ + printed@));
    } else if !said.as_str().is_empty() {
        message.append(": ");
        message.append(said.as_str());
    } else if !printed.as_str().is_empty() {
        message.append(": ");
        message.append(printed.as_str());
    }
    Err(message)
}

/// Passes decoded audio that holds samples, given the length of its file.
pub fn check_decoded_len(len: u64) -> (r: Result<(), &'static str>)
    ensures
        match r {
            Ok(()) => len > WAV_HEADER_LEN,
            Err(message) => len <= WAV_HEADER_LEN && message@
                == "rust-silk decode produced an empty WAV"@,
        },
{
    if len <= WAV_HEADER_LEN {
        Err("rust-silk decode produced an empty WAV")
    } else {
        Ok(())
    }
}

/// A place where a program may be, and whether there is a file.
#[derive(Debug)]
pub struct Candidate<P> {
    pub path: P,
    pub exists: bool,
}

/// The first of the candidates that exists.
pub open spec fn first_existing<P>(candidates: Seq<Candidate<P>>) -> Option<P>
    decreases candidates.len(),
{
    if candidates.len() == 0 {
        None
    } else if candidates[0].exists {
        Some(candidates[0].path)
    } else {
        first_existing(candidates.drop_first())
    }
}

/// Where the decoder can be.
#[derive(Debug)]
pub struct DecoderCandidates<P> {
    /// The one that was asked for.
    pub explicit: Option<Candidate<P>>,
    /// The one that `CODEX_ASR_SILK_DECODER` names.
    pub configured: Option<Candidate<P>>,
    /// `rust-silk` in each directory of `PATH`.
    pub on_path: Vec<Candidate<P>>,
    /// `rust-silk` where a build below the home directory leaves it.
    pub fallback: Vec<Candidate<P>>,
}

/// What is said where no decoder was found.
pub const DECODER_NEEDED: &'static str =
    "input is .silk, but rust-silk was not found; pass --silk-decoder or set CODEX_ASR_SILK_DECODER";

/// Why there is no decoder.
#[derive(Debug)]
pub enum DecoderError<P> {
    ExplicitMissing(P),
    ConfiguredMissing(P),
    NotFound,
}

impl<P> DecoderError<P> {
    /// What is reported where there is no decoder, given how the path is shown.
    pub open spec fn report(self, shown: Seq<char>) -> Seq<char> {
        match self {
            DecoderError::ExplicitMissing(_) => "rust-silk decoder not found at "@ + shown,
            DecoderError::ConfiguredMissing(_) => {
                "CODEX_ASR_SILK_DECODER points to missing file "@ + shown
            },
            DecoderError::NotFound => DECODER_NEEDED@,
        }
    }

    /// What is reported where there is no decoder, given how the path is shown.
    pub fn words(&self, shown: &str) -> (r: String)
        ensures
            r@ == self.report(shown@),
    {
        match self {
            DecoderError::ExplicitMissing(_) => {
                let mut message: String = "rust-silk decoder not found at ".to_owned();
                message.append(shown);
                message
            },
            DecoderError::ConfiguredMissing(_) => {
                let mut message: String = "CODEX_ASR_SILK_DECODER points to missing file "
                    .to_owned();
                message.append(shown);
                message
            },
            DecoderError::NotFound => DECODER_NEEDED.to_owned(),
        }
    }
}

impl<P> DecoderCandidates<P> {
    /// The decoder that was asked for or configured must exist; else the first that exists on
    /// the path counts, and then the first fallback that exists.
    pub open spec fn choice(self) -> Result<P, DecoderError<P>> {
        match (self.explicit, self.configured) {
            (Some(candidate), _) => if candidate.exists {
                Ok(candidate.path)
            } else {
                Err(DecoderError::ExplicitMissing(candidate.path))
            },
            (None, Some(candidate)) => if candidate.exists {
                Ok(candidate.path)
            } else {
                Err(DecoderError::ConfiguredMissing(candidate.path))
            },
            (None, None) => match first_existing(self.on_path@ + self.fallback@) {
                Some(path) => Ok(path),
                None => Err(DecoderError::NotFound),
            },
        }
    }
}

/// The first of two lists of candidates goes before the second.
pub proof fn lemma_first_existing_add<P>(a: Seq<Candidate<P>>, b: Seq<Candidate<P>>)
    ensures
        first_existing(a + b) == match first_existing(a) {
            Some(path) => Some(path),
            None => first_existing(b),
        },
    decreases a.len(),
{
    if a.len() == 0 {
        assert(a + b =~= b);
    } else {
        assert((a + b)[0] == a[0]);
        assert((a + b).drop_first() =~= a.drop_first() + b);
        lemma_first_existing_add(a.drop_first(), b);
    }
}

/// The first of the candidates that exists.
pub fn find_on_path<P>(candidates: Vec<Candidate<P>>) -> (r: Option<P>)
    ensures
        r == first_existing(candidates@),
{
    let mut rest = candidates;
    let ghost all = candidates@;
    let mut i: usize = 0;
    let n: usize = rest.len();
    assert(all.skip(0) =~= all);
    while i < n
        invariant
            all == candidates@,
            rest@ == all,
            n == all.len(),
            i <= n,
            first_existing(all) == first_existing(all.skip(i as int)),
        decreases n - i,
    {
        assert(all.skip(i as int)[0] == all[i as int]);
        if rest[i].exists {
            let found = rest.swap_remove(i);
            return Some(found.path);
        }
        assert(all.skip(i as int).drop_first() =~= all.skip(i + 1));
        i = i + 1;
    }
    None
}

/// The decoder to use.
pub fn resolve_silk_decoder<P>(candidates: DecoderCandidates<P>) -> (r: Result<P, DecoderError<P>>)
    ensures
        r == candidates.choice(),
{
    proof {
        lemma_first_existing_add(candidates.on_path@, candidates.fallback@);
    }
    if let Some(candidate) = candidates.explicit {
        return if candidate.exists {
            Ok(candidate.path)
        } else {
            Err(DecoderError::ExplicitMissing(candidate.path))
        };
    }
    if let Some(candidate) = candidates.configured {
        return if candidate.exists {
            Ok(candidate.path)
        } else {
            Err(DecoderError::ConfiguredMissing(candidate.path))
        };
    }
    if let Some(path) = find_on_path(candidates.on_path) {
        return Ok(path);
    }
    match find_on_path(candidates.fallback) {
        Some(path) => Ok(path),
        None => Err(DecoderError::NotFound),
    }
}

/// The components that lead from the home directory to the decoder in a build of the given
/// profile.
pub open spec fn build_path(profile: Seq<char>) -> Seq<Seq<char>> {
    seq!["rust-silk"@, "target"@, profile, "rust-silk"@]
}

/// The components that lead from the home directory to the decoder in a build of the given
/// profile.
fn build_components(profile: &str) -> (r: Vec<String>)
    ensures
        r@.map_values(|c: String| c@) == build_path(profile@),
{
    let mut r: Vec<String> = Vec::new();
    r.push("rust-silk".to_owned());
    r.push("target".to_owned());
    r.push(profile.to_owned());
    r.push("rust-silk".to_owned());
    assert(r@.map_values(|c: String| c@) =~= build_path(profile@));
    r
}

/// Where builds of the decoder are below the home directory, where there is one: that of the
/// release profile, then that of the debug profile.
pub fn fallback_silk_decoder_paths(has_home: bool) -> (r: Vec<Vec<String>>)
    ensures
        has_home ==> {
            &&& r@.len() == 2
            &&& r@[0]@.map_values(|c: String| c@) == build_path("release"@)
            &&& r@[1]@.map_values(|c: String| c@) == build_path("debug"@)
        },
        !has_home ==> r@.len() == 0,
{
    let mut r: Vec<Vec<String>> = Vec::new();
    if has_home {
        r.push(build_components("release"));
        r.push(build_components("debug"));
    }
    r
}

} // verus!
