//! What the decoding of SILK audio promises.


use vstd::prelude::*;

use crate::media::is_silk_path;
use crate::path::AudioPath;
use crate::promises::text::{all_digits, lemma_digits_unique, lemma_trims_to, number, trims_to};
use crate::silk::{
    check_decoded_len, check_decoder_run, decode_arguments, decode_command,
    fallback_silk_decoder_paths, find_on_path, first_existing, lemma_first_existing_add,
    resolve_silk_decoder, wants_silk_decode, Candidate, DecodeArgument, DecoderCandidates,
    DecoderError, SilkDecodeConfig,
};

verus! {

/// Audio is decoded where its path names SILK audio, unless that was switched off.
pub proof fn silk_is_decoded(path: AudioPath, config: SilkDecodeConfig, silk: bool, r: bool)
    requires
        call_ensures(is_silk_path, (&path,), silk),
        call_ensures(wants_silk_decode, (&path, &config), r),
    ensures
        config.no_decode ==> !r,
        !config.no_decode ==> r == silk,
{
}

/// Whether an argument is the given word.
pub open spec fn is_word(argument: DecodeArgument, word: Seq<char>) -> bool {
    argument matches DecodeArgument::Word(w) && w@ == word
}

proof fn lemma_arguments(config: SilkDecodeConfig, r: Vec<DecodeArgument>)
    requires
        call_ensures(decode_arguments, (&config,), r),
    ensures
        r@.len() == decode_command(config.sample_rate).len(),
        forall|i: int|
            0 <= i < r@.len() ==> (#[trigger] r@[i])@ == decode_command(config.sample_rate)[i],
{
    let all = r@.map_values(|a: DecodeArgument| a@);
    assert(all.len() == r@.len());
    assert forall|i: int| 0 <= i < r@.len() implies (#[trigger] r@[i])@ == decode_command(
        config.sample_rate,
    )[i] by {
        assert(all[i] == r@[i]@);
    }
}

/// The decoder reads the input, writes the output, and is told the very sample rate that was
/// configured: the digits behind `--sample-rate` spell it.
pub proof fn the_decoder_is_told_the_sample_rate(
    config: SilkDecodeConfig,
    digits: Seq<char>,
    r: Vec<DecodeArgument>,
)
    requires
        call_ensures(decode_arguments, (&config,), r),
        all_digits(digits),
        digits.len() > 1 ==> digits[0] != '0',
        number(digits) == config.sample_rate,
    ensures
        r@.len() == 8,
        is_word(r@[0], "decode"@),
        is_word(r@[1], "-i"@),
        r@[2] is Input,
        is_word(r@[3], "-o"@),
        r@[4] is Output,
        is_word(r@[5], "--sample-rate"@),
        is_word(r@[6], digits),
        is_word(r@[7], "--quiet"@),
{
    lemma_digits_unique(digits, config.sample_rate as nat);
    lemma_arguments(config, r);
    assert(decode_command(config.sample_rate).len() == 8);
    assert(r@[0]@ == decode_command(config.sample_rate)[0]);
    assert(r@[1]@ == decode_command(config.sample_rate)[1]);
    assert(r@[2]@ == decode_command(config.sample_rate)[2]);
    assert(r@[3]@ == decode_command(config.sample_rate)[3]);
    assert(r@[4]@ == decode_command(config.sample_rate)[4]);
    assert(r@[5]@ == decode_command(config.sample_rate)[5]);
    assert(r@[6]@ == decode_command(config.sample_rate)[6]);
    assert(r@[7]@ == decode_command(config.sample_rate)[7]);
}

/// Decoders that are told different sample rates are run with different arguments.
pub proof fn other_sample_rates_give_other_arguments(
    a: SilkDecodeConfig,
    b: SilkDecodeConfig,
    r: Vec<DecodeArgument>,
    q: Vec<DecodeArgument>,
)
    requires
        call_ensures(decode_arguments, (&a,), r),
        call_ensures(decode_arguments, (&b,), q),
        a.sample_rate != b.sample_rate,
    ensures
        r@[6] != q@[6],
{
    crate::promises::text::lemma_decimal(a.sample_rate as nat);
    crate::promises::text::lemma_decimal(b.sample_rate as nat);
    lemma_arguments(a, r);
    lemma_arguments(b, q);
    assert(r@[6]@ == decode_command(a.sample_rate)[6]);
    assert(q@[6]@ == decode_command(b.sample_rate)[6]);
}

/// A decoder that failed is reported with its status and with what it printed, first to its
/// error output: both trimmed, and neither where it is blank.
pub proof fn failed_decoders_are_reported(
    success: bool,
    status: &str,
    stderr: &str,
    stdout: &str,
    said: Seq<char>,
    printed: Seq<char>,
    r: Result<(), String>,
)
    requires
        call_ensures(check_decoder_run, (success, status, stderr, stdout), r),
        trims_to(stderr@, said),
        trims_to(stdout@, printed),
    ensures
        r is Ok <==> success,
        !success ==> {
            let head = "rust-silk decode failed with status "@ + status@;
            &&& said.len() == 0 && printed.len() == 0 ==> r->Err_0@ == head
            &&& said.len() > 0 && printed.len() == 0 ==> r->Err_0@ == head + ": "@ + said
            &&& said.len() == 0 && printed.len() > 0 ==> r->Err_0@ == head + ": "@ + printed
            &&& said.len() > 0 && printed.len() > 0 ==> r->Err_0@ == head + ": "@ + said + " "@
                + printed
        },
{
    lemma_trims_to(stderr@, said);
    lemma_trims_to(stdout@, printed);
    let head = "rust-silk decode failed with status "@ + status@ + ": "@;
    assert(head + (said + " "@ + printed) =~= head + said + " "@ + printed);
}

/// Decoded audio holds more than the header of a WAV file.
pub proof fn decoded_audio_is_more_than_a_header(len: u64, r: Result<(), &'static str>)
    requires
        call_ensures(check_decoded_len, (len,), r),
    ensures
        r is Ok <==> len > 44,
        r is Err ==> r->Err_0@ == "rust-silk decode produced an empty WAV"@,
{
}

proof fn lemma_first_existing<P>(candidates: Seq<Candidate<P>>, k: int)
    requires
        0 <= k <= candidates.len(),
        forall|i: int| 0 <= i < k ==> !(#[trigger] candidates[i]).exists,
        k < candidates.len() ==> candidates[k].exists,
    ensures
        k == candidates.len() ==> first_existing(candidates) is None,
        k < candidates.len() ==> first_existing(candidates) == Some(candidates[k].path),
    decreases candidates.len(),
{
    if k > 0 {
        assert(!candidates[0].exists);
        let rest = candidates.drop_first();
        assert forall|i: int| 0 <= i < k - 1 implies !(#[trigger] rest[i]).exists by {
            assert(rest[i] == candidates[i + 1]);
        }
        lemma_first_existing(rest, k - 1);
    }
}

/// The first candidate that exists is found.
pub proof fn the_first_candidate_is_found<P>(
    candidates: Vec<Candidate<P>>,
    k: int,
    r: Option<P>,
)
    requires
        call_ensures(find_on_path::<P>, (candidates,), r),
        0 <= k <= candidates@.len(),
        forall|i: int| 0 <= i < k ==> !(#[trigger] candidates@[i]).exists,
        k < candidates@.len() ==> candidates@[k].exists,
    ensures
        k == candidates@.len() ==> r is None,
        k < candidates@.len() ==> r == Some(candidates@[k].path),
{
    lemma_first_existing(candidates@, k);
}

/// A decoder that was asked for or configured is used where it exists, and no other is used in
/// its place; else one on the path goes before one in a build.
pub proof fn decoders_are_looked_up_in_order<P>(
    candidates: DecoderCandidates<P>,
    on_path: Option<P>,
    fallback: Option<P>,
    r: Result<P, DecoderError<P>>,
)
    requires
        call_ensures(resolve_silk_decoder::<P>, (candidates,), r),
        call_ensures(find_on_path::<P>, (candidates.on_path,), on_path),
        call_ensures(find_on_path::<P>, (candidates.fallback,), fallback),
    ensures
        candidates.explicit matches Some(c) ==> {
            &&& c.exists ==> r == Ok::<P, DecoderError<P>>(c.path)
            &&& !c.exists ==> r == Err::<P, DecoderError<P>>(DecoderError::ExplicitMissing(c.path))
        },
        candidates.explicit is None && candidates.configured is Some ==> {
            let c = candidates.configured->0;
            &&& c.exists ==> r == Ok::<P, DecoderError<P>>(c.path)
            &&& !c.exists ==> r == Err::<P, DecoderError<P>>(
                DecoderError::ConfiguredMissing(c.path),
            )
        },
        candidates.explicit is None && candidates.configured is None ==> {
            &&& on_path is Some ==> r == Ok::<P, DecoderError<P>>(on_path->0)
            &&& on_path is None && fallback is Some ==> r == Ok::<P, DecoderError<P>>(fallback->0)
            &&& on_path is None && fallback is None ==> r == Err::<P, DecoderError<P>>(
                DecoderError::NotFound,
            )
        },
{
    lemma_first_existing_add(candidates.on_path@, candidates.fallback@);
}

/// The two builds below the home directory, that of the release profile first.
pub proof fn builds_are_below_the_home_directory(has_home: bool, r: Vec<Vec<String>>, i: int)
    requires
        call_ensures(fallback_silk_decoder_paths, (has_home,), r),
        0 <= i < 2,
    ensures
        !has_home ==> r@.len() == 0,
        has_home ==> {
            &&& r@.len() == 2
            &&& r@[i]@.len() == 4
            &&& r@[i]@[0]@ == "rust-silk"@
            &&& r@[i]@[1]@ == "target"@
            &&& r@[i]@[2]@ == if i == 0 {
                "release"@
            } else {
                "debug"@
            }
            &&& r@[i]@[3]@ == "rust-silk"@
        },
{
    if has_home {
        let steps = r@[i]@.map_values(|c: String| c@);
        assert(steps == crate::silk::build_path(
            if i == 0 {
                "release"@
            } else {
                "debug"@
            },
        ));
        assert(steps.len() == r@[i]@.len());
        assert(steps[0] == r@[i]@[0]@);
        assert(steps[1] == r@[i]@[1]@);
        assert(steps[2] == r@[i]@[2]@);
        assert(steps[3] == r@[i]@[3]@);
    }
}

/// A decoder that is missing is reported with where it was looked for.
pub proof fn missing_decoders_are_reported<P>(error: DecoderError<P>, shown: &str, r: String)
    requires
        call_ensures(DecoderError::<P>::words, (&error, shown), r),
    ensures
        error is ExplicitMissing ==> r@ == "rust-silk decoder not found at "@ + shown@,
        error is ConfiguredMissing ==> r@ == "CODEX_ASR_SILK_DECODER points to missing file "@
            + shown@,
        error is NotFound ==> r@
            == "input is .silk, but rust-silk was not found; pass --silk-decoder or set CODEX_ASR_SILK_DECODER"@,
{
}

} // verus!
