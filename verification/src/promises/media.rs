//! What the operations on audio formats promise.

use vstd::prelude::*;

use crate::media::{
    audio_type_for_content_type, decoded_wav_filename, essence, extension_for_content_type,
    has_recognized_audio_extension, infer_content_type, is_generic_content_type, is_silk_path,
    looks_like_mp3_frame, normalize_upload_metadata, sanitize_filename, sniff_audio, stands_at,
    upload_filename, upload_suffix, AudioType,
};
use crate::path::AudioPath;
use crate::promises::text::{
    blank, lemma_blank, lemma_lowers_to, lemma_trims_to, lowers_to, trims_to,
};
use crate::text::{lemma_first_index_unique, remove_char, trim, without};

verus! {

/// Whether a format is the one with the given content type and extension.
pub open spec fn is_format(
    audio: Option<AudioType>,
    content_type: Seq<char>,
    extension: Seq<char>,
) -> bool {
    audio is Some && audio->0.content_type@ == content_type && audio->0.extension@ == extension
}

/// Whether `x` is a content type without its parameters and the white space around it, in small
/// letters.
pub open spec fn bare_type(content_type: Seq<char>, x: Seq<char>) -> bool {
    exists|k: int, t: Seq<char>|
        {
            &&& 0 <= k <= content_type.len()
            &&& k < content_type.len() ==> content_type[k] == ';'
            &&& forall|i: int| 0 <= i < k ==> content_type[i] != ';'
            &&& #[trigger] trims_to(content_type.take(k), t)
            &&& lowers_to(t, x)
        }
}

/// There is one bare type to each content type.
pub proof fn lemma_bare_type(content_type: Seq<char>, x: Seq<char>)
    ensures
        bare_type(content_type, x) <==> x == essence(content_type),
{
    if bare_type(content_type, x) {
        let (k, t) = choose|k: int, t: Seq<char>|
            {
                &&& 0 <= k <= content_type.len()
                &&& k < content_type.len() ==> content_type[k] == ';'
                &&& forall|i: int| 0 <= i < k ==> content_type[i] != ';'
                &&& #[trigger] trims_to(content_type.take(k), t)
                &&& lowers_to(t, x)
            };
        lemma_first_index_unique(content_type, ';', k);
        lemma_trims_to(content_type.take(k), t);
        lemma_lowers_to(t, x);
    }
    if x == essence(content_type) {
        crate::text::lemma_first_index(content_type, ';');
        let k = crate::text::first_index(content_type, ';');
        let t = trim(content_type.take(k));
        lemma_trims_to(content_type.take(k), t);
        lemma_lowers_to(t, x);
        assert(trims_to(content_type.take(k), t));
    }
}

/// The extension of a path, in whatever case, tells the content type, and nothing else of the
/// path does.
pub proof fn extensions_tell_the_content_type(path: AudioPath, x: Seq<char>, r: &'static str)
    requires
        call_ensures(infer_content_type, (&path,), r),
        path.extension is Some ==> lowers_to(path.extension->0@, x),
    ensures
        path.extension is None ==> r@ == "application/octet-stream"@,
        path.extension is Some ==> {
            &&& x == "wav"@ || x == "wave"@ ==> r@ == "audio/wav"@
            &&& x == "webm"@ ==> r@ == "audio/webm"@
            &&& x == "mp3"@ ==> r@ == "audio/mpeg"@
            &&& x == "m4a"@ || x == "mp4"@ ==> r@ == "audio/mp4"@
            &&& x == "ogg"@ || x == "oga"@ ==> r@ == "audio/ogg"@
            &&& x == "flac"@ ==> r@ == "audio/flac"@
            &&& ![
                "wav"@,
                "wave"@,
                "webm"@,
                "mp3"@,
                "m4a"@,
                "mp4"@,
                "ogg"@,
                "oga"@,
                "flac"@,
            ]@.contains(x) ==> r@ == "application/octet-stream"@
        },
{
    crate::laws::reveal_extensions();
    if let Some(extension) = path.extension {
        lemma_lowers_to(extension@, x);
        let known = [
            "wav"@,
            "wave"@,
            "webm"@,
            "mp3"@,
            "m4a"@,
            "mp4"@,
            "ogg"@,
            "oga"@,
            "flac"@,
        ]@;
        assert(known[0] == "wav"@ && known[1] == "wave"@ && known[2] == "webm"@ && known[3]
            == "mp3"@ && known[4] == "m4a"@ && known[5] == "mp4"@ && known[6] == "ogg"@ && known[7]
            == "oga"@ && known[8] == "flac"@);
        lemma_extensions_differ();
    }
}

proof fn lemma_extensions_differ()
    ensures
        "webm"@ != "wave"@,
        "mp3"@ != "wav"@,
        "m4a"@ != "wav"@,
        "m4a"@ != "mp3"@,
        "mp4"@ != "wav"@,
        "mp4"@ != "mp3"@,
        "ogg"@ != "wav"@,
        "ogg"@ != "mp3"@,
        "ogg"@ != "m4a"@,
        "ogg"@ != "mp4"@,
        "oga"@ != "wav"@,
        "oga"@ != "mp3"@,
        "oga"@ != "m4a"@,
        "oga"@ != "mp4"@,
        "flac"@ != "wave"@,
        "flac"@ != "webm"@,
{
    crate::laws::reveal_extensions();
    assert("webm"@[1] != "wave"@[1]);
    assert("mp3"@[0] != "wav"@[0]);
    assert("m4a"@[1] != "mp3"@[1]);
    assert("m4a"@[0] != "wav"@[0]);
    assert("mp4"@[0] != "wav"@[0]);
    assert("mp4"@[2] != "mp3"@[2]);
    assert("ogg"@[0] != "wav"@[0]);
    assert("ogg"@[0] != "mp3"@[0]);
    assert("ogg"@[0] != "m4a"@[0]);
    assert("ogg"@[0] != "mp4"@[0]);
    assert("oga"@[0] != "wav"@[0]);
    assert("oga"@[0] != "mp3"@[0]);
    assert("oga"@[0] != "m4a"@[0]);
    assert("oga"@[0] != "mp4"@[0]);
    assert("flac"@[0] != "wave"@[0]);
    assert("flac"@[0] != "webm"@[0]);
}

/// A path names SILK audio by its extension, in whatever case, and a name is recognized where
/// its extension tells a content type or SILK audio.
pub proof fn extensions_tell_silk(
    path: AudioPath,
    x: Seq<char>,
    silk: bool,
    filename: &str,
    parsed: AudioPath,
    content_type: &'static str,
    parsed_silk: bool,
    recognized: bool,
)
    requires
        call_ensures(is_silk_path, (&path,), silk),
        path.extension is Some ==> lowers_to(path.extension->0@, x),
        call_ensures(AudioPath::new, (filename,), parsed),
        call_ensures(infer_content_type, (&parsed,), content_type),
        call_ensures(is_silk_path, (&parsed,), parsed_silk),
        call_ensures(has_recognized_audio_extension, (filename,), recognized),
    ensures
        silk <==> path.extension is Some && (x == "silk"@ || x == "slk"@),
        recognized <==> content_type@ != "application/octet-stream"@ || parsed_silk,
{
    if let Some(extension) = path.extension {
        lemma_lowers_to(extension@, x);
    }
}

/// A content type names a format by what stands before its parameters, in whatever case and
/// with whatever white space around it.
pub proof fn content_types_name_formats(
    content_type: &str,
    x: Seq<char>,
    audio: Option<AudioType>,
    extension: Option<&'static str>,
    generic: bool,
)
    requires
        call_ensures(audio_type_for_content_type, (content_type,), audio),
        call_ensures(extension_for_content_type, (content_type,), extension),
        call_ensures(is_generic_content_type, (content_type,), generic),
        bare_type(content_type@, x),
    ensures
        x == "audio/wav"@ || x == "audio/x-wav"@ || x == "audio/wave"@ ==> is_format(
            audio,
            "audio/wav"@,
            "wav"@,
        ),
        x == "audio/mpeg"@ || x == "audio/mp3"@ ==> is_format(audio, "audio/mpeg"@, "mp3"@),
        x == "audio/mp4"@ || x == "audio/m4a"@ || x == "audio/x-m4a"@ ==> is_format(
            audio,
            "audio/mp4"@,
            "m4a"@,
        ),
        x == "audio/flac"@ || x == "audio/x-flac"@ ==> is_format(audio, "audio/flac"@, "flac"@),
        x == "audio/ogg"@ ==> is_format(audio, "audio/ogg"@, "ogg"@),
        x == "audio/webm"@ ==> is_format(audio, "audio/webm"@, "webm"@),
        x == "audio/silk"@ || x == "audio/x-silk"@ ==> is_format(audio, "audio/silk"@, "silk"@),
        audio is Some ==> x == "audio/wav"@ || x == "audio/x-wav"@ || x == "audio/wave"@ || x
            == "audio/mpeg"@ || x == "audio/mp3"@ || x == "audio/mp4"@ || x == "audio/m4a"@ || x
            == "audio/x-m4a"@ || x == "audio/flac"@ || x == "audio/x-flac"@ || x == "audio/ogg"@
            || x == "audio/webm"@ || x == "audio/silk"@ || x == "audio/x-silk"@,
        extension is Some <==> audio is Some && x != "audio/silk"@ && x != "audio/x-silk"@,
        extension is Some ==> extension->0@ == audio->0.extension@,
        generic <==> x.len() == 0 || x == "application/octet-stream"@ || x
            == "binary/octet-stream"@,
{
    lemma_bare_type(content_type@, x);
    reveal_strlit("");
    assert(x.len() == 0 ==> x =~= ""@);
    lemma_types_differ();
}

proof fn lemma_types_differ()
    ensures
        "audio/silk"@ != "audio/mpeg"@,
        "audio/silk"@ != "audio/wave"@,
        "audio/silk"@ != "audio/flac"@,
        "audio/silk"@ != "audio/webm"@,
        "audio/x-silk"@ != "audio/x-flac"@,
        "audio/silk"@.len() == 10,
        "audio/x-silk"@.len() == 12,
        "audio/wav"@.len() == 9,
        "audio/wave"@.len() == 10,
        "audio/x-wav"@.len() == 11,
        "audio/mpeg"@.len() == 10,
        "audio/mp3"@.len() == 9,
        "audio/mp4"@.len() == 9,
        "audio/m4a"@.len() == 9,
        "audio/x-m4a"@.len() == 11,
        "audio/flac"@.len() == 10,
        "audio/x-flac"@.len() == 12,
        "audio/ogg"@.len() == 9,
        "audio/webm"@.len() == 10,
        "audio/wav"@[6] == 'w',
        "audio/mp3"@[6] == 'm' && "audio/mp3"@[7] == 'p' && "audio/mp3"@[8] == '3',
        "audio/mp4"@[6] == 'm' && "audio/mp4"@[7] == 'p' && "audio/mp4"@[8] == '4',
        "audio/m4a"@[6] == 'm' && "audio/m4a"@[7] == '4',
        "audio/ogg"@[6] == 'o',
        "audio/x-wav"@[8] == 'w',
        "audio/x-m4a"@[8] == 'm',
        "audio/wave"@[6] == 'w' && "audio/wave"@[7] == 'a',
        "audio/webm"@[6] == 'w' && "audio/webm"@[7] == 'e',
        "audio/mpeg"@[6] == 'm',
        "audio/flac"@[6] == 'f',
{
    reveal_strlit("audio/silk");
    reveal_strlit("audio/x-silk");
    reveal_strlit("audio/wav");
    reveal_strlit("audio/wave");
    reveal_strlit("audio/x-wav");
    reveal_strlit("audio/mpeg");
    reveal_strlit("audio/mp3");
    reveal_strlit("audio/mp4");
    reveal_strlit("audio/m4a");
    reveal_strlit("audio/x-m4a");
    reveal_strlit("audio/flac");
    reveal_strlit("audio/x-flac");
    reveal_strlit("audio/ogg");
    reveal_strlit("audio/webm");
    assert("audio/silk"@[6] != "audio/mpeg"@[6]);
    assert("audio/silk"@[6] != "audio/wave"@[6]);
    assert("audio/silk"@[6] != "audio/flac"@[6]);
    assert("audio/silk"@[6] != "audio/webm"@[6]);
    assert("audio/x-silk"@[8] != "audio/x-flac"@[8]);
}

/// Whether `bytes` begin with `mark`.
pub open spec fn begins(bytes: Seq<u8>, mark: Seq<u8>) -> bool {
    bytes.len() >= mark.len() && forall|i: int|
        0 <= i < mark.len() ==> bytes[i] == #[trigger] mark[i]
}

proof fn lemma_begins(bytes: Seq<u8>, at: int, mark: Seq<u8>)
    requires
        0 <= at <= bytes.len(),
    ensures
        stands_at(bytes, at, mark) <==> begins(bytes.skip(at), mark),
{
    if begins(bytes.skip(at), mark) {
        let part = bytes.subrange(at, at + mark.len());
        assert forall|i: int| 0 <= i < mark.len() implies part[i] == mark[i] by {
            assert(bytes.skip(at)[i] == mark[i]);
        }
        assert(part =~= mark);
    }
    if stands_at(bytes, at, mark) {
        assert forall|i: int| 0 <= i < mark.len() implies bytes.skip(at)[i]
            == #[trigger] mark[i] by {
            assert(bytes.subrange(at, at + mark.len())[i] == mark[i]);
        }
    }
}

/// `RIFF`
pub open spec fn riff() -> Seq<u8> {
    seq![0x52u8, 0x49, 0x46, 0x46]
}

/// `WAVE`
pub open spec fn wave() -> Seq<u8> {
    seq![0x57u8, 0x41, 0x56, 0x45]
}

/// `ID3`
pub open spec fn id3() -> Seq<u8> {
    seq![0x49u8, 0x44, 0x33]
}

/// `fLaC`
pub open spec fn flac() -> Seq<u8> {
    seq![0x66u8, 0x4c, 0x61, 0x43]
}

/// `OggS`
pub open spec fn ogg() -> Seq<u8> {
    seq![0x4fu8, 0x67, 0x67, 0x53]
}

/// The mark of the container of WebM.
pub open spec fn ebml() -> Seq<u8> {
    seq![0x1au8, 0x45, 0xdf, 0xa3]
}

/// `ftyp`
pub open spec fn ftyp() -> Seq<u8> {
    seq![0x66u8, 0x74, 0x79, 0x70]
}

/// `#!SILK_V3`
pub open spec fn silk() -> Seq<u8> {
    seq![0x23u8, 0x21, 0x53, 0x49, 0x4c, 0x4b, 0x5f, 0x56, 0x33]
}

/// The mark of SILK audio behind a byte of its own.
pub open spec fn tencent_silk() -> Seq<u8> {
    seq![0x02u8, 0x23, 0x21, 0x53, 0x49, 0x4c, 0x4b, 0x5f, 0x56, 0x33]
}

/// Whether one of the marks that stand at the very start of a file, other than those of SILK
/// audio, or the start of an MPEG audio frame, stands there.
pub open spec fn marked_at_start(bytes: Seq<u8>) -> bool {
    ||| begins(bytes, id3())
    ||| begins(bytes, flac())
    ||| begins(bytes, ogg())
    ||| begins(bytes, ebml())
    ||| bytes.len() >= 2 && bytes[0] == 0xff && bytes[1] & 0xe0 == 0xe0
}

/// A mark shows the format of a file, whatever follows it and however long the file is; a file
/// without a mark shows none.
pub proof fn marks_show_the_format(bytes: &[u8], frame: bool, r: Option<AudioType>)
    requires
        call_ensures(sniff_audio, (bytes,), r),
        call_ensures(looks_like_mp3_frame, (bytes,), frame),
    ensures
        frame <==> bytes@.len() >= 2 && bytes@[0] == 0xff && bytes@[1] & 0xe0 == 0xe0,
        begins(bytes@, riff()) && bytes@.len() >= 8 && begins(bytes@.skip(8), wave()) ==> is_format(
            r,
            "audio/wav"@,
            "wav"@,
        ),
        begins(bytes@, id3()) || frame ==> is_format(r, "audio/mpeg"@, "mp3"@),
        begins(bytes@, flac()) ==> is_format(r, "audio/flac"@, "flac"@),
        begins(bytes@, ogg()) ==> is_format(r, "audio/ogg"@, "ogg"@),
        begins(bytes@, ebml()) ==> is_format(r, "audio/webm"@, "webm"@),
        bytes@.len() >= 4 && begins(bytes@.skip(4), ftyp()) && !marked_at_start(bytes@) && !(begins(
            bytes@,
            riff(),
        ) && bytes@.len() >= 8 && begins(bytes@.skip(8), wave())) ==> is_format(
            r,
            "audio/mp4"@,
            "m4a"@,
        ),
        begins(bytes@, silk()) || begins(bytes@, tencent_silk()) ==> is_format(
            r,
            "audio/silk"@,
            "silk"@,
        ),
        r is Some ==> {
            ||| marked_at_start(bytes@)
            ||| begins(bytes@, riff()) && bytes@.len() >= 8 && begins(bytes@.skip(8), wave())
            ||| bytes@.len() >= 4 && begins(bytes@.skip(4), ftyp())
            ||| begins(bytes@, silk())
            ||| begins(bytes@, tencent_silk())
        },
{
    let b = bytes@;
    if b.len() >= 2 {
        let second = b[1];
        assert((second & 0xe0 == 0xe0) == (second >= 0xe0)) by (bit_vector);
    }
    assert(b.skip(0) =~= b);
    assert(seq![0x02u8] + crate::media::silk_mark() =~= tencent_silk());
    lemma_begins(b, 0, riff());
    lemma_begins(b, 0, id3());
    lemma_begins(b, 0, flac());
    lemma_begins(b, 0, ogg());
    lemma_begins(b, 0, ebml());
    lemma_begins(b, 0, silk());
    lemma_begins(b, 0, tencent_silk());
    if b.len() >= 4 {
        lemma_begins(b, 4, ftyp());
    }
    if b.len() >= 8 {
        lemma_begins(b, 8, wave());
    }
    lemma_marks_differ(b);
}

/// No two of the marks at the start of a file stand there together, nor a mark of SILK audio
/// and that of an MPEG-4 file behind the start.
proof fn lemma_marks_differ(b: Seq<u8>)
    ensures
        begins(b, riff()) ==> b.len() >= 4 && b[0] == 0x52,
        begins(b, id3()) ==> b.len() >= 3 && b[0] == 0x49,
        begins(b, flac()) ==> b.len() >= 4 && b[0] == 0x66,
        begins(b, ogg()) ==> b.len() >= 4 && b[0] == 0x4f,
        begins(b, ebml()) ==> b.len() >= 4 && b[0] == 0x1a,
        begins(b, silk()) ==> b.len() >= 9 && b[0] == 0x23 && b[4] == 0x4c,
        begins(b, tencent_silk()) ==> b.len() >= 10 && b[0] == 0x02 && b[4] == 0x49,
        b.len() >= 4 && begins(b.skip(4), ftyp()) ==> b.len() >= 8 && b[4] == 0x66,
{
    if begins(b, riff()) {
        assert(b[0] == riff()[0]);
    }
    if begins(b, id3()) {
        assert(b[0] == id3()[0]);
    }
    if begins(b, flac()) {
        assert(b[0] == flac()[0]);
    }
    if begins(b, ogg()) {
        assert(b[0] == ogg()[0]);
    }
    if begins(b, ebml()) {
        assert(b[0] == ebml()[0]);
    }
    if begins(b, silk()) {
        assert(b[0] == silk()[0] && b[4] == silk()[4]);
    }
    if begins(b, tencent_silk()) {
        assert(b[0] == tencent_silk()[0] && b[4] == tencent_silk()[4]);
    }
    if b.len() >= 4 && begins(b.skip(4), ftyp()) {
        assert(b.skip(4)[0] == ftyp()[0]);
    }
}

/// A file that goes on shows the format that its beginning shows: all of it counts where the
/// beginning is a RIFF header without its format, and nothing more elsewhere.
pub proof fn longer_files_show_the_same_format(
    head: &[u8],
    whole: &[u8],
    rest: Seq<u8>,
    r: Option<AudioType>,
    q: Option<AudioType>,
)
    requires
        call_ensures(sniff_audio, (head,), r),
        call_ensures(sniff_audio, (whole,), q),
        whole@ == head@ + rest,
        r is Some,
        head@.len() >= 12 || !begins(head@, riff()),
    ensures
        is_format(q, r->0.content_type@, r->0.extension@),
{
    let h = head@;
    let w = whole@;
    assert forall|at: int, mark: Seq<u8>|
        0 <= at && at + mark.len() <= h.len() implies #[trigger] stands_at(h, at, mark)
        == stands_at(w, at, mark) by {
        assert(h.subrange(at, at + mark.len()) =~= w.subrange(at, at + mark.len()));
    }
    lemma_marks_differ(h);
    lemma_marks_differ(w);
    assert(h.skip(0) =~= h);
    assert(w.skip(0) =~= w);
    lemma_begins(h, 0, riff());
    lemma_begins(w, 0, riff());
    assert(crate::media::silk_mark().len() == 9);
    if h.len() < 12 && stands_at(w, 0, riff()) {
        if h.len() >= 4 {
            assert(stands_at(h, 0, riff()));
        } else {
            assert(w.subrange(0, 4)[0] == riff()[0]);
            assert(h[0] == w[0]);
        }
    }
    lemma_short_heads(h, w);
}

/// Where the beginning of a file shows a format, no mark that needs more of the file shows
/// another.
proof fn lemma_short_heads(h: Seq<u8>, w: Seq<u8>)
    requires
        h.len() <= w.len(),
        forall|i: int| 0 <= i < h.len() ==> h[i] == w[i],
    ensures
        stands_at(w, 0, id3()) ==> w.len() >= 3 && w[0] == 0x49 && w[1] == 0x44 && w[2] == 0x33,
        stands_at(w, 0, flac()) ==> w.len() >= 4 && w[0] == 0x66 && w[1] == 0x4c && w[2] == 0x61,
        stands_at(w, 0, ogg()) ==> w.len() >= 4 && w[0] == 0x4f && w[1] == 0x67,
        stands_at(w, 0, ebml()) ==> w.len() >= 4 && w[0] == 0x1a && w[1] == 0x45,
        stands_at(h, 0, id3()) ==> h.len() >= 3 && h[0] == 0x49,
        stands_at(h, 0, flac()) ==> h.len() >= 4 && h[0] == 0x66,
        stands_at(h, 0, ogg()) ==> h.len() >= 4 && h[0] == 0x4f,
        stands_at(h, 0, ebml()) ==> h.len() >= 4 && h[0] == 0x1a,
        stands_at(h, 4, ftyp()) ==> h.len() >= 8,
        stands_at(h, 0, silk()) ==> h.len() >= 9 && h[0] == 0x23,
        stands_at(h, 0, tencent_silk()) ==> h.len() >= 10 && h[0] == 0x02,
        seq![0x02u8] + crate::media::silk_mark() == tencent_silk(),
{
    assert(seq![0x02u8] + crate::media::silk_mark() =~= tencent_silk());
    assert forall|s: Seq<u8>, mark: Seq<u8>, i: int|
        #![trigger stands_at(s, 0, mark), mark[i]]
        stands_at(s, 0, mark) && 0 <= i < mark.len() implies s[i] == mark[i] by {
        assert(s.subrange(0, mark.len() as int)[i] == mark[i]);
    }
    assert(id3()[0] == 0x49 && id3()[1] == 0x44 && id3()[2] == 0x33);
    assert(flac()[0] == 0x66 && flac()[1] == 0x4c && flac()[2] == 0x61);
    assert(ogg()[0] == 0x4f && ogg()[1] == 0x67);
    assert(ebml()[0] == 0x1a && ebml()[1] == 0x45);
    assert(silk()[0] == 0x23);
    assert(tencent_silk()[0] == 0x02);
}

/// The stem of a name is used where it is there, not empty and not hidden.
pub open spec fn stem_in_use(path: AudioPath, fallback: Seq<char>, stem: Seq<char>) -> bool {
    if path.file_stem is Some && path.file_stem->0@.len() > 0 && path.file_stem->0@[0] != '.' {
        stem == path.file_stem->0@
    } else {
        stem == fallback
    }
}

/// A file is uploaded under its own name, unless its extension tells no format and the content
/// type does: it then gets the extension of the content type.
pub proof fn uploads_are_named_by_path_and_type(
    path: AudioPath,
    content_type: &str,
    inferred: &'static str,
    extension: Option<&'static str>,
    stem: Seq<char>,
    name: String,
    decoded: String,
    voice: Seq<char>,
)
    requires
        call_ensures(infer_content_type, (&path,), inferred),
        call_ensures(extension_for_content_type, (content_type,), extension),
        call_ensures(upload_filename, (&path, content_type), name),
        call_ensures(decoded_wav_filename, (&path,), decoded),
        stem_in_use(path, "codex"@, stem),
        stem_in_use(path, "voice"@, voice),
    ensures
        inferred@ == "application/octet-stream"@ && extension is Some ==> name@ == stem + seq!['.']
            + extension->0@,
        inferred@ != "application/octet-stream"@ || extension is None ==> name@ == (
        if path.file_name is Some {
            path.file_name->0@
        } else {
            "codex"@
        }),
        decoded@ == voice + seq!['.', 'w', 'a', 'v'],
{
    crate::laws::reveal_extensions();
    assert(voice + seq!['.'] + "wav"@ =~= voice + seq!['.', 'w', 'a', 'v']);
}

/// What a client sends as a file name is cut to its file name, without quotes; where that is
/// missing or blank, the upload is called `audio`.
pub proof fn sent_names_are_cut_to_the_file_name(
    filename: &str,
    path: AudioPath,
    plain: String,
    r: String,
    given: &str,
)
    requires
        call_ensures(AudioPath::new, (filename,), path),
        call_ensures(sanitize_filename, (filename,), r),
        path.file_name is Some ==> given@ == path.file_name->0@,
        call_ensures(remove_char, (given, '"'), plain),
    ensures
        path.file_name is None ==> r@ == "audio"@,
        path.file_name is Some && blank(given@) ==> r@ == "audio"@,
        path.file_name is Some && !blank(given@) ==> r@ == plain@,
{
    lemma_blank(given@);
}

/// The content type of an upload is the one that came with it, unless that says nothing and its
/// bytes show a format.
pub proof fn bytes_count_where_the_type_says_nothing(
    filename: &str,
    content_type: String,
    content: &str,
    bytes: &[u8],
    sniffed: Option<AudioType>,
    generic: bool,
    r: (String, String),
)
    requires
        call_ensures(normalize_upload_metadata, (filename, content_type, bytes), r),
        call_ensures(sniff_audio, (bytes,), sniffed),
        content@ == content_type@,
        call_ensures(is_generic_content_type, (content,), generic),
    ensures
        generic && sniffed is Some ==> r.1@ == sniffed->0.content_type@,
        !generic || sniffed is None ==> r.1@ == content_type@,
{
}

/// The file name of an upload is the one that came with it, unless it tells no format: it then
/// gets the extension of the format that the bytes show, or else of the one that the content
/// type names, where there is one.
pub proof fn names_without_a_format_get_one(
    filename: &str,
    content_type: String,
    content: &str,
    bytes: &[u8],
    path: AudioPath,
    stem: Seq<char>,
    recognized: bool,
    sniffed: Option<AudioType>,
    named: Option<AudioType>,
    r: (String, String),
)
    requires
        call_ensures(normalize_upload_metadata, (filename, content_type, bytes), r),
        call_ensures(AudioPath::new, (filename,), path),
        call_ensures(has_recognized_audio_extension, (filename,), recognized),
        call_ensures(sniff_audio, (bytes,), sniffed),
        content@ == content_type@,
        call_ensures(audio_type_for_content_type, (content,), named),
        stem_in_use(path, "audio"@, stem),
    ensures
        recognized ==> r.0@ == filename@,
        !recognized && sniffed is Some ==> r.0@ == stem + seq!['.'] + sniffed->0.extension@,
        !recognized && sniffed is None && named is Some ==> r.0@ == stem + seq!['.']
            + named->0.extension@,
        !recognized && sniffed is None && named is None ==> r.0@ == filename@,
{
}

/// An upload is kept in a file with the extension of its name, or else of the format that its
/// content type names, or else `.bin`.
pub proof fn files_are_kept_under_their_extension(
    filename: &str,
    content_type: &str,
    path: AudioPath,
    named: Option<AudioType>,
    r: String,
)
    requires
        call_ensures(upload_suffix, (filename, content_type), r),
        call_ensures(AudioPath::new, (filename,), path),
        call_ensures(audio_type_for_content_type, (content_type,), named),
    ensures
        path.extension is Some && path.extension->0@.len() > 0 ==> r@ == seq!['.']
            + path.extension->0@,
        (path.extension is None || path.extension->0@.len() == 0) && named is Some ==> r@ == seq![
            '.',
        ] + named->0.extension@,
        (path.extension is None || path.extension->0@.len() == 0) && named is None ==> r@ == seq![
            '.',
            'b',
            'i',
            'n',
        ],
{
    reveal_strlit("bin");
    assert(seq!['.'] + "bin"@ =~= seq!['.', 'b', 'i', 'n']);
}

} // verus!
