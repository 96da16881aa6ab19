//! Audio formats: content types, file extensions, leading bytes and upload names.

use vstd::prelude::*;
use vstd::slice::slice_subrange;

use crate::path::{name_of, parts_of, AudioPath, PathParts};
use crate::text::{
    before_first, chars_of, equal_text, find_first, lower, lower_chars, remove_char, same_text, trim,
    trim_chars, without,
};

verus! {

/// The content type of bytes of which nothing is known.
pub const OCTET_STREAM: &'static str = "application/octet-stream";

/// A content type without its parameters, trimmed and in small letters.
pub open spec fn essence(content_type: Seq<char>) -> Seq<char> {
    lower(trim(before_first(content_type, ';')))
}

/// The content type of files with the given extension, which is in small letters.
pub open spec fn type_for_extension(extension: Seq<char>) -> Seq<char> {
    if extension == "wav"@ || extension == "wave"@ {
        "audio/wav"@
    } else if extension == "webm"@ {
        "audio/webm"@
    } else if extension == "mp3"@ {
        "audio/mpeg"@
    } else if extension == "m4a"@ || extension == "mp4"@ {
        "audio/mp4"@
    } else if extension == "ogg"@ || extension == "oga"@ {
        "audio/ogg"@
    } else if extension == "flac"@ {
        "audio/flac"@
    } else {
        OCTET_STREAM@
    }
}

/// The content type of the file at a path, by its extension.
pub open spec fn inferred_type(path: PathParts) -> Seq<char> {
    match path.extension {
        Some(extension) => type_for_extension(lower(extension)),
        None => OCTET_STREAM@,
    }
}

/// An audio format: its content type and the extension of its files.
pub ghost struct AudioKind {
    pub content_type: Seq<char>,
    pub extension: Seq<char>,
}

pub open spec fn wav_kind() -> AudioKind {
    AudioKind { content_type: "audio/wav"@, extension: "wav"@ }
}

pub open spec fn mp3_kind() -> AudioKind {
    AudioKind { content_type: "audio/mpeg"@, extension: "mp3"@ }
}

pub open spec fn m4a_kind() -> AudioKind {
    AudioKind { content_type: "audio/mp4"@, extension: "m4a"@ }
}

pub open spec fn flac_kind() -> AudioKind {
    AudioKind { content_type: "audio/flac"@, extension: "flac"@ }
}

pub open spec fn ogg_kind() -> AudioKind {
    AudioKind { content_type: "audio/ogg"@, extension: "ogg"@ }
}

pub open spec fn webm_kind() -> AudioKind {
    AudioKind { content_type: "audio/webm"@, extension: "webm"@ }
}

pub open spec fn silk_kind() -> AudioKind {
    AudioKind { content_type: "audio/silk"@, extension: "silk"@ }
}

/// The format that a content type with the given essence names, among those that can be
/// uploaded directly.
pub open spec fn direct_kind(essence: Seq<char>) -> Option<AudioKind> {
    if essence == "audio/wav"@ || essence == "audio/x-wav"@ || essence == "audio/wave"@ {
        Some(wav_kind())
    } else if essence == "audio/mpeg"@ || essence == "audio/mp3"@ {
        Some(mp3_kind())
    } else if essence == "audio/mp4"@ || essence == "audio/m4a"@ || essence == "audio/x-m4a"@ {
        Some(m4a_kind())
    } else if essence == "audio/flac"@ || essence == "audio/x-flac"@ {
        Some(flac_kind())
    } else if essence == "audio/ogg"@ {
        Some(ogg_kind())
    } else if essence == "audio/webm"@ {
        Some(webm_kind())
    } else {
        None
    }
}

/// The format that a content type with the given essence names.
pub open spec fn kind_for_essence(essence: Seq<char>) -> Option<AudioKind> {
    if essence == "audio/silk"@ || essence == "audio/x-silk"@ {
        Some(silk_kind())
    } else {
        direct_kind(essence)
    }
}

/// The extension for files of a content type with the given essence, where they can be uploaded
/// directly.
pub open spec fn upload_extension(essence: Seq<char>) -> Option<Seq<char>> {
    match direct_kind(essence) {
        Some(kind) => Some(kind.extension),
        None => None,
    }
}

/// Whether a content type says nothing of the format.
pub open spec fn generic_essence(essence: Seq<char>) -> bool {
    essence == ""@ || essence == OCTET_STREAM@ || essence == "binary/octet-stream"@
}

/// Whether `pattern` stands in `bytes` at the position `at`.
pub open spec fn stands_at(bytes: Seq<u8>, at: int, pattern: Seq<u8>) -> bool {
    at + pattern.len() <= bytes.len() && bytes.subrange(at, at + pattern.len()) == pattern
}

/// `RIFF` at the start and `WAVE` behind the length field.
pub open spec fn wav_bytes(bytes: Seq<u8>) -> bool {
    &&& stands_at(bytes, 0, seq![0x52u8, 0x49, 0x46, 0x46])
    &&& stands_at(bytes, 8, seq![0x57u8, 0x41, 0x56, 0x45])
}

/// The eleven set bits with which an MPEG audio frame starts.
pub open spec fn mp3_frame(bytes: Seq<u8>) -> bool {
    bytes.len() >= 2 && bytes[0] == 0xff && bytes[1] >= 0xe0
}

/// `#!SILK_V3`
pub open spec fn silk_mark() -> Seq<u8> {
    seq![0x23u8, 0x21, 0x53, 0x49, 0x4c, 0x4b, 0x5f, 0x56, 0x33]
}

/// The format that the leading bytes of a file show.
pub open spec fn sniffed_kind(bytes: Seq<u8>) -> Option<AudioKind> {
    if wav_bytes(bytes) {
        Some(wav_kind())
    } else if stands_at(bytes, 0, seq![0x49u8, 0x44, 0x33]) || mp3_frame(bytes) {
        Some(mp3_kind())
    } else if stands_at(bytes, 0, seq![0x66u8, 0x4c, 0x61, 0x43]) {
        Some(flac_kind())
    } else if stands_at(bytes, 0, seq![0x4fu8, 0x67, 0x67, 0x53]) {
        Some(ogg_kind())
    } else if stands_at(bytes, 0, seq![0x1au8, 0x45, 0xdf, 0xa3]) {
        Some(webm_kind())
    } else if stands_at(bytes, 4, seq![0x66u8, 0x74, 0x79, 0x70]) {
        Some(m4a_kind())
    } else if stands_at(bytes, 0, silk_mark()) || stands_at(bytes, 0, seq![0x02u8] + silk_mark()) {
        Some(silk_kind())
    } else {
        None
    }
}

/// The stem of a path, where it is neither empty nor hidden, or else the given name.
pub open spec fn usable_stem(path: PathParts, fallback: Seq<char>) -> Seq<char> {
    match path.file_stem {
        Some(stem) => if stem.len() > 0 && stem[0] != '.' {
            stem
        } else {
            fallback
        },
        None => fallback,
    }
}

/// A stem, a dot and an extension.
pub open spec fn dotted(stem: Seq<char>, extension: Seq<char>) -> Seq<char> {
    stem + seq!['.'] + extension
}

/// The name under which the file at `path` is uploaded as `content_type`.
pub open spec fn upload_name(path: PathParts, content_type: Seq<char>) -> Seq<char> {
    let original = match path.file_name {
        Some(name) => name,
        None => "codex"@,
    };
    if inferred_type(path) != OCTET_STREAM@ {
        original
    } else {
        match upload_extension(essence(content_type)) {
            Some(extension) => dotted(usable_stem(path, "codex"@), extension),
            None => original,
        }
    }
}

/// Whether the extension of a path is one of SILK audio.
pub open spec fn silk_path(path: PathParts) -> bool {
    match path.extension {
        Some(extension) => lower(extension) == "silk"@ || lower(extension) == "slk"@,
        None => false,
    }
}

/// The name of the WAV file that the SILK file at `path` decodes to.
pub open spec fn decoded_name(path: PathParts) -> Seq<char> {
    dotted(usable_stem(path, "voice"@), "wav"@)
}

/// Whether the extension of a file name tells its audio format.
pub open spec fn recognized(filename: Seq<char>) -> bool {
    inferred_type(parts_of(filename)) != OCTET_STREAM@ || silk_path(parts_of(filename))
}

/// The file name of what a client sent as one, without quotes, or `audio` where there is none.
pub open spec fn sanitized(filename: Seq<char>) -> Seq<char> {
    match name_of(filename) {
        Some(name) => if trim(name).len() > 0 {
            without(name, '"')
        } else {
            "audio"@
        },
        None => "audio"@,
    }
}

/// The content type of an upload, given the one that came with it and its bytes.
pub open spec fn normal_type(content_type: Seq<char>, bytes: Seq<u8>) -> Seq<char> {
    match sniffed_kind(bytes) {
        Some(kind) => if generic_essence(essence(content_type)) {
            kind.content_type
        } else {
            content_type
        },
        None => content_type,
    }
}

/// The format of an upload, by its bytes, or else by its content type.
pub open spec fn upload_kind(content_type: Seq<char>, bytes: Seq<u8>) -> Option<AudioKind> {
    match sniffed_kind(bytes) {
        Some(kind) => Some(kind),
        None => kind_for_essence(essence(normal_type(content_type, bytes))),
    }
}

/// The file name of an upload, given the name and the content type that came with it and its
/// bytes.
pub open spec fn normal_name(filename: Seq<char>, content_type: Seq<char>, bytes: Seq<u8>) -> Seq<
    char,
> {
    if recognized(filename) {
        filename
    } else {
        match upload_kind(content_type, bytes) {
            Some(kind) => dotted(usable_stem(parts_of(filename), "audio"@), kind.extension),
            None => filename,
        }
    }
}

/// The suffix of the file in which an upload is kept.
pub open spec fn suffix_of(filename: Seq<char>, content_type: Seq<char>) -> Seq<char> {
    let by_type = match kind_for_essence(essence(content_type)) {
        Some(kind) => kind.extension,
        None => "bin"@,
    };
    match parts_of(filename).extension {
        Some(extension) => if extension.len() > 0 {
            seq!['.'] + extension
        } else {
            seq!['.'] + by_type
        },
        None => seq!['.'] + by_type,
    }
}

/// The essence of a content type.
fn essence_chars(content_type: &str) -> (v: Vec<char>)
    ensures
        v@ == essence(content_type@),
{
    let chars = chars_of(content_type);
    let k = find_first(chars.as_slice(), ';');
    let head = slice_subrange(chars.as_slice(), 0, k);
    assert(head@ =~= before_first(chars@, ';'));
    lower_chars(trim_chars(head))
}

/// The content type of files with the given extension, which is in small letters.
fn content_type_for_extension(extension: &[char]) -> (r: &'static str)
    ensures
        r@ == type_for_extension(extension@),
{
    if same_text(extension, "wav") || same_text(extension, "wave") {
        "audio/wav"
    } else if same_text(extension, "webm") {
        "audio/webm"
    } else if same_text(extension, "mp3") {
        "audio/mpeg"
    } else if same_text(extension, "m4a") || same_text(extension, "mp4") {
        "audio/mp4"
    } else if same_text(extension, "ogg") || same_text(extension, "oga") {
        "audio/ogg"
    } else if same_text(extension, "flac") {
        "audio/flac"
    } else {
        OCTET_STREAM
    }
}

/// The content type of the file at `path`, by its extension.
pub fn infer_content_type(path: &AudioPath) -> (r: &'static str)
    ensures
        r@ == inferred_type(path@),
{
    match &path.extension {
        Some(extension) => {
            let chars = chars_of(extension.as_str());
            let lowered = lower_chars(chars.as_slice());
            content_type_for_extension(lowered.as_slice())
        },
        None => OCTET_STREAM,
    }
}

/// The extension for files of a content type that can be uploaded directly.
pub fn extension_for_content_type(content_type: &str) -> (r: Option<&'static str>)
    ensures
        match r {
            Some(extension) => upload_extension(essence(content_type@)) == Some(extension@),
            None => upload_extension(essence(content_type@)) is None,
        },
{
    let chars = essence_chars(content_type);
    let e = chars.as_slice();
    if same_text(e, "audio/wav") || same_text(e, "audio/x-wav") || same_text(e, "audio/wave") {
        Some("wav")
    } else if same_text(e, "audio/mpeg") || same_text(e, "audio/mp3") {
        Some("mp3")
    } else if same_text(e, "audio/mp4") || same_text(e, "audio/m4a") || same_text(e, "audio/x-m4a") {
        Some("m4a")
    } else if same_text(e, "audio/flac") || same_text(e, "audio/x-flac") {
        Some("flac")
    } else if same_text(e, "audio/ogg") {
        Some("ogg")
    } else if same_text(e, "audio/webm") {
        Some("webm")
    } else {
        None
    }
}

/// A stem, a dot and an extension.
fn dotted_name(stem: &str, extension: &str) -> (r: String)
    ensures
        r@ == dotted(stem@, extension@),
{
    let mut r: String = stem.to_owned();
    r.push('.');
    assert(r@ =~= stem@ + seq!['.']);
    r.append(extension);
    r
}

/// The stem of a path, where it is neither empty nor hidden, or else the given name.
fn stem_or<'a>(path: &'a AudioPath, fallback: &'a str) -> (r: &'a str)
    ensures
        r@ == usable_stem(path@, fallback@),
{
    match &path.file_stem {
        Some(stem) => {
            let chars = chars_of(stem.as_str());
            if chars.len() > 0 && chars[0] != '.' {
                stem.as_str()
            } else {
                fallback
            }
        },
        None => fallback,
    }
}

/// The name under which the file at `path` is uploaded as `content_type`: its own, unless its
/// extension tells no format and the content type does.
pub fn upload_filename(path: &AudioPath, content_type: &str) -> (r: String)
    ensures
        r@ == upload_name(path@, content_type@),
{
    let original: String = match &path.file_name {
        Some(name) => name.clone(),
        None => "codex".to_owned(),
    };
    if !equal_text(infer_content_type(path), OCTET_STREAM) {
        return original;
    }
    match extension_for_content_type(content_type) {
        Some(extension) => dotted_name(stem_or(path, "codex"), extension),
        None => original,
    }
}

/// Whether the extension of a path is one of SILK audio.
pub fn is_silk_path(path: &AudioPath) -> (r: bool)
    ensures
        r == silk_path(path@),
{
    match &path.extension {
        Some(extension) => {
            let chars = chars_of(extension.as_str());
            let lowered = lower_chars(chars.as_slice());
            same_text(lowered.as_slice(), "silk") || same_text(lowered.as_slice(), "slk")
        },
        None => false,
    }
}

/// The name of the WAV file that the SILK file at `path` decodes to.
pub fn decoded_wav_filename(path: &AudioPath) -> (r: String)
    ensures
        r@ == decoded_name(path@),
{
    dotted_name(stem_or(path, "voice"), "wav")
}

/// The file name of what a client sent as one, without quotes, or `audio` where there is none.
pub fn sanitize_filename(filename: &str) -> (r: String)
    ensures
        r@ == sanitized(filename@),
{
    let path = AudioPath::new(filename);
    match path.file_name {
        Some(name) => {
            let chars = chars_of(name.as_str());
            if trim_chars(chars.as_slice()).len() > 0 {
                remove_char(name.as_str(), '"')
            } else {
                "audio".to_owned()
            }
        },
        None => "audio".to_owned(),
    }
}

/// An audio format: its content type and the extension of its files.
#[derive(Debug, Clone, Copy, PartialEq, Eq)]
pub struct AudioType {
    pub content_type: &'static str,
    pub extension: &'static str,
}

impl View for AudioType {
    type V = AudioKind;

    open spec fn view(&self) -> AudioKind {
        AudioKind { content_type: self.content_type@, extension: self.extension@ }
    }
}

/// The format that an optional audio type stands for.
pub open spec fn opt_kind(audio: Option<AudioType>) -> Option<AudioKind> {
    match audio {
        Some(a) => Some(a@),
        None => None,
    }
}

/// Whether `pattern` stands in `bytes` at the position `at`.
fn bytes_at(bytes: &[u8], at: usize, pattern: &[u8]) -> (r: bool)
    ensures
        r == stands_at(bytes@, at as int, pattern@),
{
    let m: usize = bytes.len();
    let n: usize = pattern.len();
    if m < n || m - n < at {
        return false;
    }
    for i in 0..n
        invariant
            n == pattern@.len(),
            m == bytes@.len(),
            at + n <= m,
            forall|j: int| 0 <= j < i ==> bytes@[at + j] == pattern@[j],
    {
        if bytes[at + i] != pattern[i] {
            assert(bytes@.subrange(at as int, at + n)[i as int] != pattern@[i as int]);
            return false;
        }
    }
    assert(bytes@.subrange(at as int, at + n) =~= pattern@);
    true
}

/// Whether `bytes` start as an MPEG audio frame does.
pub fn looks_like_mp3_frame(bytes: &[u8]) -> (r: bool)
    ensures
        r == mp3_frame(bytes@),
{
    if bytes.len() < 2 {
        return false;
    }
    let second: u8 = bytes[1];
    assert((second & 0xe0 == 0xe0) == (second >= 0xe0)) by (bit_vector);
    bytes[0] == 0xff && second & 0xe0 == 0xe0
}

/// The format that the leading bytes of a file show.
pub fn sniff_audio(bytes: &[u8]) -> (r: Option<AudioType>)
    ensures
        opt_kind(r) == sniffed_kind(bytes@),
{
    if bytes_at(bytes, 0, &[0x52, 0x49, 0x46, 0x46]) && bytes_at(
        bytes,
        8,
        &[0x57, 0x41, 0x56, 0x45],
    ) {
        return Some(AudioType { content_type: "audio/wav", extension: "wav" });
    }
    if bytes_at(bytes, 0, &[0x49, 0x44, 0x33]) || looks_like_mp3_frame(bytes) {
        return Some(AudioType { content_type: "audio/mpeg", extension: "mp3" });
    }
    if bytes_at(bytes, 0, &[0x66, 0x4c, 0x61, 0x43]) {
        return Some(AudioType { content_type: "audio/flac", extension: "flac" });
    }
    if bytes_at(bytes, 0, &[0x4f, 0x67, 0x67, 0x53]) {
        return Some(AudioType { content_type: "audio/ogg", extension: "ogg" });
    }
    if bytes_at(bytes, 0, &[0x1a, 0x45, 0xdf, 0xa3]) {
        return Some(AudioType { content_type: "audio/webm", extension: "webm" });
    }
    if bytes_at(bytes, 4, &[0x66, 0x74, 0x79, 0x70]) {
        return Some(AudioType { content_type: "audio/mp4", extension: "m4a" });
    }
    let mark: [u8; 9] = [0x23, 0x21, 0x53, 0x49, 0x4c, 0x4b, 0x5f, 0x56, 0x33];
    let marked: [u8; 10] = [0x02, 0x23, 0x21, 0x53, 0x49, 0x4c, 0x4b, 0x5f, 0x56, 0x33];
    assert(mark@ =~= silk_mark());
    assert(marked@ =~= seq![0x02u8] + silk_mark());
    if bytes_at(bytes, 0, &mark) || bytes_at(bytes, 0, &marked) {
        return Some(AudioType { content_type: "audio/silk", extension: "silk" });
    }
    None
}

/// Whether a content type says nothing of the format.
pub fn is_generic_content_type(content_type: &str) -> (r: bool)
    ensures
        r == generic_essence(essence(content_type@)),
{
    let chars = essence_chars(content_type);
    let e = chars.as_slice();
    same_text(e, "") || same_text(e, OCTET_STREAM) || same_text(e, "binary/octet-stream")
}

/// Whether the extension of a file name tells its audio format.
pub fn has_recognized_audio_extension(filename: &str) -> (r: bool)
    ensures
        r == recognized(filename@),
{
    let path = AudioPath::new(filename);
    !equal_text(infer_content_type(&path), OCTET_STREAM) || is_silk_path(&path)
}

/// The format that a content type names.
pub fn audio_type_for_content_type(content_type: &str) -> (r: Option<AudioType>)
    ensures
        opt_kind(r) == kind_for_essence(essence(content_type@)),
{
    let chars = essence_chars(content_type);
    let e = chars.as_slice();
    if same_text(e, "audio/silk") || same_text(e, "audio/x-silk") {
        Some(AudioType { content_type: "audio/silk", extension: "silk" })
    } else if same_text(e, "audio/wav") || same_text(e, "audio/x-wav") || same_text(
        e,
        "audio/wave",
    ) {
        Some(AudioType { content_type: "audio/wav", extension: "wav" })
    } else if same_text(e, "audio/mpeg") || same_text(e, "audio/mp3") {
        Some(AudioType { content_type: "audio/mpeg", extension: "mp3" })
    } else if same_text(e, "audio/mp4") || same_text(e, "audio/m4a") || same_text(
        e,
        "audio/x-m4a",
    ) {
        Some(AudioType { content_type: "audio/mp4", extension: "m4a" })
    } else if same_text(e, "audio/flac") || same_text(e, "audio/x-flac") {
        Some(AudioType { content_type: "audio/flac", extension: "flac" })
    } else if same_text(e, "audio/ogg") {
        Some(AudioType { content_type: "audio/ogg", extension: "ogg" })
    } else if same_text(e, "audio/webm") {
        Some(AudioType { content_type: "audio/webm", extension: "webm" })
    } else {
        None
    }
}

/// The file name and the content type of an upload. A content type that says nothing gives way
/// to what the bytes show; a name without an audio extension gets the one of the format.
pub fn normalize_upload_metadata(filename: &str, content_type: String, bytes: &[u8]) -> (r: (
    String,
    String,
))
    ensures
        r.0@ == normal_name(filename@, content_type@, bytes@),
        r.1@ == normal_type(content_type@, bytes@),
{
    let sniffed = sniff_audio(bytes);
    let normal: String = match sniffed {
        Some(audio) if is_generic_content_type(content_type.as_str()) => {
            audio.content_type.to_owned()
        },
        _ => content_type,
    };
    if has_recognized_audio_extension(filename) {
        return (filename.to_owned(), normal);
    }
    let kind = match sniffed {
        Some(audio) => Some(audio),
        None => audio_type_for_content_type(normal.as_str()),
    };
    match kind {
        Some(audio) => {
            let path = AudioPath::new(filename);
            (dotted_name(stem_or(&path, "audio"), audio.extension), normal)
        },
        None => (filename.to_owned(), normal),
    }
}

/// The suffix of the file in which an upload is kept: the extension of its name, or else that
/// of the format which its content type names.
pub fn upload_suffix(filename: &str, content_type: &str) -> (r: String)
    ensures
        r@ == suffix_of(filename@, content_type@),
{
    let path = AudioPath::new(filename);
    proof {
        reveal_strlit("");
        assert(""@ + seq!['.'] =~= seq!['.']);
    }
    if let Some(extension) = path.extension {
        if !extension.as_str().is_empty() {
            return dotted_name("", extension.as_str());
        }
    }
    match audio_type_for_content_type(content_type) {
        Some(audio) => dotted_name("", audio.extension),
        None => dotted_name("", "bin"),
    }
}

} // verus!
