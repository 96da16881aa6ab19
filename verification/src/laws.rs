//! What holds of the library as a whole: laws that relate several of its functions.

use vstd::prelude::*;
use vstd::utf8::{encode_utf8, is_ascii_chars};

use crate::auth::{base64_url_bytes, bearer_token, claimed_account, token_account, token_payload};
use crate::client::{
    clippable, clipped, request_headers, sendable, upload_fields, ClientParts, CLIP_BYTES,
};
use crate::form::{unread_fields_keep_their_defaults, FormParts, ReadField};
use crate::http::{ascii_text, header_byte, visible_byte};
use crate::json::{json_document, member, member_map, JsonTree};
use crate::media::{
    decoded_name, direct_kind, dotted, essence, flac_kind, generic_essence, inferred_type,
    kind_for_essence, m4a_kind, mp3_kind, normal_name, normal_type, ogg_kind, recognized, sanitized,
    silk_kind, silk_path, sniffed_kind, stands_at, suffix_of, type_for_extension, upload_extension,
    upload_kind, upload_name, usable_stem, wav_kind, webm_kind, AudioKind, OCTET_STREAM,
};
use crate::path::{
    last_component, lemma_dotted, lemma_name_of_plain, lemma_parts_well_formed, name_of, parts_of,
    plain_name, PathParts,
};
use crate::proxy::first_setting;
use crate::server::{
    provided_key, requested_format, server_key, text_document, verbose_document, verbose_members,
    ResponseFormat,
};
use crate::silk::{first_existing, lemma_first_existing_add, DecoderCandidates, DECODED_SUFFIX};
use crate::text::{
    collapse, last_index, lemma_first_index_unique, lemma_text_bounds, lemma_trim,
    lemma_trim_between, lower, lower_char, trim, trim_is_idempotent, white_space, without,
};

verus! {

/// One of the formats that can be uploaded directly.
pub open spec fn is_direct(kind: AudioKind) -> bool {
    kind == wav_kind() || kind == mp3_kind() || kind == m4a_kind() || kind == flac_kind() || kind
        == ogg_kind() || kind == webm_kind()
}

/// The extensions of audio files, spelled out.
pub proof fn reveal_extensions()
    ensures
        "wav"@ == seq!['w', 'a', 'v'],
        "wave"@ == seq!['w', 'a', 'v', 'e'],
        "webm"@ == seq!['w', 'e', 'b', 'm'],
        "mp3"@ == seq!['m', 'p', '3'],
        "m4a"@ == seq!['m', '4', 'a'],
        "mp4"@ == seq!['m', 'p', '4'],
        "ogg"@ == seq!['o', 'g', 'g'],
        "oga"@ == seq!['o', 'g', 'a'],
        "flac"@ == seq!['f', 'l', 'a', 'c'],
        "silk"@ == seq!['s', 'i', 'l', 'k'],
        "slk"@ == seq!['s', 'l', 'k'],
{
    reveal_strlit("wav");
    reveal_strlit("wave");
    reveal_strlit("webm");
    reveal_strlit("mp3");
    reveal_strlit("m4a");
    reveal_strlit("mp4");
    reveal_strlit("ogg");
    reveal_strlit("oga");
    reveal_strlit("flac");
    reveal_strlit("silk");
    reveal_strlit("slk");
    assert("wav"@ =~= seq!['w', 'a', 'v']);
    assert("wave"@ =~= seq!['w', 'a', 'v', 'e']);
    assert("webm"@ =~= seq!['w', 'e', 'b', 'm']);
    assert("mp3"@ =~= seq!['m', 'p', '3']);
    assert("m4a"@ =~= seq!['m', '4', 'a']);
    assert("mp4"@ =~= seq!['m', 'p', '4']);
    assert("ogg"@ =~= seq!['o', 'g', 'g']);
    assert("oga"@ =~= seq!['o', 'g', 'a']);
    assert("flac"@ =~= seq!['f', 'l', 'a', 'c']);
    assert("silk"@ =~= seq!['s', 'i', 'l', 'k']);
    assert("slk"@ =~= seq!['s', 'l', 'k']);
}

/// Whether a text is made of small letters and digits.
pub open spec fn small_letters(s: Seq<char>) -> bool {
    s.len() > 0 && forall|i: int|
        0 <= i < s.len() ==> {
            let c = #[trigger] s[i];
            ('a' <= c && c <= 'z') || ('0' <= c && c <= '9')
        }
}

proof fn lemma_small_letters(s: Seq<char>)
    requires
        small_letters(s),
    ensures
        lower(s) == s,
        !s.contains('/'),
        !s.contains('.'),
{
    assert forall|i: int| 0 <= i < s.len() implies {
        &&& #[trigger] s[i] != '/'
        &&& s[i] != '.'
        &&& lower_char(s[i]) == s[i]
    } by {}
    assert(lower(s) =~= s);
}

/// The extension of each format that can be uploaded directly leads back to its content type,
/// and is no extension of SILK audio.
proof fn lemma_direct(kind: AudioKind)
    requires
        is_direct(kind),
    ensures
        small_letters(kind.extension),
        type_for_extension(kind.extension) == kind.content_type,
        kind.content_type != OCTET_STREAM@,
{
    reveal_extensions();
    reveal_strlit("application/octet-stream");
    reveal_strlit("audio/wav");
    reveal_strlit("audio/webm");
    reveal_strlit("audio/mpeg");
    reveal_strlit("audio/mp4");
    reveal_strlit("audio/ogg");
    reveal_strlit("audio/flac");
    assert("webm"@.len() != "wave"@.len() || "webm"@[1] != "wave"@[1]);
    assert("m4a"@[0] != "wav"@[0]);
    assert("mp3"@[0] != "wav"@[0]);
    assert("m4a"@[1] != "mp3"@[1]);
    assert("ogg"@[0] != "wav"@[0]);
    assert("ogg"@[0] != "mp3"@[0]);
    assert("ogg"@[0] != "m4a"@[0]);
    assert("ogg"@[0] != "mp4"@[0]);
    assert("flac"@[0] != "wave"@[0]);
    assert("flac"@[0] != "webm"@[0]);
    assert(kind.content_type[1] != OCTET_STREAM@[1]);
}

/// A stem with the extension of a format that can be uploaded directly is a file name of that
/// format.
proof fn lemma_direct_name(stem: Seq<char>, kind: AudioKind)
    requires
        plain_name(stem),
        is_direct(kind),
    ensures
        inferred_type(parts_of(dotted(stem, kind.extension))) == kind.content_type,
        recognized(dotted(stem, kind.extension)),
{
    lemma_direct(kind);
    lemma_small_letters(kind.extension);
    lemma_dotted(stem, kind.extension);
}

/// A stem with the extension of SILK audio is the name of a SILK file.
proof fn lemma_silk_name(stem: Seq<char>)
    requires
        plain_name(stem),
    ensures
        silk_path(parts_of(dotted(stem, silk_kind().extension))),
        recognized(dotted(stem, silk_kind().extension)),
        parts_of(dotted(stem, silk_kind().extension)).extension == Some(silk_kind().extension),
{
    reveal_extensions();
    assert(small_letters("silk"@));
    lemma_small_letters("silk"@);
    lemma_dotted(stem, "silk"@);
}

proof fn lemma_usable_stem(path: PathParts, fallback: Seq<char>)
    requires
        path.well_formed(),
        plain_name(fallback),
    ensures
        plain_name(usable_stem(path, fallback)),
{
}

proof fn lemma_fallbacks()
    ensures
        plain_name("codex"@),
        plain_name("audio"@),
        plain_name("voice"@),
{
    reveal_strlit("codex");
    reveal_strlit("audio");
    reveal_strlit("voice");
}

/// Where the extension of a file tells no format and the content type does, the upload has a
/// file name whose extension tells the format of that content type.
pub proof fn upload_names_tell_the_format(path: PathParts, content_type: Seq<char>)
    requires
        path.well_formed(),
        inferred_type(path) == OCTET_STREAM@,
        direct_kind(essence(content_type)) is Some,
    ensures
        inferred_type(parts_of(upload_name(path, content_type))) == direct_kind(
            essence(content_type),
        )->0.content_type,
{
    lemma_fallbacks();
    lemma_usable_stem(path, "codex"@);
    lemma_direct_name(usable_stem(path, "codex"@), direct_kind(essence(content_type))->0);
}

/// A file whose extension tells a format is uploaded under its own name, whatever the content
/// type.
pub proof fn recognized_names_are_kept(path: PathParts, content_type: Seq<char>)
    requires
        path.file_name is Some,
        inferred_type(path) != OCTET_STREAM@,
    ensures
        upload_name(path, content_type) == path.file_name->0,
{
}

/// A decoded SILK file is uploaded under the name of a WAV file.
pub proof fn decoded_names_are_wav(path: PathParts)
    requires
        path.well_formed(),
    ensures
        inferred_type(parts_of(decoded_name(path))) == "audio/wav"@,
{
    lemma_fallbacks();
    lemma_usable_stem(path, "voice"@);
    lemma_direct_name(usable_stem(path, "voice"@), wav_kind());
}

/// The file that the decoder writes has the extension of the format in which it is uploaded.
pub proof fn decoded_files_are_wav(prefix: Seq<char>)
    requires
        plain_name(prefix),
    ensures
        inferred_type(parts_of(prefix + DECODED_SUFFIX@)) == "audio/wav"@,
{
    reveal_strlit(".wav");
    reveal_extensions();
    assert(prefix + DECODED_SUFFIX@ =~= dotted(prefix, "wav"@));
    lemma_direct_name(prefix, wav_kind());
}

/// The bytes of a file show no format but those that can be uploaded directly and SILK.
pub proof fn sniffed_formats_are_known(bytes: Seq<u8>)
    requires
        sniffed_kind(bytes) is Some,
    ensures
        is_direct(sniffed_kind(bytes)->0) || sniffed_kind(bytes)->0 == silk_kind(),
{
}

/// No more than twelve bytes count for the format of a file.
pub proof fn twelve_bytes_show_the_format(bytes: Seq<u8>)
    requires
        bytes.len() >= 12,
    ensures
        sniffed_kind(bytes.take(12)) == sniffed_kind(bytes),
{
    let head = bytes.take(12);
    assert forall|at: int, pattern: Seq<u8>|
        0 <= at && at + pattern.len() <= 12 implies #[trigger] stands_at(head, at, pattern)
        == stands_at(bytes, at, pattern) by {
        assert(head.subrange(at, at + pattern.len()) =~= bytes.subrange(at, at + pattern.len()));
    }
}

/// An upload whose format its bytes or its content type show has a file name whose extension
/// tells a format.
pub proof fn known_uploads_get_recognized_names(
    filename: Seq<char>,
    content_type: Seq<char>,
    bytes: Seq<u8>,
)
    requires
        upload_kind(content_type, bytes) is Some,
    ensures
        recognized(normal_name(filename, content_type, bytes)),
{
    if !recognized(filename) {
        lemma_fallbacks();
        lemma_parts_well_formed(filename);
        let stem = usable_stem(parts_of(filename), "audio"@);
        lemma_usable_stem(parts_of(filename), "audio"@);
        let kind = upload_kind(content_type, bytes)->0;
        if kind == silk_kind() {
            lemma_silk_name(stem);
        } else {
            lemma_direct_name(stem, kind);
        }
    }
}

/// An upload whose bytes show a format that can be uploaded directly, and whose name tells no
/// format, gets a name that tells the format of its bytes.
pub proof fn sniffed_uploads_get_the_name_of_their_format(
    filename: Seq<char>,
    content_type: Seq<char>,
    bytes: Seq<u8>,
)
    requires
        sniffed_kind(bytes) is Some,
        is_direct(sniffed_kind(bytes)->0),
        !recognized(filename),
    ensures
        inferred_type(parts_of(normal_name(filename, content_type, bytes))) == sniffed_kind(
            bytes,
        )->0.content_type,
{
    lemma_fallbacks();
    lemma_parts_well_formed(filename);
    lemma_usable_stem(parts_of(filename), "audio"@);
    lemma_direct_name(usable_stem(parts_of(filename), "audio"@), sniffed_kind(bytes)->0);
}

/// To normalize the metadata of an upload a second time changes nothing.
pub proof fn normalizing_is_idempotent(filename: Seq<char>, content_type: Seq<char>, bytes: Seq<u8>)
    ensures
        normal_type(normal_type(content_type, bytes), bytes) == normal_type(content_type, bytes),
        normal_name(
            normal_name(filename, content_type, bytes),
            normal_type(content_type, bytes),
            bytes,
        ) == normal_name(filename, content_type, bytes),
{
    if upload_kind(content_type, bytes) is Some {
        known_uploads_get_recognized_names(filename, content_type, bytes);
    }
}

/// An upload with an explicit audio file name keeps it, and one with an explicit content type
/// keeps that.
pub proof fn explicit_metadata_is_kept(
    filename: Seq<char>,
    content_type: Seq<char>,
    bytes: Seq<u8>,
)
    ensures
        recognized(filename) ==> normal_name(filename, content_type, bytes) == filename,
        !generic_essence(essence(content_type)) ==> normal_type(content_type, bytes)
            == content_type,
{
}

/// An upload whose bytes show SILK audio, and whose name tells no other format, is kept in a
/// file with the extension of SILK audio, so that it is decoded.
pub proof fn silk_uploads_are_kept_as_silk(
    filename: Seq<char>,
    content_type: Seq<char>,
    bytes: Seq<u8>,
    prefix: Seq<char>,
)
    requires
        sniffed_kind(bytes) == Some(silk_kind()),
        !recognized(filename),
        plain_name(prefix),
    ensures
        silk_path(
            parts_of(
                prefix + suffix_of(
                    normal_name(filename, content_type, bytes),
                    normal_type(content_type, bytes),
                ),
            ),
        ),
{
    lemma_fallbacks();
    lemma_parts_well_formed(filename);
    lemma_usable_stem(parts_of(filename), "audio"@);
    lemma_silk_name(usable_stem(parts_of(filename), "audio"@));
    lemma_silk_name(prefix);
    reveal_extensions();
    let suffix = suffix_of(
        normal_name(filename, content_type, bytes),
        normal_type(content_type, bytes),
    );
    assert(suffix == seq!['.'] + "silk"@);
    assert(prefix + suffix =~= dotted(prefix, "silk"@));
}

/// The two ways to read a content type agree: what can be uploaded directly has the extension
/// of its format, and SILK audio cannot be uploaded directly.
pub proof fn content_types_are_read_alike(content_type: Seq<char>)
    ensures
        match upload_extension(essence(content_type)) {
            Some(extension) => kind_for_essence(essence(content_type)) is Some && kind_for_essence(
                essence(content_type),
            )->0.extension == extension,
            None => kind_for_essence(essence(content_type)) is None || kind_for_essence(
                essence(content_type),
            ) == Some(silk_kind()),
        },
{
    reveal_strlit("audio/silk");
    reveal_strlit("audio/x-silk");
    reveal_strlit("audio/wav");
    reveal_strlit("audio/x-wav");
    reveal_strlit("audio/wave");
    reveal_strlit("audio/mpeg");
    reveal_strlit("audio/mp3");
    reveal_strlit("audio/mp4");
    reveal_strlit("audio/m4a");
    reveal_strlit("audio/x-m4a");
    reveal_strlit("audio/flac");
    reveal_strlit("audio/x-flac");
    reveal_strlit("audio/ogg");
    reveal_strlit("audio/webm");
    let e = essence(content_type);
    if e == "audio/silk"@ || e == "audio/x-silk"@ {
        assert(e[6] == 's' || e[8] == 's');
        assert("audio/x-flac"@[8] == 'f');
        assert(direct_kind(e) is None);
    }
}

/// The parameters of a content type do not count.
pub proof fn parameters_do_not_count(content_type: Seq<char>, parameters: Seq<char>)
    requires
        !content_type.contains(';'),
    ensures
        essence(content_type + seq![';'] + parameters) == essence(content_type),
{
    let full = content_type + seq![';'] + parameters;
    let n = content_type.len() as int;
    assert forall|i: int| 0 <= i < n implies full[i] != ';' && content_type[i] != ';' by {
        assert(full[i] == content_type[i]);
        assert(content_type.contains(content_type[i]));
    }
    lemma_first_index_unique(full, ';', n);
    lemma_first_index_unique(content_type, ';', n);
    assert(full.take(n) =~= content_type);
    assert(content_type.take(n) =~= content_type);
}

/// The case of an extension does not count.
pub proof fn the_case_of_an_extension_does_not_count(a: PathParts, b: PathParts)
    requires
        a.extension is Some,
        b.extension is Some,
        lower(a.extension->0) == lower(b.extension->0),
    ensures
        inferred_type(a) == inferred_type(b),
        silk_path(a) == silk_path(b),
{
}

/// What a client sends as a file name is cut to one component without quotes.
pub proof fn sanitized_names_are_plain(filename: Seq<char>)
    ensures
        !sanitized(filename).contains('"'),
        !sanitized(filename).contains('/'),
{
    reveal_strlit("audio");
    lemma_parts_well_formed(filename);
    if let Some(name) = name_of(filename) {
        lemma_without(name, '"');
        let kept = without(name, '"');
        if kept.contains('/') {
            let i = choose|i: int| 0 <= i < kept.len() && kept[i] == '/';
            assert(name.contains(kept[i]));
        }
    }
}

/// The name that is kept of what a client sends as a file name depends on the last component
/// alone, and that component is its own file name.
pub proof fn the_last_component_counts(filename: Seq<char>)
    ensures
        match name_of(filename) {
            Some(name) => name_of(name) == Some(name) && sanitized(name) == sanitized(filename),
            None => sanitized(""@) == sanitized(filename),
        },
{
    reveal_strlit("");
    assert(last_index(""@, '/') == -1);
    assert(name_of(""@) is None);
    if let Some(name) = name_of(filename) {
        lemma_parts_well_formed(filename);
        lemma_not_this_directory(filename);
        lemma_name_of_plain(name);
    }
}

/// No component that counts stands for the directory it is in.
proof fn lemma_not_this_directory(path: Seq<char>)
    ensures
        last_component(path) != Some(seq!['.']),
    decreases path.len(),
{
    let k = last_index(path, '/');
    let segment = path.skip(k + 1);
    if !(segment.len() != 0 && segment != seq!['.']) && 0 <= k < path.len() {
        lemma_not_this_directory(path.take(k));
    }
}

proof fn lemma_without(s: Seq<char>, c: char)
    ensures
        !without(s, c).contains(c),
        forall|i: int| 0 <= i < without(s, c).len() ==> s.contains(#[trigger] without(s, c)[i]),
    decreases s.len(),
{
    reveal(Seq::filter);
    if s.len() > 0 {
        let init = s.drop_last();
        lemma_without(init, c);
        let kept = without(s, c);
        let before = without(init, c);
        assert forall|i: int| 0 <= i < kept.len() implies s.contains(#[trigger] kept[i]) && kept[i]
            != c by {
            if i < before.len() {
                assert(kept[i] == before[i]);
                assert(before.contains(before[i]));
                assert(init.contains(before[i]));
                let j = choose|j: int| 0 <= j < init.len() && init[j] == before[i];
                assert(s[j] == kept[i]);
            } else {
                assert(kept[i] == s.last());
                assert(s[s.len() - 1] == s.last());
            }
        }
    }
}

/// The file name in the form of an upload holds no quote.
pub proof fn form_file_names_hold_no_quote(
    audio: Seq<u8>,
    filename: Seq<char>,
    media_type: Seq<char>,
    language: Option<Seq<char>>,
)
    ensures
        upload_fields(audio, filename, media_type, language)[0].1.file_name is Some,
        !upload_fields(audio, filename, media_type, language)[0].1.file_name->0.contains('"'),
{
    lemma_without(filename, '"');
}

/// A setting that counts is trimmed and not empty.
pub proof fn settings_are_trimmed(values: Seq<Option<Seq<char>>>)
    requires
        first_setting(values) is Some,
    ensures
        first_setting(values)->0.len() > 0,
        trim(first_setting(values)->0) == first_setting(values)->0,
    decreases values.len(),
{
    match values[0] {
        Some(value) => if trim(value).len() > 0 {
            lemma_trim(value);
        } else {
            settings_are_trimmed(values.drop_first());
        },
        None => settings_are_trimmed(values.drop_first()),
    }
}

/// A setting that is not blank goes before all that follow it, and one that is blank or missing
/// does not count.
pub proof fn an_earlier_setting_wins(earlier: Option<Seq<char>>, later: Seq<Option<Seq<char>>>)
    ensures
        first_setting(seq![earlier] + later) == if earlier is Some && trim(earlier->0).len() > 0 {
            Some(trim(earlier->0))
        } else {
            first_setting(later)
        },
{
    assert((seq![earlier] + later).drop_first() =~= later);
}

/// A server without a key is one that was asked to do without; any other has one that is
/// trimmed and not empty.
pub proof fn servers_have_a_key_unless_asked(
    explicit: Option<Seq<char>>,
    environment: Option<Seq<char>>,
    no_api_key: bool,
)
    ensures
        match server_key(explicit, environment, no_api_key) {
            Ok(None) => no_api_key,
            Ok(Some(key)) => !no_api_key && key.len() > 0 && trim(key) == key,
            Err(_) => !no_api_key,
        },
{
    if let Ok(Some(key)) = server_key(explicit, environment, no_api_key) {
        let given = match explicit {
            Some(k) => k,
            None => environment->0,
        };
        lemma_trim(given);
    }
}

/// The scheme before a bearer token is optional, in either spelling, as is white space around
/// the token. (A token that is blank, or that itself starts with a scheme, is another matter.)
pub proof fn the_bearer_scheme_is_optional(token: Seq<char>)
    requires
        trim(token).len() > 0,
        !"Bearer "@.is_prefix_of(trim(token)),
        !"bearer "@.is_prefix_of(trim(token)),
    ensures
        bearer_token(token) == Some(trim(token)),
        bearer_token("Bearer "@ + token) == Some(trim(token)),
        bearer_token("bearer "@ + token) == Some(trim(token)),
{
    reveal_strlit("Bearer ");
    reveal_strlit("bearer ");
    let (i, j) = lemma_text_bounds(token);
    lemma_trim_between(token, i, j);
    lemma_trim(token);
    let bare = trim(token);
    assert(trim(bare) == bare);
    lemma_scheme("Bearer "@, token, i, j);
    lemma_scheme("bearer "@, token, i, j);
    assert("Bearer "@.is_prefix_of("Bearer "@ + token.take(j)));
    assert("bearer "@.is_prefix_of("bearer "@ + token.take(j)));
    assert(("bearer "@ + token.take(j))[0] != "Bearer "@[0]);
    assert(!"Bearer "@.is_prefix_of("bearer "@ + token.take(j))) by {
        let s = "bearer "@ + token.take(j);
        if "Bearer "@.is_prefix_of(s) {
            assert("Bearer "@[0] == s.subrange(0, 7)[0]);
        }
    }
}

proof fn lemma_scheme(scheme: Seq<char>, token: Seq<char>, i: int, j: int)
    requires
        scheme.len() > 0,
        !white_space(scheme[0]),
        0 <= i < j <= token.len(),
        forall|k: int| 0 <= k < i ==> white_space(#[trigger] token[k]),
        forall|k: int| j <= k < token.len() ==> white_space(#[trigger] token[k]),
        !white_space(token[i]),
        !white_space(token[j - 1]),
    ensures
        trim(scheme + token) == scheme + token.take(j),
        (scheme + token.take(j)).skip(scheme.len() as int) == token.take(j),
        trim(token.take(j)) == token.subrange(i, j),
{
    let n = scheme.len() as int;
    let s = scheme + token;
    assert forall|k: int| n + j <= k < s.len() implies white_space(#[trigger] s[k]) by {
        assert(s[k] == token[k - n]);
    }
    lemma_trim_between(s, 0, n + j);
    assert(s.subrange(0, n + j) =~= scheme + token.take(j));
    assert((scheme + token.take(j)).skip(n) =~= token.take(j));
    let t = token.take(j);
    assert forall|k: int| 0 <= k < i implies white_space(#[trigger] t[k]) by {
        assert(t[k] == token[k]);
    }
    lemma_trim_between(t, i, j);
    assert(t.subrange(i, j) =~= token.subrange(i, j));
}

/// The account of a token stands in its second part, whatever the first part and the rest are.
pub proof fn the_account_stands_in_the_second_part(
    head: Seq<char>,
    payload: Seq<char>,
    rest: Seq<char>,
)
    requires
        !head.contains('.'),
        !payload.contains('.'),
    ensures
        token_payload(head + seq!['.'] + payload + seq!['.'] + rest) == Some(payload),
        token_account(head + seq!['.'] + payload + seq!['.'] + rest) == match base64_url_bytes(
            payload,
        ) {
            Some(bytes) => match json_document(bytes) {
                Some(claims) => claimed_account(claims),
                None => None,
            },
            None => None,
        },
{
    let token = head + seq!['.'] + payload + seq!['.'] + rest;
    let n = head.len() as int;
    assert forall|i: int| 0 <= i < n implies token[i] != '.' by {
        assert(token[i] == head[i]);
        assert(head.contains(head[i]));
    }
    assert(token[n] == '.');
    lemma_first_index_unique(token, '.', n);
    let tail = token.skip(n + 1);
    assert(tail =~= payload + seq!['.'] + rest);
    let m = payload.len() as int;
    assert forall|i: int| 0 <= i < m implies tail[i] != '.' by {
        assert(tail[i] == payload[i]);
        assert(payload.contains(payload[i]));
    }
    lemma_first_index_unique(tail, '.', m);
    assert(tail.take(m) =~= payload);
    assert(token.contains('.'));
}

/// A server passes what a client sends whose token is the key of the server.
pub proof fn clients_with_the_key_are_authorized(client: ClientParts)
    requires
        sendable(client),
        is_ascii_chars(client.auth.access_token@),
    ensures
        provided_key(request_headers(client)) == Some(client.auth.access_token@),
{
    reveal_strlit("Bearer ");
    reveal_strlit("authorization");
    reveal_strlit("originator");
    reveal_strlit("user-agent");
    reveal_strlit("chatgpt-account-id");
    let token = client.auth.access_token@;
    let value = "Bearer "@ + token;
    assert(is_ascii_chars(value)) by {
        assert forall|i: int| 0 <= i < value.len() implies {
            &&& 0 <= #[trigger] value[i] as nat
            &&& value[i] as nat <= 127
        } by {
            if i >= 7 {
                assert(value[i] == token[i - 7]);
            }
        }
    }
    vstd::utf8::is_ascii_chars_encode_utf8(value);
    let bytes = encode_utf8(value);
    assert forall|i: int| 0 <= i < bytes.len() implies visible_byte(#[trigger] bytes[i]) by {
        assert(header_byte(bytes[i]));
        assert(bytes[i] == value[i] as u8);
    }
    assert(ascii_text(bytes) =~= value);
    assert("authorization"@.len() != "originator"@.len());
    assert("authorization"@.len() != "user-agent"@.len());
    assert("authorization"@.len() != "chatgpt-account-id"@.len());
    assert(request_headers(client)["authorization"@] == seq![bytes]);
    assert("Bearer "@.is_prefix_of(value));
    assert(value.skip(7) =~= token);
}

/// A request without a file is refused, whatever else it says, and whatever the fields are that
/// the server reads past.
pub proof fn a_file_is_required<F>(
    default_language: Option<Seq<char>>,
    fields: Seq<ReadField<F>>,
)
    requires
        forall|i: int| 0 <= i < fields.len() ==> !(#[trigger] fields[i] is File),
    ensures
        FormParts::<F>::unread(default_language).after(fields).upload is None,
{
    unread_fields_keep_their_defaults(FormParts::<F>::unread(default_language), fields);
}

/// A request that names no format is answered in JSON, and one for subtitles is refused.
pub proof fn formats_without_timestamps(value: Seq<char>)
    ensures
        requested_format(None) == Ok::<ResponseFormat, Seq<char>>(ResponseFormat::Json),
        requested_format(Some(value)) == requested_format(Some(trim(value))),
        trim(value) == "srt"@ || trim(value) == "vtt"@ ==> requested_format(Some(value)) is Err,
{
    reveal_strlit("");
    reveal_strlit("json");
    reveal_strlit("text");
    reveal_strlit("verbose_json");
    reveal_strlit("srt");
    reveal_strlit("vtt");
    trim_is_idempotent(value);
}

/// Every answer in JSON holds the text of the transcription.
pub proof fn json_answers_hold_the_text(text: Seq<char>, language: Option<Seq<char>>)
    ensures
        member(text_document(text), "text"@) == Some(JsonTree::Text(text)),
        member(verbose_document(text, language), "text"@) == Some(JsonTree::Text(text)),
{
    reveal_strlit("text");
    reveal_strlit("segments");
    reveal_with_fuel(member_map, 6);
    let members = verbose_members(text, language);
    assert("segments"@.len() != "text"@.len());
    assert(members.last().0 == "segments"@);
    assert(members.drop_last().last() == ("text"@, JsonTree::Text(text)));
    let short = seq![("text"@, JsonTree::Text(text))];
    assert(short.last() == ("text"@, JsonTree::Text(text)));
}

/// The body of a failed reply is cut to the number of bytes that is kept of it.
pub proof fn clipped_bodies_are_short(body: Seq<char>)
    requires
        clippable(body),
    ensures
        encode_utf8(clipped(body)).len() <= CLIP_BYTES,
{
    let bytes = encode_utf8(collapse(body));
    if bytes.len() > CLIP_BYTES {
        vstd::utf8::encode_utf8_valid_utf8(collapse(body));
        vstd::utf8::valid_utf8_split(bytes, CLIP_BYTES as int);
        assert(bytes.subrange(0, CLIP_BYTES as int) =~= bytes.take(CLIP_BYTES as int));
        vstd::utf8::decode_utf8_encode_utf8(bytes.take(CLIP_BYTES as int));
    }
}

/// A decoder on the path goes before every fallback.
pub proof fn the_path_goes_before_the_fallbacks<P>(candidates: DecoderCandidates<P>)
    requires
        candidates.explicit is None,
        candidates.configured is None,
        first_existing(candidates.on_path@) is Some,
    ensures
        candidates.choice() is Ok,
        candidates.choice()->Ok_0 == first_existing(candidates.on_path@)->0,
{
    lemma_first_existing_add(candidates.on_path@, candidates.fallback@);
}

} // verus!
