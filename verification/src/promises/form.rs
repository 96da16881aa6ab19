//! What the form of a transcription request promises.

use reqwest::header::HeaderMap;
use vstd::prelude::*;

use crate::client::TranscribeOptions;
use crate::form::{
    accept_upload, plan_field, uploaded_options, FieldPlan, TranscriptionForm, TranscriptionRequest,
    UploadMetadata,
};
use crate::media::{
    decoded_wav_filename, infer_content_type, normalize_upload_metadata, sanitize_filename,
    upload_suffix,
};
use crate::path::AudioPath;
use crate::promises::login::alike;
use crate::promises::server::says;
use crate::promises::text::{gives, lemma_trims_to, trims_to};
use crate::server::{authorize, ApiError, ResponseFormat};
use crate::text::trim;

verus! {

/// A field is taken by its name: the file under its sanitized name, with the content type that
/// came with it or else that of its name; the language; the format; and no other.
pub proof fn fields_are_taken_by_name(
    name: Option<&str>,
    file_name: Option<&str>,
    content_type: Option<&str>,
    given: &str,
    sanitized: String,
    kept: &str,
    path: AudioPath,
    inferred: &'static str,
    r: FieldPlan,
)
    requires
        call_ensures(plan_field, (name, file_name, content_type), r),
        given@ == if file_name is Some {
            file_name->0@
        } else {
            "audio"@
        },
        call_ensures(sanitize_filename, (given,), sanitized),
        kept@ == sanitized@,
        call_ensures(AudioPath::new, (kept,), path),
        call_ensures(infer_content_type, (&path,), inferred),
    ensures
        name is Some && name->0@ == "file"@ ==> (r matches FieldPlan::File {
            filename,
            content_type: t,
        } && filename@ == sanitized@ && t@ == if content_type is Some {
            content_type->0@
        } else {
            inferred@
        }),
        name is Some && name->0@ == "language"@ ==> r is Language,
        name is Some && name->0@ == "response_format"@ ==> r is ResponseFormat,
        name is None || (name->0@ != "file"@ && name->0@ != "language"@ && name->0@
            != "response_format"@) ==> r is Ignore,
{
    reveal_strlit("file");
    reveal_strlit("language");
    reveal_strlit("response_format");
    assert("file"@.len() == 4 && "language"@.len() == 8 && "response_format"@.len() == 15);
}

/// An upload is refused only where it is empty; else it is kept and sent on under its normal
/// name and content type.
pub proof fn uploads_are_accepted(
    filename: &str,
    content_type: String,
    bytes: &[u8],
    normal: (String, String),
    name: &str,
    kind: &str,
    suffix: String,
    r: Result<UploadMetadata, ApiError>,
)
    requires
        call_ensures(accept_upload, (filename, content_type, bytes), r),
        call_ensures(normalize_upload_metadata, (filename, content_type, bytes), normal),
        name@ == normal.0@,
        kind@ == normal.1@,
        call_ensures(upload_suffix, (name, kind), suffix),
    ensures
        bytes@.len() == 0 ==> r is Err && says(
            r->Err_0,
            400,
            "invalid_request_error"@,
            "file is empty"@,
        ),
        bytes@.len() > 0 ==> {
            &&& r is Ok
            &&& r->Ok_0.filename@ == normal.0@
            &&& r->Ok_0.content_type@ == normal.1@
            &&& r->Ok_0.suffix@ == suffix@
        },
{
}

/// No field is read of a request that does not pass; of one that passes, nothing was read.
pub proof fn requests_begin_with_the_key<F>(
    headers: HeaderMap,
    api_key: Option<&str>,
    language: Option<String>,
    passed: Result<(), ApiError>,
    r: Result<TranscriptionForm<F>, ApiError>,
    fresh: TranscriptionForm<F>,
)
    requires
        call_ensures(authorize, (&headers, api_key), passed),
        call_ensures(TranscriptionForm::<F>::begin, (&headers, api_key, language), r),
        call_ensures(TranscriptionForm::<F>::new, (language,), fresh),
    ensures
        passed is Ok <==> r is Ok,
        passed is Err ==> r->Err_0@ == passed->Err_0@,
        r is Ok ==> r->Ok_0@ == fresh@,
        fresh@.upload is None,
        fresh@.language is Some == language is Some,
        language is Some ==> fresh@.language == Some(language->0@),
        fresh@.response_format is None,
{
}

/// A field that was read replaces an earlier one of its name, and nothing else: the upload as it
/// is, the language and the format trimmed.
pub proof fn fields_replace_their_own_kind<F>(
    a: &mut TranscriptionForm<F>,
    b: &mut TranscriptionForm<F>,
    c: &mut TranscriptionForm<F>,
    file: F,
    filename: String,
    content_type: String,
    text: &str,
)
    requires
        call_ensures(TranscriptionForm::<F>::put_file, (a, file, filename, content_type), ()),
        call_ensures(TranscriptionForm::<F>::put_language, (b, text), ()),
        call_ensures(TranscriptionForm::<F>::put_response_format, (c, text), ()),
    ensures
        final(a)@.upload == Some((file, filename@, content_type@)),
        final(a)@.language == old(a)@.language,
        final(a)@.response_format == old(a)@.response_format,
        final(b)@.upload == old(b)@.upload,
        final(b)@.language is Some && trims_to(text@, final(b)@.language->0),
        final(b)@.response_format == old(b)@.response_format,
        final(c)@.upload == old(c)@.upload,
        final(c)@.language == old(c)@.language,
        final(c)@.response_format is Some && trims_to(text@, final(c)@.response_format->0),
{
    lemma_trims_to(text@, trim(text@));
}

/// What is put into a form comes out of it, however the form was before: the file and its name
/// and content type, and with them the language and the format.
pub proof fn what_is_put_in_comes_out<F>(
    form: &mut TranscriptionForm<F>,
    file: F,
    filename: String,
    content_type: String,
)
    requires
        call_ensures(TranscriptionForm::<F>::put_file, (form, file, filename, content_type), ()),
    ensures
        forall|r: Result<TranscriptionRequest<F>, ApiError>| #[trigger]
            call_ensures(TranscriptionForm::<F>::finish, (*final(form),), r) ==> {
                &&& r is Ok
                &&& r->Ok_0.file == file
                &&& r->Ok_0.filename@ == filename@
                &&& r->Ok_0.content_type@ == content_type@
                &&& r->Ok_0.language is Some == old(form)@.language is Some
                &&& r->Ok_0.language is Some ==> old(form)@.language == Some(r->Ok_0.language->0@)
                &&& r->Ok_0.response_format is Some == old(form)@.response_format is Some
                &&& r->Ok_0.response_format is Some ==> old(form)@.response_format == Some(
                    r->Ok_0.response_format->0@,
                )
            },
{
}

/// A request needs a file, and a format that there is; it is then what the form holds.
pub proof fn requests_need_a_file_and_a_format<F>(
    form: TranscriptionForm<F>,
    wanted: Option<&str>,
    format: Result<ResponseFormat, ApiError>,
    r: Result<TranscriptionRequest<F>, ApiError>,
    q: Result<(TranscriptionRequest<F>, ResponseFormat), ApiError>,
)
    requires
        call_ensures(TranscriptionForm::<F>::finish, (form,), r),
        call_ensures(TranscriptionForm::<F>::conclude, (form,), q),
        wanted is Some == form@.response_format is Some,
        wanted is Some ==> form@.response_format == Some(wanted->0@),
        call_ensures(ResponseFormat::parse, (wanted,), format),
    ensures
        form@.upload is None ==> r is Err && says(
            r->Err_0,
            400,
            "invalid_request_error"@,
            "missing multipart file field"@,
        ),
        form@.upload is Some ==> {
            &&& r is Ok
            &&& form@.upload == Some(
                (r->Ok_0.file, r->Ok_0.filename@, r->Ok_0.content_type@),
            )
            &&& r->Ok_0.language is Some == form@.language is Some
            &&& r->Ok_0.language is Some ==> form@.language == Some(r->Ok_0.language->0@)
            &&& r->Ok_0.response_format is Some == form@.response_format is Some
            &&& r->Ok_0.response_format is Some ==> form@.response_format == Some(
                r->Ok_0.response_format->0@,
            )
        },
        r is Err ==> q is Err && q->Err_0@ == r->Err_0@,
        r is Ok && format is Err ==> q is Err && q->Err_0@ == format->Err_0@,
        r is Ok && format is Ok ==> {
            &&& q matches Ok((request, f))
            &&& f == format->Ok_0
            &&& request.file == r->Ok_0.file
            &&& request.filename@ == r->Ok_0.filename@
            &&& request.content_type@ == r->Ok_0.content_type@
            &&& alike(request.language, r->Ok_0.language)
            &&& alike(request.response_format, r->Ok_0.response_format)
        },
{
}

/// An upload that was decoded is sent as WAV under the name of its stem, any other as it came.
pub proof fn decoded_uploads_are_sent_as_wav(
    decoded: bool,
    filename: String,
    content_type: String,
    language: Option<String>,
    name: &str,
    path: AudioPath,
    wav: String,
    r: TranscribeOptions,
)
    requires
        call_ensures(uploaded_options, (decoded, filename, content_type, language), r),
        name@ == filename@,
        call_ensures(AudioPath::new, (name,), path),
        call_ensures(decoded_wav_filename, (&path,), wav),
    ensures
        alike(r.language, language),
        decoded ==> gives(r.content_type, "audio/wav"@) && gives(r.filename, wav@),
        !decoded ==> gives(r.content_type, content_type@) && gives(r.filename, filename@),
{
}

} // verus!
