//! The form of a transcription request, read field by field.

use reqwest::header::HeaderMap;
use vstd::prelude::*;

use crate::client::TranscribeOptions;
use crate::http::header_values;
use crate::media::{
    decoded_name, decoded_wav_filename, infer_content_type, inferred_type, normal_name, normal_type,
    normalize_upload_metadata, sanitize_filename, sanitized, suffix_of, upload_suffix,
};
use crate::path::{opt_text, parts_of, AudioPath};
use crate::proxy::opt_str;
use crate::server::{
    authorize, bad_request, provided_key, requested_format, unauthorized, ApiError, ResponseFormat,
};
use crate::text::{equal_text, trim, trim_text};

verus! {

/// What is to be done with a field of the form.
#[derive(Debug, Clone)]
pub enum FieldPlan {
    /// Read the audio, which came under this file name and content type.
    File { filename: String, content_type: String },
    /// Read the text as the language.
    Language,
    /// Read the text as the format of the answer.
    ResponseFormat,
    /// Read past the field.
    Ignore,
}

/// What is to be done with a field of the form.
pub ghost enum PlanParts {
    File { filename: Seq<char>, content_type: Seq<char> },
    Language,
    ResponseFormat,
    Ignore,
}

impl View for FieldPlan {
    type V = PlanParts;

    open spec fn view(&self) -> PlanParts {
        match self {
            FieldPlan::File { filename, content_type } => PlanParts::File {
                filename: filename@,
                content_type: content_type@,
            },
            FieldPlan::Language => PlanParts::Language,
            FieldPlan::ResponseFormat => PlanParts::ResponseFormat,
            FieldPlan::Ignore => PlanParts::Ignore,
        }
    }
}

/// The plan for a field with the given name, file name and content type.
pub open spec fn planned(
    name: Option<Seq<char>>,
    file_name: Option<Seq<char>>,
    content_type: Option<Seq<char>>,
) -> PlanParts {
    if name == Some("file"@) {
        let filename = sanitized(
            match file_name {
                Some(f) => f,
                None => "audio"@,
            },
        );
        PlanParts::File {
            filename,
            content_type: match content_type {
                Some(t) => t,
                None => inferred_type(parts_of(filename)),
            },
        }
    } else if name == Some("language"@) {
        PlanParts::Language
    } else if name == Some("response_format"@) {
        PlanParts::ResponseFormat
    } else {
        PlanParts::Ignore
    }
}

/// Decides what is to be done with a field of the form, by its name. Every field but the file,
/// the language and the format of the answer is ignored.
pub fn plan_field(name: Option<&str>, file_name: Option<&str>, content_type: Option<&str>) -> (r:
    FieldPlan)
    ensures
        r@ == planned(opt_str(name), opt_str(file_name), opt_str(content_type)),
{
    let name = match name {
        Some(name) => name,
        None => return FieldPlan::Ignore,
    };
    if equal_text(name, "file") {
        let given = match file_name {
            Some(file_name) => file_name,
            None => "audio",
        };
        let filename = sanitize_filename(given);
        let content_type = match content_type {
            Some(content_type) => content_type.to_owned(),
            None => infer_content_type(&AudioPath::new(filename.as_str())).to_owned(),
        };
        FieldPlan::File { filename, content_type }
    } else if equal_text(name, "language") {
        FieldPlan::Language
    } else if equal_text(name, "response_format") {
        FieldPlan::ResponseFormat
    } else {
        FieldPlan::Ignore
    }
}

/// Under which name and content type an upload is sent on, and the suffix of the file in which
/// it is kept until then.
#[derive(Debug, Clone)]
pub struct UploadMetadata {
    pub filename: String,
    pub content_type: String,
    pub suffix: String,
}

/// Takes the audio of an upload, which came under the given file name and content type. An
/// empty upload is refused.
pub fn accept_upload(filename: &str, content_type: String, bytes: &[u8]) -> (r: Result<
    UploadMetadata,
    ApiError,
>)
    ensures
        match r {
            Ok(upload) => {
                &&& bytes@.len() > 0
                &&& upload.filename@ == normal_name(filename@, content_type@, bytes@)
                &&& upload.content_type@ == normal_type(content_type@, bytes@)
                &&& upload.suffix@ == suffix_of(upload.filename@, upload.content_type@)
            },
            Err(error) => bytes@.len() == 0 && error@ == bad_request("file is empty"@),
        },
{
    if bytes.len() == 0 {
        return Err(ApiError::bad_request("file is empty"));
    }
    let (filename, content_type) = normalize_upload_metadata(filename, content_type, bytes);
    let suffix = upload_suffix(filename.as_str(), content_type.as_str());
    Ok(UploadMetadata { filename, content_type, suffix })
}

/// An upload: the file in which its audio is kept, its file name and its content type.
#[derive(Debug)]
pub struct TranscriptionUpload<F> {
    pub file: F,
    pub filename: String,
    pub content_type: String,
}

/// What the fields read so far say.
#[derive(Debug)]
pub struct TranscriptionForm<F> {
    upload: Option<TranscriptionUpload<F>>,
    language: Option<String>,
    response_format: Option<String>,
}

/// A request for a transcription.
#[derive(Debug)]
pub struct TranscriptionRequest<F> {
    pub file: F,
    pub filename: String,
    pub content_type: String,
    pub language: Option<String>,
    pub response_format: Option<String>,
}

/// A field that was read.
pub ghost enum ReadField<F> {
    File { file: F, filename: Seq<char>, content_type: Seq<char> },
    Language(Seq<char>),
    ResponseFormat(Seq<char>),
    Ignored,
}

/// What the fields read so far say.
pub ghost struct FormParts<F> {
    pub upload: Option<(F, Seq<char>, Seq<char>)>,
    pub language: Option<Seq<char>>,
    pub response_format: Option<Seq<char>>,
}

impl<F> FormParts<F> {
    /// A form of which nothing was read.
    pub open spec fn unread(default_language: Option<Seq<char>>) -> Self {
        FormParts { upload: None, language: default_language, response_format: None }
    }

    /// The form after one more field: it replaces an earlier field of its name.
    pub open spec fn step(self, field: ReadField<F>) -> Self {
        match field {
            ReadField::File { file, filename, content_type } => FormParts {
                upload: Some((file, filename, content_type)),
                ..self
            },
            ReadField::Language(text) => FormParts { language: Some(trim(text)), ..self },
            ReadField::ResponseFormat(text) => FormParts {
                response_format: Some(trim(text)),
                ..self
            },
            ReadField::Ignored => self,
        }
    }

    /// The form after the given fields.
    pub open spec fn after(self, fields: Seq<ReadField<F>>) -> Self
        decreases fields.len(),
    {
        if fields.len() == 0 {
            self
        } else {
            self.after(fields.drop_last()).step(fields.last())
        }
    }
}

impl<F> View for TranscriptionForm<F> {
    type V = FormParts<F>;

    closed spec fn view(&self) -> FormParts<F> {
        FormParts {
            upload: match self.upload {
                Some(upload) => Some((upload.file, upload.filename@, upload.content_type@)),
                None => None,
            },
            language: opt_text(self.language),
            response_format: opt_text(self.response_format),
        }
    }
}

impl<F> TranscriptionForm<F> {
    /// A form of which nothing was read.
    pub fn new(default_language: Option<String>) -> (r: Self)
        ensures
            r@ == FormParts::<F>::unread(opt_text(default_language)),
    {
        TranscriptionForm { upload: None, language: default_language, response_format: None }
    }

    /// Starts on a request with the given headers. Without the key of the server, where it has
    /// one, no field of the request is read.
    pub fn begin(
        headers: &HeaderMap,
        api_key: Option<&str>,
        default_language: Option<String>,
    ) -> (r: Result<Self, ApiError>)
        ensures
            if api_key is None || provided_key(header_values(*headers)) == opt_str(api_key) {
                r matches Ok(form) && form@ == FormParts::<F>::unread(opt_text(default_language))
            } else {
                r matches Err(error) && error@ == unauthorized("missing or invalid bearer token"@)
            },
    {
        match authorize(headers, api_key) {
            Ok(()) => Ok(TranscriptionForm::new(default_language)),
            Err(error) => Err(error),
        }
    }

    /// Takes the upload, whose audio is kept in `file`.
    pub fn put_file(&mut self, file: F, filename: String, content_type: String)
        ensures
            final(self)@ == old(self)@.step(
                ReadField::File { file, filename: filename@, content_type: content_type@ },
            ),
    {
        self.upload = Some(TranscriptionUpload { file, filename, content_type });
    }

    /// Takes the language.
    pub fn put_language(&mut self, text: &str)
        ensures
            final(self)@ == old(self)@.step(ReadField::Language(text@)),
    {
        self.language = Some(trim_text(text));
    }

    /// Takes the format of the answer.
    pub fn put_response_format(&mut self, text: &str)
        ensures
            final(self)@ == old(self)@.step(ReadField::ResponseFormat(text@)),
    {
        self.response_format = Some(trim_text(text));
    }

    /// The request, once all fields were read. Without an upload there is none.
    pub fn finish(self) -> (r: Result<TranscriptionRequest<F>, ApiError>)
        ensures
            match self@.upload {
                Some((file, filename, content_type)) => {
                    &&& r matches Ok(request)
                    &&& request.file == file
                    &&& request.filename@ == filename
                    &&& request.content_type@ == content_type
                    &&& opt_text(request.language) == self@.language
                    &&& opt_text(request.response_format) == self@.response_format
                },
                None => r matches Err(error) && error@ == bad_request(
                    "missing multipart file field"@,
                ),
            },
    {
        match self.upload {
            Some(upload) => Ok(
                TranscriptionRequest {
                    file: upload.file,
                    filename: upload.filename,
                    content_type: upload.content_type,
                    language: self.language,
                    response_format: self.response_format,
                },
            ),
            None => Err(ApiError::bad_request("missing multipart file field")),
        }
    }
}

impl<F> TranscriptionForm<F> {
    /// The request, once all fields were read, and the format of its answer. Without an upload
    /// there is none, and then none for a format that there is not.
    pub fn conclude(self) -> (r: Result<(TranscriptionRequest<F>, ResponseFormat), ApiError>)
        ensures
            match (self@.upload, requested_format(self@.response_format)) {
                (None, _) => r matches Err(error) && error@ == bad_request(
                    "missing multipart file field"@,
                ),
                (Some(_), Err(message)) => r matches Err(error) && error@ == bad_request(message),
                (Some((file, filename, content_type)), Ok(format)) => {
                    &&& r matches Ok((request, f))
                    &&& f == format
                    &&& request.file == file
                    &&& request.filename@ == filename
                    &&& request.content_type@ == content_type
                    &&& opt_text(request.language) == self@.language
                    &&& opt_text(request.response_format) == self@.response_format
                },
            },
    {
        let request = match self.finish() {
            Ok(request) => request,
            Err(error) => return Err(error),
        };
        let wanted = match &request.response_format {
            Some(name) => ResponseFormat::parse(Some(name.as_str())),
            None => ResponseFormat::parse(None),
        };
        match wanted {
            Ok(format) => Ok((request, format)),
            Err(error) => Err(error),
        }
    }
}

/// The options with which an upload is transcribed, given whether it was decoded to WAV.
pub fn uploaded_options(
    decoded: bool,
    filename: String,
    content_type: String,
    language: Option<String>,
) -> (r: TranscribeOptions)
    ensures
        opt_text(r.filename) == Some(
            if decoded {
                decoded_name(parts_of(filename@))
            } else {
                filename@
            },
        ),
        opt_text(r.content_type) == Some(
            if decoded {
                "audio/wav"@
            } else {
                content_type@
            },
        ),
        r.language == language,
{
    if decoded {
        let path = AudioPath::new(filename.as_str());
        TranscribeOptions {
            language,
            content_type: Some("audio/wav".to_owned()),
            filename: Some(decoded_wav_filename(&path)),
        }
    } else {
        TranscribeOptions { language, content_type: Some(content_type), filename: Some(filename) }
    }
}

/// A form keeps the last upload, the last language and the last format that were read, and
/// the default language where none was read.
pub proof fn the_last_field_of_a_name_counts<F>(
    form: FormParts<F>,
    fields: Seq<ReadField<F>>,
    k: int,
)
    requires
        0 <= k < fields.len(),
    ensures
        (fields[k] is Language && forall|i: int|
            k < i < fields.len() ==> !(#[trigger] fields[i] is Language)) ==> form.after(
            fields,
        ).language == Some(trim(fields[k]->Language_0)),
        (fields[k] is ResponseFormat && forall|i: int|
            k < i < fields.len() ==> !(#[trigger] fields[i] is ResponseFormat)) ==> form.after(
            fields,
        ).response_format == Some(trim(fields[k]->ResponseFormat_0)),
        (fields[k] is File && forall|i: int|
            k < i < fields.len() ==> !(#[trigger] fields[i] is File)) ==> form.after(fields).upload
            == Some((fields[k]->file, fields[k]->filename, fields[k]->content_type)),
    decreases fields.len(),
{
    if k < fields.len() - 1 {
        let init = fields.drop_last();
        the_last_field_of_a_name_counts(form, init, k);
        assert(init[k] == fields[k]);
        assert forall|i: int| k < i < init.len() implies init[i] == fields[i] by {}
        assert(fields.last() == fields[fields.len() - 1]);
    }
}

/// What no field says stays as it was: without a language field the default language counts.
pub proof fn unread_fields_keep_their_defaults<F>(form: FormParts<F>, fields: Seq<ReadField<F>>)
    ensures
        (forall|i: int| 0 <= i < fields.len() ==> !(#[trigger] fields[i] is Language))
            ==> form.after(fields).language == form.language,
        (forall|i: int| 0 <= i < fields.len() ==> !(#[trigger] fields[i] is ResponseFormat))
            ==> form.after(fields).response_format == form.response_format,
        (forall|i: int| 0 <= i < fields.len() ==> !(#[trigger] fields[i] is File)) ==> form.after(
            fields,
        ).upload == form.upload,
    decreases fields.len(),
{
    if fields.len() > 0 {
        let init = fields.drop_last();
        unread_fields_keep_their_defaults(form, init);
        assert forall|i: int| 0 <= i < init.len() implies init[i] == fields[i] by {}
        assert(fields.last() == fields[fields.len() - 1]);
    }
}

/// The fields that are read past, such as `model`, `prompt`, `temperature` and
/// `timestamp_granularities`, have no effect, wherever they stand.
pub proof fn ignored_fields_have_no_effect<F>(form: FormParts<F>, fields: Seq<ReadField<F>>)
    ensures
        form.after(fields) == form.after(fields.filter(|f: ReadField<F>| !(f is Ignored))),
    decreases fields.len(),
{
    reveal(Seq::filter);
    if fields.len() > 0 {
        let keep = |f: ReadField<F>| !(f is Ignored);
        let init = fields.drop_last();
        ignored_fields_have_no_effect(form, init);
        if !(fields.last() is Ignored) {
            let kept = fields.filter(keep);
            assert(kept.drop_last() =~= init.filter(keep));
            assert(kept.last() == fields.last());
        }
    }
}

/// A field whose name is neither `file` nor `language` nor `response_format` is ignored.
pub proof fn other_names_are_ignored(
    name: Seq<char>,
    file_name: Option<Seq<char>>,
    content_type: Option<Seq<char>>,
)
    requires
        name != "file"@,
        name != "language"@,
        name != "response_format"@,
    ensures
        planned(Some(name), file_name, content_type) == PlanParts::Ignore,
        planned(None, file_name, content_type) == PlanParts::Ignore,
{
}

} // verus!
