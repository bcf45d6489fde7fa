//! The audio operations: speech, transcription, translation and streamed
//! speech.
//!
//! Each operation prepares a request and leaves the sending to the caller. A
//! speech request is a JSON body, which a [`RequestConverter`] may rewrite. A
//! transcription or a translation is an upload: its fields of text are made
//! here, the caller resolves the audio, and [`PendingUpload::attach`] puts both
//! into a form.
use crate::v1::api::Client;
use crate::v1::error::APIError;
use crate::v1::json::number_text;
use crate::v1::json::render_number;
use crate::v1::json::Json;
use crate::v1::json::JsonView;
use crate::v1::multipart::form_fields;
use crate::v1::multipart::text_part;
use crate::v1::multipart::upload_fields;
use crate::v1::multipart::upload_form;
use crate::v1::multipart::MultipartRequest;
use crate::v1::resources::audio::optional_member;
use crate::v1::resources::audio::optional_text;
use crate::v1::resources::audio::AudioOutputFormat;
use crate::v1::resources::audio::AudioSpeechParameters;
use crate::v1::resources::audio::AudioSpeechResponse;
use crate::v1::resources::audio::AudioTranscriptionParameters;
use crate::v1::resources::audio::AudioTranslationParameters;
use crate::v1::resources::audio::FileUpload;
use crate::v1::resources::audio::StreamAudioSpeechParameters;
use crate::v1::resources::audio::TimestampGranularity;
use reqwest::multipart::Part;
use serde_json::Number;
use vstd::prelude::*;
use vstd::string::*;

verus! {

/// Where speech requests go.
pub open spec fn speech_path() -> Seq<char> {
    "/audio/speech"@
}

/// Where transcriptions go.
pub open spec fn transcriptions_path() -> Seq<char> {
    "/audio/transcriptions"@
}

/// Where translations go.
pub open spec fn translations_path() -> Seq<char> {
    "/audio/translations"@
}

/// What the caller is told when `extra_body` is not a flat object.
pub open spec fn extra_body_message() -> Seq<char> {
    "extra_body must be formatted as a map of key: value"@
}

/// No field for a value that is absent, one field for a value that is there.
pub open spec fn optional_field(name: Seq<char>, value: Option<Seq<char>>) -> Seq<
    (Seq<char>, Seq<char>),
> {
    match value {
        Some(v) => seq![(name, v)],
        None => Seq::empty(),
    }
}

/// The text of a flag.
pub open spec fn flag_text(flag: bool) -> Seq<char> {
    if flag {
        "true"@
    } else {
        "false"@
    }
}

/// The items with a comma between each two of them, in their order.
pub open spec fn comma_joined(items: Seq<Seq<char>>) -> Seq<char>
    decreases items.len(),
{
    if items.len() == 0 {
        Seq::empty()
    } else if items.len() == 1 {
        items[0]
    } else {
        comma_joined(items.drop_last()) + ","@ + items.last()
    }
}

/// The wire names of the granularities, in their order.
pub open spec fn granularity_names(items: Seq<TimestampGranularity>) -> Seq<Seq<char>> {
    Seq::new(items.len(), |i: int| items[i].text())
}

/// Whether some field has the given name.
pub open spec fn has_field(fields: Seq<(Seq<char>, Seq<char>)>, name: Seq<char>) -> bool {
    exists|i: int| 0 <= i < fields.len() && (#[trigger] fields[i]).0 == name
}

impl AudioTranscriptionParameters {
    /// Whether `extra_body` can be sent: it is absent, or a flat object.
    pub open spec fn accepted(self) -> bool {
        match self.extra_body {
            Some(extra) => extra@.is_flat_object(),
            None => true,
        }
    }

    /// The fields of text that the typed parameters give: `model` always, then
    /// one field for each optional parameter that is set, in this order.
    pub open spec fn typed_fields(self) -> Seq<(Seq<char>, Seq<char>)> {
        seq![("model"@, self.model@)] + optional_field("prompt"@, optional_text(self.prompt))
            + optional_field("language"@, optional_text(self.language)) + optional_field(
            "chunking_strategy"@,
            match self.chunking_strategy {
                Some(strategy) => Some(strategy.text()),
                None => None,
            },
        ) + optional_field(
            "response_format"@,
            match self.response_format {
                Some(format) => Some(format.text()),
                None => None,
            },
        ) + optional_field(
            "stream"@,
            match self.stream {
                Some(flag) => Some(flag_text(flag)),
                None => None,
            },
        ) + optional_field(
            "temperature"@,
            match self.temperature {
                Some(number) => Some(number_text(number)),
                None => None,
            },
        ) + optional_field(
            "timestamp_granularities"@,
            match self.timestamp_granularities {
                Some(items) => Some(comma_joined(granularity_names(items@))),
                None => None,
            },
        )
    }

    /// The fields of text that `extra_body` gives: one for each member of the
    /// object, named by the key, with the canonical text of the value.
    pub open spec fn extra_fields(self) -> Seq<(Seq<char>, Seq<char>)> {
        match self.extra_body {
            Some(extra) => extra@.flat_fields(),
            None => Seq::empty(),
        }
    }

    /// All fields of text of the upload: the typed ones, then the extra ones.
    pub open spec fn text_fields(self) -> Seq<(Seq<char>, Seq<char>)> {
        self.typed_fields() + self.extra_fields()
    }
}

impl AudioTranslationParameters {
    /// The fields of text of the upload: `model` always, then one field for
    /// each optional parameter that is set, in this order.
    pub open spec fn text_fields(self) -> Seq<(Seq<char>, Seq<char>)> {
        seq![("model"@, self.model@)] + optional_field("prompt"@, optional_text(self.prompt))
            + optional_field(
            "response_format"@,
            match self.response_format {
                Some(format) => Some(format.text()),
                None => None,
            },
        ) + optional_field(
            "temperature"@,
            match self.temperature {
                Some(number) => Some(number_text(number)),
                None => None,
            },
        )
    }
}

/// Appends one field.
fn push_field(fields: &mut Vec<(String, String)>, name: &str, value: String)
    ensures
        final(fields).deep_view() == old(fields).deep_view().push((name@, value@)),
{
    fields.push((name.to_owned(), value));
}

/// Appends the field of an optional value, if the value is there.
fn push_optional(fields: &mut Vec<(String, String)>, name: &str, value: Option<String>)
    ensures
        final(fields).deep_view() == old(fields).deep_view() + optional_field(
            name@,
            optional_text(value),
        ),
{
    if let Some(text) = value {
        push_field(fields, name, text);
    }
}

/// The text of a flag.
fn flag_string(flag: bool) -> (text: String)
    ensures
        text@ == flag_text(flag),
{
    if flag {
        "true".to_owned()
    } else {
        "false".to_owned()
    }
}

/// The wire names of the granularities with a comma between each two.
fn join_granularities(items: &Vec<TimestampGranularity>) -> (text: String)
    ensures
        text@ == comma_joined(granularity_names(items@)),
{
    let ghost names = granularity_names(items@);
    let mut text = String::new();
    let mut i: usize = 0;
    while i < items.len()
        invariant
            i <= items@.len(),
            names == granularity_names(items@),
            text@ == comma_joined(names.take(i as int)),
        decreases items@.len() - i,
    {
        if i > 0 {
            text.append(",");
        }
        text.append(items[i].as_str());
        assert(names.take(i + 1).drop_last() =~= names.take(i as int));
        i += 1;
    }
    assert(names.take(i as int) =~= names);
    text
}

/// Appends the fields to those that are there.
fn push_all(fields: &mut Vec<(String, String)>, more: Vec<(String, String)>)
    ensures
        final(fields).deep_view() == old(fields).deep_view() + more.deep_view(),
{
    let mut i: usize = 0;
    while i < more.len()
        invariant
            i <= more@.len(),
            fields.deep_view() == old(fields).deep_view() + more.deep_view().take(i as int),
        decreases more@.len() - i,
    {
        let ghost before = fields.deep_view();
        let name = more[i].0.clone();
        let value = more[i].1.clone();
        fields.push((name, value));
        i += 1;
        assert(fields.deep_view() =~= before.push(more.deep_view()[i - 1]));
    }
}

/// The text of an optional output format.
fn format_string(format: Option<AudioOutputFormat>) -> (text: Option<String>)
    ensures
        optional_text(text) == (match format {
            Some(f) => Some(f.text()),
            None => None,
        }),
{
    match format {
        Some(f) => Some(f.as_str().to_owned()),
        None => None,
    }
}

/// The text of an optional number.
fn number_string(number: Option<Number>) -> (text: Option<String>)
    ensures
        optional_text(text) == (match number {
            Some(n) => Some(number_text(n)),
            None => None,
        }),
{
    match number {
        Some(n) => Some(render_number(&n)),
        None => None,
    }
}

/// An upload whose fields of text are made and whose audio is still to be
/// resolved: `source` says where the audio comes from.
#[derive(Debug, PartialEq)]
pub struct PendingUpload {
    pub path: String,
    pub source: FileUpload,
    pub fields: Vec<(String, String)>,
}

impl PendingUpload {
    /// Completes the upload with what came of resolving the source. A part
    /// goes into the form under the name `file`, before the fields of text; a
    /// failure is handed on as it is, and no form is made.
    pub fn attach(self, resolved: Result<Part, APIError>) -> (request: Result<
        MultipartRequest,
        APIError,
    >)
        ensures
            match resolved {
                Ok(file) => request matches Ok(upload) && upload.path == self.path && form_fields(
                    upload.form,
                ) == upload_fields(file, self.fields.deep_view()),
                Err(error) => request == Err::<MultipartRequest, APIError>(error),
            },
    {
        match resolved {
            Ok(file) => {
                let form = upload_form(file, &self.fields);
                Ok(MultipartRequest { path: self.path, form })
            },
            Err(error) => Err(error),
        }
    }
}

/// A JSON request that is ready to be sent: where it goes, and its body.
#[derive(Debug, PartialEq)]
pub struct JsonRequest {
    pub path: String,
    pub body: Json,
}

/// Rewrites the canonical body of a speech request into the body that a
/// provider expects.
///
/// A converter is a function: what it returns depends on the body alone, and
/// calling it changes nothing. [`RequestConverter::converted`] is that
/// function, and [`RequestConverter::convert`] computes it. Calls may come
/// from several threads at once.
pub trait RequestConverter: Send + Sync {
    /// The body that the provider expects for a canonical body.
    spec fn converted(&self, canonical: JsonView) -> JsonView;

    /// Computes [`RequestConverter::converted`].
    fn convert(&self, canonical: &Json) -> (converted: Json)
        ensures
            converted@ == self.converted(canonical@),
    ;
}

/// The audio operations of a client.
pub struct Audio<'a> {
    pub client: &'a Client,
    /// Rewrites the body of speech requests, if set.
    pub request_converter: Option<Box<dyn RequestConverter>>,
}

impl Client {
    /// The audio operations of this client, with no converter set.
    pub fn audio(&self) -> (audio: Audio<'_>)
        ensures
            audio.client == self,
            audio.request_converter is None,
    {
        Audio { client: self, request_converter: None }
    }
}

impl Audio<'_> {
    /// Sets the converter for the speech requests that follow, in place of
    /// the one that was set, if any.
    pub fn set_request_converter(&mut self, converter: Box<dyn RequestConverter>) -> (audio:
        &mut Self)
        ensures
            audio.client == old(self).client,
            audio.request_converter == Some(converter),
            *final(self) == *final(audio),
    {
        let installed = Some(converter);
        self.request_converter = installed;
        self
    }

    /// Prepares a speech request. The body is the canonical body of the
    /// parameters, or what the converter makes of it if one is set.
    pub fn create_speech(&self, parameters: AudioSpeechParameters) -> (request: JsonRequest)
        ensures
            request.path@ == speech_path(),
            match self.request_converter {
                Some(converter) => request.body@ == converter.converted(parameters.body()),
                None => request.body@ == parameters.body(),
            },
    {
        let canonical = parameters.into_json();
        let body = match &self.request_converter {
            Some(converter) => converter.convert(&canonical),
            None => canonical,
        };
        JsonRequest { path: "/audio/speech".to_owned(), body }
    }

    /// Prepares the upload of a transcription, or refuses it: `extra_body`
    /// must be absent or a flat object, and nothing is made if it is not.
    pub fn create_transcription(&self, parameters: AudioTranscriptionParameters) -> (pending:
        Result<PendingUpload, APIError>)
        ensures
            match pending {
                Ok(upload) => {
                    &&& parameters.accepted()
                    &&& upload.path@ == transcriptions_path()
                    &&& upload.source == parameters.file
                    &&& upload.fields.deep_view() == parameters.text_fields()
                },
                Err(error) => {
                    &&& !parameters.accepted()
                    &&& error matches APIError::BadRequestError(message)
                    &&& message@ == extra_body_message()
                },
            },
    {
        let AudioTranscriptionParameters {
            file,
            model,
            prompt,
            language,
            chunking_strategy,
            response_format,
            stream,
            temperature,
            timestamp_granularities,
            extra_body,
        } = parameters;
        let extra: Vec<(String, String)> = match &extra_body {
            Some(value) => match value.flat_fields() {
                Some(fields) => fields,
                None => {
                    return Err(
                        APIError::BadRequestError(
                            "extra_body must be formatted as a map of key: value".to_owned(),
                        ),
                    );
                },
            },
            None => Vec::new(),
        };
        assert(extra.deep_view() =~= parameters.extra_fields());
        let mut fields: Vec<(String, String)> = Vec::new();
        push_field(&mut fields, "model", model);
        push_optional(&mut fields, "prompt", prompt);
        push_optional(&mut fields, "language", language);
        push_optional(
            &mut fields,
            "chunking_strategy",
            match chunking_strategy {
                Some(strategy) => Some(strategy.as_str().to_owned()),
                None => None,
            },
        );
        push_optional(&mut fields, "response_format", format_string(response_format));
        push_optional(
            &mut fields,
            "stream",
            match stream {
                Some(flag) => Some(flag_string(flag)),
                None => None,
            },
        );
        push_optional(&mut fields, "temperature", number_string(temperature));
        push_optional(
            &mut fields,
            "timestamp_granularities",
            match &timestamp_granularities {
                Some(items) => Some(join_granularities(items)),
                None => None,
            },
        );
        push_all(&mut fields, extra);
        Ok(PendingUpload { path: "/audio/transcriptions".to_owned(), source: file, fields })
    }

    /// Prepares the upload of a translation.
    pub fn create_translation(&self, parameters: AudioTranslationParameters) -> (upload:
        PendingUpload)
        ensures
            upload.path@ == translations_path(),
            upload.source == parameters.file,
            upload.fields.deep_view() == parameters.text_fields(),
    {
        let AudioTranslationParameters { file, model, prompt, response_format, temperature } =
            parameters;
        let mut fields: Vec<(String, String)> = Vec::new();
        push_field(&mut fields, "model", model);
        push_optional(&mut fields, "prompt", prompt);
        push_optional(&mut fields, "response_format", format_string(response_format));
        push_optional(&mut fields, "temperature", number_string(temperature));
        PendingUpload { path: "/audio/translations".to_owned(), source: file, fields }
    }

    /// Prepares a streamed speech request. The body is the canonical body of
    /// the streamed form of the parameters; no converter is applied to it.
    pub fn create_speech_stream(&self, parameters: AudioSpeechParameters) -> (request: JsonRequest)
        ensures
            request.path@ == speech_path(),
            request.body@ == StreamAudioSpeechParameters::of(parameters).body(),
    {
        let streamed = StreamAudioSpeechParameters::from_speech(parameters);
        JsonRequest { path: "/audio/speech".to_owned(), body: streamed.into_json() }
    }
}

/// The result of a speech operation, from what the transport came back with:
/// the bytes become the response, a failure is handed on as it is.
pub fn speech_response(outcome: Result<Vec<u8>, APIError>) -> (response: Result<
    AudioSpeechResponse,
    APIError,
>)
    ensures
        response == (match outcome {
            Ok(bytes) => Ok(AudioSpeechResponse { bytes }),
            Err(error) => Err(error),
        }),
{
    match outcome {
        Ok(bytes) => Ok(AudioSpeechResponse { bytes }),
        Err(error) => Err(error),
    }
}

/// A field of a concatenation is a field of one of the two parts.
pub proof fn lemma_has_field_concat(
    first: Seq<(Seq<char>, Seq<char>)>,
    second: Seq<(Seq<char>, Seq<char>)>,
    name: Seq<char>,
)
    ensures
        has_field(first + second, name) <==> has_field(first, name) || has_field(second, name),
{
    let both = first + second;
    if has_field(first, name) {
        let i = choose|i: int| 0 <= i < first.len() && (#[trigger] first[i]).0 == name;
        assert(both[i].0 == name);
    }
    if has_field(second, name) {
        let i = choose|i: int| 0 <= i < second.len() && (#[trigger] second[i]).0 == name;
        assert(both[first.len() + i].0 == name);
    }
    if has_field(both, name) {
        let i = choose|i: int| 0 <= i < both.len() && (#[trigger] both[i]).0 == name;
        if i < first.len() {
            assert(first[i].0 == name);
        } else {
            assert(second[i - first.len()].0 == name);
        }
    }
}

/// An optional field is there under its own name, and only if its value is.
pub proof fn lemma_has_field_optional(name: Seq<char>, value: Option<Seq<char>>, other: Seq<char>)
    ensures
        has_field(optional_field(name, value), other) <==> value is Some && name == other,
{
    if value is Some && name == other {
        assert(optional_field(name, value)[0].0 == other);
    }
}

/// After an optional field is appended, a name belongs to a field if it did
/// before, or if it is the name of the optional field and the value is there.
proof fn lemma_has_field_appended(
    fields: Seq<(Seq<char>, Seq<char>)>,
    name: Seq<char>,
    value: Option<Seq<char>>,
    other: Seq<char>,
)
    ensures
        has_field(fields + optional_field(name, value), other) <==> has_field(fields, other) || (
        value is Some && name == other),
{
    lemma_has_field_concat(fields, optional_field(name, value), other);
    lemma_has_field_optional(name, value, other);
}

/// The names of the typed fields differ from each other.
proof fn lemma_field_names_differ()
    ensures
        "model"@.len() == 5,
        "prompt"@.len() == 6,
        "language"@.len() == 8,
        "chunking_strategy"@.len() == 17,
        "response_format"@.len() == 15,
        "stream"@.len() == 6,
        "temperature"@.len() == 11,
        "timestamp_granularities"@.len() == 23,
        "prompt"@ != "stream"@,
{
    reveal_strlit("model");
    reveal_strlit("prompt");
    reveal_strlit("language");
    reveal_strlit("chunking_strategy");
    reveal_strlit("response_format");
    reveal_strlit("stream");
    reveal_strlit("temperature");
    reveal_strlit("timestamp_granularities");
    assert("prompt"@[0] != "stream"@[0]);
}

/// Among the typed fields of a transcription, `model` is always there, and
/// the field of an optional parameter is there if, and only if, the parameter
/// is set: one that is left unset has no field, not an empty one. No other
/// field is there.
pub proof fn lemma_transcription_fields_present(parameters: AudioTranscriptionParameters)
    ensures
        has_field(parameters.typed_fields(), "model"@),
        has_field(parameters.typed_fields(), "prompt"@) <==> parameters.prompt is Some,
        has_field(parameters.typed_fields(), "language"@) <==> parameters.language is Some,
        has_field(parameters.typed_fields(), "chunking_strategy"@)
            <==> parameters.chunking_strategy is Some,
        has_field(parameters.typed_fields(), "response_format"@)
            <==> parameters.response_format is Some,
        has_field(parameters.typed_fields(), "stream"@) <==> parameters.stream is Some,
        has_field(parameters.typed_fields(), "temperature"@) <==> parameters.temperature is Some,
        has_field(parameters.typed_fields(), "timestamp_granularities"@)
            <==> parameters.timestamp_granularities is Some,
        forall|name: Seq<char>| #[trigger]
            has_field(parameters.typed_fields(), name) ==> name == "model"@ || name == "prompt"@
                || name == "language"@ || name == "chunking_strategy"@ || name
                == "response_format"@ || name == "stream"@ || name == "temperature"@ || name
                == "timestamp_granularities"@,
{
    lemma_field_names_differ();
    let prompt = optional_text(parameters.prompt);
    let language = optional_text(parameters.language);
    let chunking = match parameters.chunking_strategy {
        Some(strategy) => Some(strategy.text()),
        None => None,
    };
    let format = match parameters.response_format {
        Some(format) => Some(format.text()),
        None => None,
    };
    let stream = match parameters.stream {
        Some(flag) => Some(flag_text(flag)),
        None => None,
    };
    let temperature = match parameters.temperature {
        Some(number) => Some(number_text(number)),
        None => None,
    };
    let granularities = match parameters.timestamp_granularities {
        Some(items) => Some(comma_joined(granularity_names(items@))),
        None => None,
    };
    let first = seq![("model"@, parameters.model@)];
    let second = first + optional_field("prompt"@, prompt);
    let third = second + optional_field("language"@, language);
    let fourth = third + optional_field("chunking_strategy"@, chunking);
    let fifth = fourth + optional_field("response_format"@, format);
    let sixth = fifth + optional_field("stream"@, stream);
    let seventh = sixth + optional_field("temperature"@, temperature);
    assert(first[0].0 == "model"@);
    assert forall|name: Seq<char>| #[trigger]
        has_field(parameters.typed_fields(), name) <==> name == "model"@ || (name == "prompt"@
            && prompt is Some) || (name == "language"@ && language is Some) || (name
            == "chunking_strategy"@ && chunking is Some) || (name == "response_format"@
            && format is Some) || (name == "stream"@ && stream is Some) || (name
            == "temperature"@ && temperature is Some) || (name == "timestamp_granularities"@
            && granularities is Some) by {
        lemma_has_field_appended(first, "prompt"@, prompt, name);
        lemma_has_field_appended(second, "language"@, language, name);
        lemma_has_field_appended(third, "chunking_strategy"@, chunking, name);
        lemma_has_field_appended(fourth, "response_format"@, format, name);
        lemma_has_field_appended(fifth, "stream"@, stream, name);
        lemma_has_field_appended(sixth, "temperature"@, temperature, name);
        lemma_has_field_appended(seventh, "timestamp_granularities"@, granularities, name);
    }
}

/// In the whole upload of a transcription, a name that `extra_body` does not
/// use belongs to a field if, and only if, it belongs to a typed field. So an
/// optional parameter that is left unset has no field in the upload, unless
/// `extra_body` holds a key of that name.
pub proof fn lemma_transcription_upload_fields(
    parameters: AudioTranscriptionParameters,
    name: Seq<char>,
)
    requires
        !has_field(parameters.extra_fields(), name),
    ensures
        has_field(parameters.text_fields(), name) <==> has_field(parameters.typed_fields(), name),
{
    lemma_has_field_concat(parameters.typed_fields(), parameters.extra_fields(), name);
}

/// Among the fields of a translation, `model` is always there, and the field
/// of an optional parameter is there if, and only if, the parameter is set.
/// No other field is there.
pub proof fn lemma_translation_fields_present(parameters: AudioTranslationParameters)
    ensures
        has_field(parameters.text_fields(), "model"@),
        has_field(parameters.text_fields(), "prompt"@) <==> parameters.prompt is Some,
        has_field(parameters.text_fields(), "response_format"@)
            <==> parameters.response_format is Some,
        has_field(parameters.text_fields(), "temperature"@) <==> parameters.temperature is Some,
        forall|name: Seq<char>| #[trigger]
            has_field(parameters.text_fields(), name) ==> name == "model"@ || name == "prompt"@
                || name == "response_format"@ || name == "temperature"@,
{
    lemma_field_names_differ();
    let prompt = optional_text(parameters.prompt);
    let format = match parameters.response_format {
        Some(format) => Some(format.text()),
        None => None,
    };
    let temperature = match parameters.temperature {
        Some(number) => Some(number_text(number)),
        None => None,
    };
    let first = seq![("model"@, parameters.model@)];
    let second = first + optional_field("prompt"@, prompt);
    let third = second + optional_field("response_format"@, format);
    assert(first[0].0 == "model"@);
    assert forall|name: Seq<char>| #[trigger]
        has_field(parameters.text_fields(), name) <==> name == "model"@ || (name == "prompt"@
            && prompt is Some) || (name == "response_format"@ && format is Some) || (name
            == "temperature"@ && temperature is Some) by {
        lemma_has_field_appended(first, "prompt"@, prompt, name);
        lemma_has_field_appended(second, "response_format"@, format, name);
        lemma_has_field_appended(third, "temperature"@, temperature, name);
    }
}

/// Each key of a flat object gives exactly one field: the field at the place
/// of the member has the key for its name and the canonical text of the
/// member's value, and no other field has that name.
pub proof fn lemma_flat_object_fields(extra: JsonView)
    requires
        extra.is_flat_object(),
    ensures
        extra.flat_fields().len() == extra->Object_0.len(),
        forall|i: int|
            0 <= i < extra->Object_0.len() ==> (#[trigger] extra.flat_fields()[i]) == (
                extra->Object_0[i].0,
                extra->Object_0[i].1.text(),
            ),
        forall|i: int, j: int|
            0 <= i < extra.flat_fields().len() && 0 <= j < extra.flat_fields().len() && (
            #[trigger] extra.flat_fields()[i]).0 == (#[trigger] extra.flat_fields()[j]).0 ==> i
                == j,
{
    let members = extra->Object_0;
    assert forall|i: int, j: int|
        0 <= i < extra.flat_fields().len() && 0 <= j < extra.flat_fields().len() && (
        #[trigger] extra.flat_fields()[i]).0 == (#[trigger] extra.flat_fields()[j]).0 implies i
        == j by {
        if i != j {
            assert(members[i].0 != members[j].0);
        }
    }
}

/// In the upload of a transcription whose `extra_body` is a flat object, the
/// part of each member stands after the file and the typed fields, at the
/// member's place: it is named by the key and made of the canonical text of
/// the member's value.
pub proof fn lemma_extra_body_parts(parameters: AudioTranscriptionParameters, file: Part, i: int)
    requires
        parameters.extra_body is Some,
        parameters.accepted(),
        0 <= i < parameters.extra_body->0@->Object_0.len(),
    ensures
        upload_fields(file, parameters.text_fields()).len() == 1 + parameters.typed_fields().len()
            + parameters.extra_body->0@->Object_0.len(),
        upload_fields(file, parameters.text_fields())[1 + parameters.typed_fields().len() + i] == (
            parameters.extra_body->0@->Object_0[i].0,
            text_part(parameters.extra_body->0@->Object_0[i].1.text()),
        ),
{
    lemma_flat_object_fields(parameters.extra_body->0@);
}

/// What is no flat object: a scalar, an array, and an object that holds an
/// array or an object.
pub proof fn lemma_not_flat(value: JsonView)
    ensures
        value.is_scalar() ==> !value.is_flat_object(),
        value is Array ==> !value.is_flat_object(),
        value matches JsonView::Object(members) && (exists|i: int|
            0 <= i < members.len() && !(#[trigger] members[i]).1.is_scalar())
            ==> !value.is_flat_object(),
{
}

/// The body of a streamed speech request ends with `stream` set to true, has
/// no other member of that name, and has no member `voice_text`, whatever the
/// parameters hold.
pub proof fn lemma_streamed_body(parameters: AudioSpeechParameters)
    ensures
        StreamAudioSpeechParameters::of(parameters).body() is Object,
        ({
            let members = StreamAudioSpeechParameters::of(parameters).body()->Object_0;
            &&& members.len() >= 4
            &&& members.last() == ("stream"@, JsonView::Bool(true))
            &&& forall|i: int| 0 <= i < members.len() - 1 ==> (#[trigger] members[i]).0 != "stream"@
            &&& forall|i: int| 0 <= i < members.len() ==> (#[trigger] members[i]).0 != "voice_text"@
        }),
{
    reveal_strlit("model");
    reveal_strlit("input");
    reveal_strlit("voice");
    reveal_strlit("voice_text");
    reveal_strlit("response_format");
    reveal_strlit("speed");
    reveal_strlit("stream");
    let streamed = StreamAudioSpeechParameters::of(parameters);
    let required = seq![
        ("model"@, JsonView::String(streamed.model@)),
        ("input"@, JsonView::String(streamed.input@)),
        ("voice"@, JsonView::String(streamed.voice.text())),
    ];
    let format = optional_member(
        "response_format"@,
        match streamed.response_format {
            Some(format) => Some(JsonView::String(format.text())),
            None => None,
        },
    );
    let speed = optional_member(
        "speed"@,
        match streamed.speed {
            Some(number) => Some(JsonView::Number(number)),
            None => None,
        },
    );
    let members = streamed.body()->Object_0;
    let prefix = required + format + speed;
    assert(members =~= prefix.push(("stream"@, JsonView::Bool(true))));
    assert forall|i: int| 0 <= i < prefix.len() implies (#[trigger] members[i]).0 != "stream"@
        && members[i].0 != "voice_text"@ by {
        if i < 3 {
            assert(required[i].0.len() == 5);
        } else if i < 3 + format.len() {
            assert(format[i - 3].0.len() == 15);
        } else {
            assert(speed[i - 3 - format.len()].0.len() == 5);
        }
    }
    assert(members.last().0.len() == 6);
}

} // verus!
