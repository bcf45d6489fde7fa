//! The parameters and responses of the audio operations, and the canonical
//! JSON form of the speech parameters.
use crate::v1::json::lemma_object_members;
use crate::v1::json::members_view;
use crate::v1::json::Json;
use crate::v1::json::JsonView;
use serde_json::Number;
use vstd::prelude::*;

verus! {

/// The voice that speaks.
#[derive(Clone, Copy, Debug, PartialEq, Eq)]
pub enum AudioVoice {
    Alloy,
    Ash,
    Coral,
    Echo,
    Fable,
    Onyx,
    Nova,
    Sage,
    Shimmer,
}

impl AudioVoice {
    /// The name under which the voice goes over the wire.
    pub open spec fn text(self) -> Seq<char> {
        match self {
            AudioVoice::Alloy => "alloy"@,
            AudioVoice::Ash => "ash"@,
            AudioVoice::Coral => "coral"@,
            AudioVoice::Echo => "echo"@,
            AudioVoice::Fable => "fable"@,
            AudioVoice::Onyx => "onyx"@,
            AudioVoice::Nova => "nova"@,
            AudioVoice::Sage => "sage"@,
            AudioVoice::Shimmer => "shimmer"@,
        }
    }

    /// The name under which the voice goes over the wire.
    pub fn as_str(&self) -> (name: &'static str)
        ensures
            name@ == self.text(),
    {
        match self {
            AudioVoice::Alloy => "alloy",
            AudioVoice::Ash => "ash",
            AudioVoice::Coral => "coral",
            AudioVoice::Echo => "echo",
            AudioVoice::Fable => "fable",
            AudioVoice::Onyx => "onyx",
            AudioVoice::Nova => "nova",
            AudioVoice::Sage => "sage",
            AudioVoice::Shimmer => "shimmer",
        }
    }
}

/// The encoding of synthesised audio.
#[derive(Clone, Copy, Debug, PartialEq, Eq)]
pub enum AudioSpeechResponseFormat {
    Mp3,
    Opus,
    Aac,
    Flac,
    Wav,
    Pcm,
}

impl AudioSpeechResponseFormat {
    /// The name under which the format goes over the wire.
    pub open spec fn text(self) -> Seq<char> {
        match self {
            AudioSpeechResponseFormat::Mp3 => "mp3"@,
            AudioSpeechResponseFormat::Opus => "opus"@,
            AudioSpeechResponseFormat::Aac => "aac"@,
            AudioSpeechResponseFormat::Flac => "flac"@,
            AudioSpeechResponseFormat::Wav => "wav"@,
            AudioSpeechResponseFormat::Pcm => "pcm"@,
        }
    }

    /// The name under which the format goes over the wire.
    pub fn as_str(&self) -> (name: &'static str)
        ensures
            name@ == self.text(),
    {
        match self {
            AudioSpeechResponseFormat::Mp3 => "mp3",
            AudioSpeechResponseFormat::Opus => "opus",
            AudioSpeechResponseFormat::Aac => "aac",
            AudioSpeechResponseFormat::Flac => "flac",
            AudioSpeechResponseFormat::Wav => "wav",
            AudioSpeechResponseFormat::Pcm => "pcm",
        }
    }
}

/// The shape in which a transcript or a translation comes back.
#[derive(Clone, Copy, Debug, PartialEq, Eq)]
pub enum AudioOutputFormat {
    Json,
    Text,
    Srt,
    VerboseJson,
    Vtt,
}

impl AudioOutputFormat {
    /// The name under which the format goes over the wire.
    pub open spec fn text(self) -> Seq<char> {
        match self {
            AudioOutputFormat::Json => "json"@,
            AudioOutputFormat::Text => "text"@,
            AudioOutputFormat::Srt => "srt"@,
            AudioOutputFormat::VerboseJson => "verbose_json"@,
            AudioOutputFormat::Vtt => "vtt"@,
        }
    }

    /// The name under which the format goes over the wire.
    pub fn as_str(&self) -> (name: &'static str)
        ensures
            name@ == self.text(),
    {
        match self {
            AudioOutputFormat::Json => "json",
            AudioOutputFormat::Text => "text",
            AudioOutputFormat::Srt => "srt",
            AudioOutputFormat::VerboseJson => "verbose_json",
            AudioOutputFormat::Vtt => "vtt",
        }
    }
}

/// How the provider cuts the audio into chunks before it transcribes them.
#[derive(Clone, Copy, Debug, PartialEq, Eq)]
pub enum TranscriptionChunkingStrategy {
    Auto,
    ServerVad,
}

impl TranscriptionChunkingStrategy {
    /// The name under which the strategy goes over the wire.
    pub open spec fn text(self) -> Seq<char> {
        match self {
            TranscriptionChunkingStrategy::Auto => "auto"@,
            TranscriptionChunkingStrategy::ServerVad => "server_vad"@,
        }
    }

    /// The name under which the strategy goes over the wire.
    pub fn as_str(&self) -> (name: &'static str)
        ensures
            name@ == self.text(),
    {
        match self {
            TranscriptionChunkingStrategy::Auto => "auto",
            TranscriptionChunkingStrategy::ServerVad => "server_vad",
        }
    }
}

/// The unit for which a transcript carries timestamps.
#[derive(Clone, Copy, Debug, PartialEq, Eq)]
pub enum TimestampGranularity {
    Word,
    Segment,
}

impl TimestampGranularity {
    /// The name under which the granularity goes over the wire.
    pub open spec fn text(self) -> Seq<char> {
        match self {
            TimestampGranularity::Word => "word"@,
            TimestampGranularity::Segment => "segment"@,
        }
    }

    /// The name under which the granularity goes over the wire.
    pub fn as_str(&self) -> (name: &'static str)
        ensures
            name@ == self.text(),
    {
        match self {
            TimestampGranularity::Word => "word",
            TimestampGranularity::Segment => "segment",
        }
    }
}

/// Audio held in memory, with the name under which it is uploaded.
#[derive(Clone, Debug, PartialEq, Eq)]
pub struct FileUploadBytes {
    pub bytes: Vec<u8>,
    pub filename: String,
}

/// Where the audio of an upload comes from. Whoever resolves the source reads
/// it and makes the binary part.
#[derive(Clone, Debug, PartialEq, Eq)]
pub enum FileUpload {
    /// A file, by its path.
    File(String),
    /// A buffer in memory.
    Bytes(FileUploadBytes),
}

/// What to synthesise. `voice_text` is read by some providers only.
#[derive(Clone, Debug, PartialEq)]
pub struct AudioSpeechParameters {
    pub model: String,
    pub input: String,
    pub voice: AudioVoice,
    pub voice_text: Option<String>,
    pub response_format: Option<AudioSpeechResponseFormat>,
    pub speed: Option<Number>,
}

/// What to synthesise as a stream of chunks.
#[derive(Clone, Debug, PartialEq)]
pub struct StreamAudioSpeechParameters {
    pub model: String,
    pub input: String,
    pub voice: AudioVoice,
    pub voice_text: Option<String>,
    pub response_format: Option<AudioSpeechResponseFormat>,
    pub speed: Option<Number>,
    pub stream: bool,
}

/// What to transcribe, and how.
#[derive(Clone, Debug, PartialEq)]
pub struct AudioTranscriptionParameters {
    pub file: FileUpload,
    pub model: String,
    pub prompt: Option<String>,
    pub language: Option<String>,
    pub chunking_strategy: Option<TranscriptionChunkingStrategy>,
    pub response_format: Option<AudioOutputFormat>,
    pub stream: Option<bool>,
    pub temperature: Option<Number>,
    pub timestamp_granularities: Option<Vec<TimestampGranularity>>,
    /// Further fields for the provider: a flat JSON object.
    pub extra_body: Option<Json>,
}

/// What to translate into English, and how.
#[derive(Clone, Debug, PartialEq)]
pub struct AudioTranslationParameters {
    pub file: FileUpload,
    pub model: String,
    pub prompt: Option<String>,
    pub response_format: Option<AudioOutputFormat>,
    pub temperature: Option<Number>,
}

/// Synthesised audio: the bytes of the response, as they came.
#[derive(Clone, Debug, PartialEq, Eq)]
pub struct AudioSpeechResponse {
    pub bytes: Vec<u8>,
}

/// One chunk of streamed audio: its bytes, as they came.
#[derive(Clone, Debug, PartialEq, Eq)]
pub struct AudioSpeechResponseChunkResponse {
    pub bytes: Vec<u8>,
}

/// No member for a value that is absent, one member for a value that is there.
pub open spec fn optional_member(key: Seq<char>, value: Option<JsonView>) -> Seq<
    (Seq<char>, JsonView),
> {
    match value {
        Some(v) => seq![(key, v)],
        None => Seq::empty(),
    }
}

/// The members that both speech bodies begin with: `model`, `input` and
/// `voice` always, then each of `voice_text`, `response_format` and `speed`
/// that is set.
pub open spec fn speech_members(
    model: Seq<char>,
    input: Seq<char>,
    voice: AudioVoice,
    voice_text: Option<Seq<char>>,
    response_format: Option<AudioSpeechResponseFormat>,
    speed: Option<Number>,
) -> Seq<(Seq<char>, JsonView)> {
    seq![
        ("model"@, JsonView::String(model)),
        ("input"@, JsonView::String(input)),
        ("voice"@, JsonView::String(voice.text())),
    ] + optional_member(
        "voice_text"@,
        match voice_text {
            Some(text) => Some(JsonView::String(text)),
            None => None,
        },
    ) + optional_member(
        "response_format"@,
        match response_format {
            Some(format) => Some(JsonView::String(format.text())),
            None => None,
        },
    ) + optional_member(
        "speed"@,
        match speed {
            Some(number) => Some(JsonView::Number(number)),
            None => None,
        },
    )
}

/// The text of an optional string.
pub open spec fn optional_text(value: Option<String>) -> Option<Seq<char>> {
    match value {
        Some(text) => Some(text@),
        None => None,
    }
}

/// Appends one member.
fn push_member(members: &mut Vec<(String, Json)>, key: &str, value: Json)
    ensures
        members_view(final(members)@) == members_view(old(members)@).push((key@, value@)),
{
    members.push((key.to_owned(), value));
}

/// Builds the members that both speech bodies begin with.
fn build_speech_members(
    model: String,
    input: String,
    voice: AudioVoice,
    voice_text: Option<String>,
    response_format: Option<AudioSpeechResponseFormat>,
    speed: Option<Number>,
) -> (members: Vec<(String, Json)>)
    ensures
        members_view(members@) == speech_members(
            model@,
            input@,
            voice,
            optional_text(voice_text),
            response_format,
            speed,
        ),
{
    let mut members: Vec<(String, Json)> = Vec::new();
    push_member(&mut members, "model", Json::String(model));
    push_member(&mut members, "input", Json::String(input));
    push_member(&mut members, "voice", Json::String(voice.as_str().to_owned()));
    if let Some(text) = voice_text {
        push_member(&mut members, "voice_text", Json::String(text));
    }
    if let Some(format) = response_format {
        push_member(&mut members, "response_format", Json::String(format.as_str().to_owned()));
    }
    if let Some(number) = speed {
        push_member(&mut members, "speed", Json::Number(number));
    }
    members
}

impl AudioSpeechParameters {
    /// The canonical JSON body of the request.
    pub open spec fn body(self) -> JsonView {
        JsonView::Object(
            speech_members(
                self.model@,
                self.input@,
                self.voice,
                optional_text(self.voice_text),
                self.response_format,
                self.speed,
            ),
        )
    }

    /// Brings the parameters into their canonical JSON form.
    pub fn into_json(self) -> (body: Json)
        ensures
            body@ == self.body(),
    {
        let members = build_speech_members(
            self.model,
            self.input,
            self.voice,
            self.voice_text,
            self.response_format,
            self.speed,
        );
        proof {
            lemma_object_members(members);
        }
        Json::Object(members)
    }
}

impl StreamAudioSpeechParameters {
    /// The parameters of the streamed form of a request: `stream` is set and
    /// `voice_text` is dropped, whatever it held; the rest is kept.
    pub open spec fn of(parameters: AudioSpeechParameters) -> StreamAudioSpeechParameters {
        StreamAudioSpeechParameters {
            model: parameters.model,
            input: parameters.input,
            voice: parameters.voice,
            voice_text: None,
            response_format: parameters.response_format,
            speed: parameters.speed,
            stream: true,
        }
    }

    /// Makes the parameters of the streamed form of a request.
    pub fn from_speech(parameters: AudioSpeechParameters) -> (streamed: StreamAudioSpeechParameters)
        ensures
            streamed == Self::of(parameters),
    {
        StreamAudioSpeechParameters {
            model: parameters.model,
            input: parameters.input,
            voice: parameters.voice,
            voice_text: None,
            response_format: parameters.response_format,
            speed: parameters.speed,
            stream: true,
        }
    }

    /// The canonical JSON body of the request: the members of the speech body,
    /// then `stream`.
    pub open spec fn body(self) -> JsonView {
        JsonView::Object(
            speech_members(
                self.model@,
                self.input@,
                self.voice,
                optional_text(self.voice_text),
                self.response_format,
                self.speed,
            ).push(("stream"@, JsonView::Bool(self.stream))),
        )
    }

    /// Brings the parameters into their canonical JSON form.
    pub fn into_json(self) -> (body: Json)
        ensures
            body@ == self.body(),
    {
        let mut members = build_speech_members(
            self.model,
            self.input,
            self.voice,
            self.voice_text,
            self.response_format,
            self.speed,
        );
        push_member(&mut members, "stream", Json::Bool(self.stream));
        proof {
            lemma_object_members(members);
        }
        Json::Object(members)
    }
}

} // verus!
