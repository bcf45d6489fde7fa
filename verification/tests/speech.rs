use openai_dive::v1::api::Client;
use openai_dive::v1::endpoints::audio::speech_response;
use openai_dive::v1::endpoints::audio::RequestConverter;
use openai_dive::v1::error::APIError;
use openai_dive::v1::json::Json;
use openai_dive::v1::json::JsonView;
use openai_dive::v1::resources::audio::AudioSpeechParameters;
use openai_dive::v1::resources::audio::AudioSpeechResponse;
use openai_dive::v1::resources::audio::AudioSpeechResponseFormat;
use openai_dive::v1::resources::audio::AudioVoice;
use openai_dive::v1::resources::audio::StreamAudioSpeechParameters;
use serde_json::Number;

/// Adds the member `marker: true` to an object, and leaves any other value as
/// it is. `converted` is the ghost side of a converter: compiled code never
/// calls it.
struct Marker;

impl RequestConverter for Marker {
    fn converted(&self, _canonical: JsonView) -> JsonView {
        unreachable!()
    }

    fn convert(&self, canonical: &Json) -> Json {
        match canonical.clone() {
            Json::Object(mut members) => {
                members.push(("marker".to_string(), Json::Bool(true)));
                Json::Object(members)
            }
            other => other,
        }
    }
}

/// Replaces every body by `null`.
struct Blank;

impl RequestConverter for Blank {
    fn converted(&self, _canonical: JsonView) -> JsonView {
        unreachable!()
    }

    fn convert(&self, _canonical: &Json) -> Json {
        Json::Null
    }
}

fn client() -> Client {
    Client { base_url: "https://api.example.com/v1".to_string(), api_key: "key".to_string() }
}

fn speech() -> AudioSpeechParameters {
    AudioSpeechParameters {
        model: "tts-1".to_string(),
        input: "Hello".to_string(),
        voice: AudioVoice::Alloy,
        voice_text: None,
        response_format: None,
        speed: None,
    }
}

fn text(key: &str, value: &str) -> (String, Json) {
    (key.to_string(), Json::String(value.to_string()))
}

#[test]
fn audio_starts_without_a_converter() {
    let client = client();
    let audio = client.audio();
    assert!(audio.request_converter.is_none());
    assert_eq!(audio.client, &client);
}

#[test]
fn create_speech_sends_the_canonical_body() {
    let client = client();
    let request = client.audio().create_speech(speech());
    assert_eq!(request.path, "/audio/speech");
    assert_eq!(
        request.body,
        Json::Object(vec![text("model", "tts-1"), text("input", "Hello"), text("voice", "alloy")])
    );
}

#[test]
fn create_speech_sends_each_optional_member_that_is_set() {
    let client = client();
    let parameters = AudioSpeechParameters {
        model: "tts-1-hd".to_string(),
        input: "Good morning".to_string(),
        voice: AudioVoice::Shimmer,
        voice_text: Some("calm".to_string()),
        response_format: Some(AudioSpeechResponseFormat::Flac),
        speed: Some(Number::from_f64(1.25).unwrap()),
    };
    let request = client.audio().create_speech(parameters);
    assert_eq!(
        request.body,
        Json::Object(vec![
            text("model", "tts-1-hd"),
            text("input", "Good morning"),
            text("voice", "shimmer"),
            text("voice_text", "calm"),
            text("response_format", "flac"),
            ("speed".to_string(), Json::Number(Number::from_f64(1.25).unwrap())),
        ])
    );
}

#[test]
fn create_speech_applies_the_converter() {
    let client = client();
    let mut audio = client.audio();
    audio.set_request_converter(Box::new(Marker));
    let request = audio.create_speech(speech());
    assert_eq!(request.path, "/audio/speech");
    assert_eq!(
        request.body,
        Json::Object(vec![
            text("model", "tts-1"),
            text("input", "Hello"),
            text("voice", "alloy"),
            ("marker".to_string(), Json::Bool(true)),
        ])
    );
}

#[test]
fn create_speech_sends_what_the_converter_returns() {
    let client = client();
    let mut audio = client.audio();
    audio.set_request_converter(Box::new(Blank));
    assert_eq!(audio.create_speech(speech()).body, Json::Null);
}

#[test]
fn set_request_converter_replaces_the_converter() {
    let client = client();
    let mut audio = client.audio();
    audio.set_request_converter(Box::new(Blank)).set_request_converter(Box::new(Marker));
    assert!(audio.request_converter.is_some());
    let request = audio.create_speech(speech());
    assert!(matches!(request.body, Json::Object(ref members) if members.len() == 4));
}

#[test]
fn create_speech_stream_does_not_apply_the_converter() {
    let client = client();
    let mut audio = client.audio();
    audio.set_request_converter(Box::new(Marker));
    let request = audio.create_speech_stream(speech());
    assert_eq!(request.path, "/audio/speech");
    assert_eq!(
        request.body,
        Json::Object(vec![
            text("model", "tts-1"),
            text("input", "Hello"),
            text("voice", "alloy"),
            ("stream".to_string(), Json::Bool(true)),
        ])
    );
}

#[test]
fn create_speech_stream_sets_stream_and_drops_voice_text() {
    let client = client();
    let parameters = AudioSpeechParameters {
        model: "tts-1".to_string(),
        input: "Hello".to_string(),
        voice: AudioVoice::Nova,
        voice_text: Some("whispering".to_string()),
        response_format: Some(AudioSpeechResponseFormat::Mp3),
        speed: Some(Number::from(2)),
    };
    let request = client.audio().create_speech_stream(parameters);
    assert_eq!(
        request.body,
        Json::Object(vec![
            text("model", "tts-1"),
            text("input", "Hello"),
            text("voice", "nova"),
            text("response_format", "mp3"),
            ("speed".to_string(), Json::Number(Number::from(2))),
            ("stream".to_string(), Json::Bool(true)),
        ])
    );
}

#[test]
fn from_speech_sets_stream_and_clears_voice_text() {
    let parameters = AudioSpeechParameters {
        model: "tts-1".to_string(),
        input: "Hello".to_string(),
        voice: AudioVoice::Echo,
        voice_text: Some("whispering".to_string()),
        response_format: None,
        speed: None,
    };
    let streamed = StreamAudioSpeechParameters::from_speech(parameters);
    assert_eq!(
        streamed,
        StreamAudioSpeechParameters {
            model: "tts-1".to_string(),
            input: "Hello".to_string(),
            voice: AudioVoice::Echo,
            voice_text: None,
            response_format: None,
            speed: None,
            stream: true,
        }
    );
}

#[test]
fn streamed_parameters_send_what_they_hold() {
    let streamed = StreamAudioSpeechParameters {
        model: "m".to_string(),
        input: "i".to_string(),
        voice: AudioVoice::Onyx,
        voice_text: Some("t".to_string()),
        response_format: None,
        speed: None,
        stream: false,
    };
    assert_eq!(
        streamed.into_json(),
        Json::Object(vec![
            text("model", "m"),
            text("input", "i"),
            text("voice", "onyx"),
            text("voice_text", "t"),
            ("stream".to_string(), Json::Bool(false)),
        ])
    );
}

#[test]
fn voices_and_formats_have_their_wire_names() {
    assert_eq!(AudioVoice::Alloy.as_str(), "alloy");
    assert_eq!(AudioVoice::Ash.as_str(), "ash");
    assert_eq!(AudioVoice::Coral.as_str(), "coral");
    assert_eq!(AudioVoice::Echo.as_str(), "echo");
    assert_eq!(AudioVoice::Fable.as_str(), "fable");
    assert_eq!(AudioVoice::Onyx.as_str(), "onyx");
    assert_eq!(AudioVoice::Nova.as_str(), "nova");
    assert_eq!(AudioVoice::Sage.as_str(), "sage");
    assert_eq!(AudioVoice::Shimmer.as_str(), "shimmer");
    assert_eq!(AudioSpeechResponseFormat::Mp3.as_str(), "mp3");
    assert_eq!(AudioSpeechResponseFormat::Opus.as_str(), "opus");
    assert_eq!(AudioSpeechResponseFormat::Aac.as_str(), "aac");
    assert_eq!(AudioSpeechResponseFormat::Flac.as_str(), "flac");
    assert_eq!(AudioSpeechResponseFormat::Wav.as_str(), "wav");
    assert_eq!(AudioSpeechResponseFormat::Pcm.as_str(), "pcm");
}

#[test]
fn speech_response_wraps_the_bytes() {
    assert_eq!(
        speech_response(Ok(vec![1, 2, 3])),
        Ok(AudioSpeechResponse { bytes: vec![1, 2, 3] })
    );
    assert_eq!(speech_response(Ok(Vec::new())), Ok(AudioSpeechResponse { bytes: Vec::new() }));
}

#[test]
fn speech_response_hands_a_failure_on() {
    let failure = APIError::EndpointError("connection reset".to_string());
    assert_eq!(speech_response(Err(failure.clone())), Err(failure));
}

#[test]
fn errors_give_their_message() {
    assert_eq!(APIError::BadRequestError("a".to_string()).message(), "a");
    assert_eq!(APIError::ParseError("b".to_string()).message(), "b");
    assert_eq!(APIError::FileError("c".to_string()).message(), "c");
    assert_eq!(APIError::EndpointError("d".to_string()).message(), "d");
    assert_eq!(APIError::StreamError("e".to_string()).message(), "e");
}
