use openai_dive::v1::error::APIError;
use openai_dive::v1::resources::audio::AudioSpeechResponseChunkResponse;
use openai_dive::v1::stream::StreamDecoder;
use openai_dive::v1::stream::StreamState;

fn chunk(bytes: &[u8]) -> AudioSpeechResponseChunkResponse {
    AudioSpeechResponseChunkResponse { bytes: bytes.to_vec() }
}

/// Hands the items of a source to a fresh decoder, then the end of the
/// source, and collects what the consumer gets. The source is not pulled once
/// the decoder is over.
fn consume(
    items: Vec<Result<Vec<u8>, APIError>>,
) -> (Vec<Result<AudioSpeechResponseChunkResponse, APIError>>, StreamState) {
    let mut decoder = StreamDecoder::new();
    let mut seen = Vec::new();
    let mut source = items.into_iter();
    while !decoder.is_terminal() {
        if let Some(item) = decoder.next(source.next()) {
            seen.push(item);
        }
    }
    (seen, decoder.current_state())
}

#[test]
fn chunks_then_a_failure_are_decoded_in_order_and_the_stream_ends() {
    let failure = APIError::StreamError("broken pipe".to_string());
    let mut decoder = StreamDecoder::new();
    assert_eq!(decoder.next(Some(Ok(vec![1, 2]))), Some(Ok(chunk(&[1, 2]))));
    assert_eq!(decoder.next(Some(Ok(vec![3]))), Some(Ok(chunk(&[3]))));
    assert_eq!(decoder.next(Some(Err(failure.clone()))), Some(Err(failure)));
    assert!(decoder.is_terminal());
    assert_eq!(decoder.current_state(), StreamState::Errored);
    assert_eq!(decoder.next(None), None);
    assert_eq!(decoder.next(Some(Ok(vec![4]))), None);
    assert_eq!(decoder.current_state(), StreamState::Errored);
}

#[test]
fn a_source_of_two_chunks_and_a_failure_gives_three_items() {
    let failure = APIError::StreamError("broken pipe".to_string());
    let (seen, state) =
        consume(vec![Ok(vec![1, 2]), Ok(vec![3]), Err(failure.clone()), Ok(vec![9])]);
    assert_eq!(seen, vec![Ok(chunk(&[1, 2])), Ok(chunk(&[3])), Err(failure)]);
    assert_eq!(state, StreamState::Errored);
}

#[test]
fn a_source_that_ends_closes_the_stream() {
    let (seen, state) = consume(vec![Ok(vec![7]), Ok(Vec::new())]);
    assert_eq!(seen, vec![Ok(chunk(&[7])), Ok(chunk(&[]))]);
    assert_eq!(state, StreamState::Closed);
}

#[test]
fn an_empty_source_gives_nothing() {
    let (seen, state) = consume(Vec::new());
    assert_eq!(seen, Vec::new());
    assert_eq!(state, StreamState::Closed);
}

#[test]
fn a_stream_goes_from_open_to_consuming_to_closed() {
    let mut decoder = StreamDecoder::new();
    assert_eq!(decoder.current_state(), StreamState::Open);
    assert!(!decoder.is_terminal());
    assert_eq!(decoder.next(Some(Ok(vec![1]))), Some(Ok(chunk(&[1]))));
    assert_eq!(decoder.current_state(), StreamState::Consuming);
    assert!(!decoder.is_terminal());
    assert_eq!(decoder.next(None), None);
    assert_eq!(decoder.current_state(), StreamState::Closed);
    assert!(decoder.is_terminal());
    assert_eq!(decoder.next(Some(Ok(vec![2]))), None);
    assert_eq!(decoder.current_state(), StreamState::Closed);
}

#[test]
fn a_failure_as_the_first_event_ends_the_stream() {
    let failure = APIError::EndpointError("reset".to_string());
    let mut decoder = StreamDecoder::new();
    assert_eq!(decoder.next(Some(Err(failure.clone()))), Some(Err(failure)));
    assert_eq!(decoder.current_state(), StreamState::Errored);
}
