//! Decoding a streamed speech response, one event of the source at a time.
//!
//! The caller pulls from the source and hands each event to
//! [`StreamDecoder::next`]: a chunk of bytes, a failure, or the end. The
//! decoder says what the consumer gets for it, and stops for good when the
//! source has closed or failed.
use crate::v1::error::APIError;
use crate::v1::resources::audio::AudioSpeechResponseChunkResponse;
use vstd::prelude::*;

verus! {

/// Where a streamed response stands.
#[derive(Clone, Copy, Debug, PartialEq, Eq)]
pub enum StreamState {
    /// Nothing has come from the source yet.
    Open,
    /// At least one chunk has come, and more may follow.
    Consuming,
    /// The source has ended.
    Closed,
    /// The source has failed.
    Errored,
}

impl StreamState {
    /// Whether the stream is over: nothing follows a closed or a failed
    /// stream.
    pub open spec fn is_terminal(self) -> bool {
        self is Closed || self is Errored
    }
}

/// The state after an event. `None` is the end of the source.
pub open spec fn next_state(
    state: StreamState,
    event: Option<Result<Vec<u8>, APIError>>,
) -> StreamState {
    if state.is_terminal() {
        state
    } else {
        match event {
            Some(Ok(_)) => StreamState::Consuming,
            Some(Err(_)) => StreamState::Errored,
            None => StreamState::Closed,
        }
    }
}

/// What the consumer gets for an event: a chunk for bytes, the failure for a
/// failure, and nothing at the end of the source or once the stream is over.
pub open spec fn emitted(state: StreamState, event: Option<Result<Vec<u8>, APIError>>) -> Option<
    Result<AudioSpeechResponseChunkResponse, APIError>,
> {
    if state.is_terminal() {
        None
    } else {
        match event {
            Some(Ok(bytes)) => Some(Ok(AudioSpeechResponseChunkResponse { bytes })),
            Some(Err(error)) => Some(Err(error)),
            None => None,
        }
    }
}

/// What the consumer gets, in all, of a source that yields these items and
/// then ends: a chunk for each item up to the first failure, then that
/// failure, and nothing after it.
pub open spec fn decoded(items: Seq<Result<Vec<u8>, APIError>>) -> Seq<
    Result<AudioSpeechResponseChunkResponse, APIError>,
>
    decreases items.len(),
{
    if items.len() == 0 {
        Seq::empty()
    } else {
        match items[0] {
            Ok(bytes) => seq![Ok(AudioSpeechResponseChunkResponse { bytes })] + decoded(
                items.drop_first(),
            ),
            Err(error) => seq![Err(error)],
        }
    }
}

/// The events of a source that yields these items and then ends.
pub open spec fn events_of(items: Seq<Result<Vec<u8>, APIError>>) -> Seq<
    Option<Result<Vec<u8>, APIError>>,
> {
    Seq::new(items.len() + 1, |i: int| if i < items.len() { Some(items[i]) } else { None })
}

/// What the consumer gets when the events are handed to a decoder in the
/// given state, one after the other.
pub open spec fn outputs(state: StreamState, events: Seq<Option<Result<Vec<u8>, APIError>>>) -> Seq<
    Result<AudioSpeechResponseChunkResponse, APIError>,
>
    decreases events.len(),
{
    if events.len() == 0 {
        Seq::empty()
    } else {
        let rest = outputs(next_state(state, events[0]), events.drop_first());
        match emitted(state, events[0]) {
            Some(item) => seq![item] + rest,
            None => rest,
        }
    }
}

/// The state in which the events leave a decoder.
pub open spec fn state_after(
    state: StreamState,
    events: Seq<Option<Result<Vec<u8>, APIError>>>,
) -> StreamState
    decreases events.len(),
{
    if events.len() == 0 {
        state
    } else {
        state_after(next_state(state, events[0]), events.drop_first())
    }
}

/// The decoder of one streamed response.
#[derive(Debug, PartialEq, Eq)]
pub struct StreamDecoder {
    state: StreamState,
}

impl StreamDecoder {
    /// Where the stream stands.
    pub closed spec fn state(self) -> StreamState {
        self.state
    }

    /// A decoder for a response that has just been opened.
    pub fn new() -> (decoder: StreamDecoder)
        ensures
            decoder.state() == StreamState::Open,
    {
        StreamDecoder { state: StreamState::Open }
    }

    /// Where the stream stands.
    pub fn current_state(&self) -> (state: StreamState)
        ensures
            state == self.state(),
    {
        self.state
    }

    /// Whether the stream is over. The source of a stream that is over is not
    /// pulled again.
    pub fn is_terminal(&self) -> (over: bool)
        ensures
            over == self.state().is_terminal(),
    {
        match self.state {
            StreamState::Closed | StreamState::Errored => true,
            _ => false,
        }
    }

    /// Takes the next event of the source, `None` for its end, and gives what
    /// the consumer gets for it.
    pub fn next(&mut self, event: Option<Result<Vec<u8>, APIError>>) -> (item: Option<
        Result<AudioSpeechResponseChunkResponse, APIError>,
    >)
        ensures
            final(self).state() == next_state(old(self).state(), event),
            item == emitted(old(self).state(), event),
    {
        if self.is_terminal() {
            return None;
        }
        match event {
            Some(Ok(bytes)) => {
                self.state = StreamState::Consuming;
                Some(Ok(AudioSpeechResponseChunkResponse { bytes }))
            },
            Some(Err(error)) => {
                self.state = StreamState::Errored;
                Some(Err(error))
            },
            None => {
                self.state = StreamState::Closed;
                None
            },
        }
    }
}

/// Once a stream is over it stays as it is and gives nothing more, whatever
/// is handed to it.
pub proof fn lemma_terminal_is_final(
    state: StreamState,
    events: Seq<Option<Result<Vec<u8>, APIError>>>,
)
    requires
        state.is_terminal(),
    ensures
        outputs(state, events) == Seq::<Result<AudioSpeechResponseChunkResponse, APIError>>::empty(),
        state_after(state, events) == state,
    decreases events.len(),
{
    if events.len() > 0 {
        lemma_terminal_is_final(state, events.drop_first());
    }
}

/// A decoder that is not over, fed a source that yields the items and then
/// ends, gives the consumer exactly [`decoded`] of the items, and is over
/// after that.
pub proof fn lemma_decoder_gives_decoded(state: StreamState, items: Seq<Result<Vec<u8>, APIError>>)
    requires
        !state.is_terminal(),
    ensures
        outputs(state, events_of(items)) == decoded(items),
        state_after(state, events_of(items)).is_terminal(),
    decreases items.len(),
{
    let events = events_of(items);
    if items.len() == 0 {
        lemma_terminal_is_final(StreamState::Closed, events.drop_first());
    } else {
        assert(events.drop_first() =~= events_of(items.drop_first()));
        match items[0] {
            Ok(_) => {
                lemma_decoder_gives_decoded(StreamState::Consuming, items.drop_first());
            },
            Err(_) => {
                lemma_terminal_is_final(StreamState::Errored, events.drop_first());
            },
        }
    }
}

} // verus!
