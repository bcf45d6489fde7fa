//! Requests and responses of an audio provider: speech, transcription and
//! translation.
//!
//! The library turns typed parameters into what goes over the wire, a JSON
//! body or a multipart form, and turns what comes back into typed responses.
//! It sends nothing itself: each operation hands the caller a request to
//! send, and takes from the caller what came of sending it.
pub mod v1;
