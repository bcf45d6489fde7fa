//! The groups of operations of a client.
pub mod audio;
