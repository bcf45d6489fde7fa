//! The first version of the provider's interface.
pub mod api;
pub mod endpoints;
pub mod error;
pub mod json;
pub mod multipart;
pub mod resources;
pub mod stream;
