//! The parameters and responses of the operations.
pub mod audio;
