//! Encoders: from a response to the bytes of a connection.

pub mod alpha;
pub mod beta;
pub mod format;
pub mod laws;
