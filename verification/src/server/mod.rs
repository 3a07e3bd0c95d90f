//! The decisions behind the HTTP API: request decoding, engine loading and streaming.

pub mod stream;
pub mod stream_laws;
pub mod handlers;
