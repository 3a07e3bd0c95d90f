//! Core logic of a speech transcription service: the model catalogue, the
//! decoding of base64 PCM audio (in one piece or as a stream), the choice of
//! engine and its parameters, and the decisions of the audio capture loop.

pub mod pcm;
pub mod codec;
pub mod text;
pub mod server;
pub mod transcriber;
pub mod models;
pub mod audio;
