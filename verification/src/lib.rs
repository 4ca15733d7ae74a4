//! Verified core of a speech-to-text client: WAV encoding of audio samples,
//! multipart form construction, and interpretation of the remote service's
//! HTTP response. Network and environment access live outside this crate.

pub mod errors;
pub mod form;
pub mod response;
pub mod wav;
