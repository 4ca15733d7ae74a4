//! The error taxonomy of the transcription client. Every failure is surfaced
//! to the caller as one of these typed variants; nothing is retried or
//! swallowed.

use vstd::prelude::*;

verus! {

/// A failure of one call to the transcription client.
#[derive(Debug)]
pub enum TranscribeError {
    /// The API key was not provided; carries a remediation hint.
    ConfigurationError { message: String },
    /// The WAV encoder could not produce a container.
    EncodingError { message: String },
    /// The network transport failed before a response arrived.
    TransportError { message: String },
    /// The remote service answered with a non-success HTTP status.
    RemoteApiError { status: u16, body: String },
    /// The response body was not the expected JSON shape.
    DeserializationError { message: String },
}

} // verus!
