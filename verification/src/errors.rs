//! Classified pipeline failures, each annotated with the stage that
//! produced it, and their human-readable messages.

use vstd::prelude::*;

verus! {

use vstd::string::StringExecFns;

/// The stage of the pipeline at which a decoding or encoding failure
/// occurred.
#[derive(Debug, Clone, Copy, PartialEq, Eq, Structural)]
pub enum ErrorStage {
    /// The blocking context-retrieval call.
    Retrieval,
    /// The streaming completion call.
    Stream,
}

/// A classified failure of the pipeline. An empty query is not a failure:
/// it is surfaced as a successful result with a fixed prompt message.
#[derive(Debug)]
pub enum PipelineError {
    /// The command identifier did not match the supported operation name.
    InvalidCommand,
    /// The retrieval call returned a non-success transport outcome.
    RetrievalRequestFailed(String),
    /// The streaming completion call could not be established.
    CompletionRequestFailed(String),
    /// The stream failed while being consumed.
    StreamTransportError(String),
    /// A response body or chunk was not valid UTF-8 text.
    EncodingError(ErrorStage),
    /// A response body or chunk did not parse into the expected JSON shape.
    DecodeError(ErrorStage),
}

/// The human-readable message for each failure, including the
/// stage-identifying context and, for transport failures, the underlying
/// cause.
pub open spec fn spec_message(e: PipelineError) -> Seq<char> {
    match e {
        PipelineError::InvalidCommand => "Invalid command. Expected 'rag'."@,
        PipelineError::RetrievalRequestFailed(m) => "RAG search request failed: "@ + m@,
        PipelineError::CompletionRequestFailed(m) => "Chat completion request failed: "@ + m@,
        PipelineError::StreamTransportError(m) => "Stream error: "@ + m@,
        PipelineError::EncodingError(ErrorStage::Retrieval) => "Failed to parse RAG search response"@,
        PipelineError::EncodingError(ErrorStage::Stream) => "Failed to parse response chunk"@,
        PipelineError::DecodeError(ErrorStage::Retrieval) => "Failed to deserialize RAG search response"@,
        PipelineError::DecodeError(ErrorStage::Stream) => "Failed to deserialize API response"@,
    }
}

impl PipelineError {
    /// Renders the failure as its human-readable message.
    pub fn message(&self) -> (r: String)
        ensures
            r@ == spec_message(*self),
    {
        match self {
            PipelineError::InvalidCommand => String::from_str("Invalid command. Expected 'rag'."),
            PipelineError::RetrievalRequestFailed(m) => {
                let mut s = String::from_str("RAG search request failed: ");
                s.append(m.as_str());
                s
            },
            PipelineError::CompletionRequestFailed(m) => {
                let mut s = String::from_str("Chat completion request failed: ");
                s.append(m.as_str());
                s
            },
            PipelineError::StreamTransportError(m) => {
                let mut s = String::from_str("Stream error: ");
                s.append(m.as_str());
                s
            },
            PipelineError::EncodingError(stage) => {
                match stage {
                    ErrorStage::Retrieval => String::from_str("Failed to parse RAG search response"),
                    ErrorStage::Stream => String::from_str("Failed to parse response chunk"),
                }
            },
            PipelineError::DecodeError(stage) => {
                match stage {
                    ErrorStage::Retrieval => String::from_str(
                        "Failed to deserialize RAG search response",
                    ),
                    ErrorStage::Stream => String::from_str("Failed to deserialize API response"),
                }
            },
        }
    }
}

} // verus!
