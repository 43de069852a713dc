//! A command-triggered retrieval-augmented query pipeline: a user query is
//! combined with optionally retrieved context, sent to a local completion
//! service, and the streamed JSON response is decoded chunk by chunk and
//! aggregated into a single answer.

pub mod aggregate;
pub mod decode;
pub mod errors;
pub mod pipeline;
pub mod request;
pub mod text;
pub mod trusted;
