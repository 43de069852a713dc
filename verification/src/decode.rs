//! ChunkDecoder and the retrieval-response decoder: each raw byte body is
//! first checked to be valid UTF-8 and then parsed as one complete JSON
//! object of the expected shape. The two failures are classified apart:
//! `EncodingError` for bytes that are not text, `DecodeError` for text
//! that is not the expected JSON.

use vstd::prelude::*;

verus! {

use crate::errors::{ErrorStage, PipelineError};
use crate::trusted::{bytes_to_string, chunk_choices, extract_choices, extract_data,
    retrieval_data, utf8_chars};

/// What decoding one stream chunk yields: the ordered content strings of
/// its choice entries, or the classified failure. A pure function of the
/// chunk bytes.
pub open spec fn chunk_decode(b: Seq<u8>) -> Result<Seq<Seq<char>>, PipelineError> {
    match utf8_chars(b) {
        Option::None => Result::Err(PipelineError::EncodingError(ErrorStage::Stream)),
        Option::Some(t) => match chunk_choices(t) {
            Option::None => Result::Err(PipelineError::DecodeError(ErrorStage::Stream)),
            Option::Some(cs) => Result::Ok(cs),
        },
    }
}

/// Decodes one stream chunk, exactly as `chunk_decode` states. No state
/// carries across chunks at this layer.
pub fn decode_chunk(bytes: Vec<u8>) -> (r: Result<Vec<String>, PipelineError>)
    ensures
        r matches Ok(v) ==> chunk_decode(bytes@) == Ok::<Seq<Seq<char>>, PipelineError>(
            v.deep_view(),
        ),
        r matches Err(e) ==> chunk_decode(bytes@) == Err::<Seq<Seq<char>>, PipelineError>(e),
{
    let text = match bytes_to_string(bytes) {
        Some(t) => t,
        None => {
            return Err(PipelineError::EncodingError(ErrorStage::Stream));
        },
    };
    match extract_choices(text.as_str()) {
        Some(v) => Ok(v),
        None => Err(PipelineError::DecodeError(ErrorStage::Stream)),
    }
}

/// What decoding the retrieval-response body yields: the extracted
/// context string, or the classified failure. A pure function of the
/// body bytes.
pub open spec fn retrieval_decode(b: Seq<u8>) -> Result<Seq<char>, PipelineError> {
    match utf8_chars(b) {
        Option::None => Result::Err(PipelineError::EncodingError(ErrorStage::Retrieval)),
        Option::Some(t) => match retrieval_data(t) {
            Option::None => Result::Err(PipelineError::DecodeError(ErrorStage::Retrieval)),
            Option::Some(d) => Result::Ok(d),
        },
    }
}

/// Decodes the body of a successful retrieval response, exactly as
/// `retrieval_decode` states.
pub fn decode_retrieval(bytes: Vec<u8>) -> (r: Result<String, PipelineError>)
    ensures
        r matches Ok(s) ==> retrieval_decode(bytes@) == Ok::<Seq<char>, PipelineError>(s@),
        r matches Err(e) ==> retrieval_decode(bytes@) == Err::<Seq<char>, PipelineError>(e),
{
    let text = match bytes_to_string(bytes) {
        Some(t) => t,
        None => {
            return Err(PipelineError::EncodingError(ErrorStage::Retrieval));
        },
    };
    match extract_data(text.as_str()) {
        Some(s) => Ok(s),
        None => Err(PipelineError::DecodeError(ErrorStage::Retrieval)),
    }
}

/// Law: chunk decoding is a pure function of the chunk bytes — two chunks
/// holding equal bytes decode to equal outcomes, so decoding the same
/// well-formed chunk twice yields the same ordered content list both
/// times.
pub proof fn lemma_chunk_decode_deterministic(b1: Seq<u8>, b2: Seq<u8>)
    requires
        b1 == b2,
    ensures
        chunk_decode(b1) == chunk_decode(b2),
{
}

} // verus!
