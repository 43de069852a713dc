//! End-to-end drives of the pipeline state machine, feeding it the events
//! a real transport would report.

use zed_rag::aggregate::Mode;
use zed_rag::errors::{ErrorStage, PipelineError};
use zed_rag::pipeline::{Action, Event, Pipeline, TransportOutcome};

fn rag() -> String {
    "rag".to_string()
}

fn args_of(words: &[&str]) -> Vec<String> {
    words.iter().map(|w| w.to_string()).collect()
}

#[test]
fn invalid_command_fails() {
    let (_p, a) = Pipeline::new(&"other".to_string(), &args_of(&["hi"]), true, Mode::Concatenate);
    match a {
        Action::Fail { error } => {
            assert!(matches!(error, PipelineError::InvalidCommand));
            assert_eq!(error.message(), "Invalid command. Expected 'rag'.");
        },
        _ => panic!("expected a failure action"),
    }
}

#[test]
fn empty_query_is_soft_success() {
    let (_p, a) = Pipeline::new(&rag(), &Vec::new(), true, Mode::Concatenate);
    match a {
        Action::Succeed { output } => {
            assert_eq!(output.text, "Error: Query not provided. Please enter a prompt.");
            assert!(output.sections.is_empty());
        },
        _ => panic!("expected a successful action"),
    }
}

#[test]
fn whitespace_only_query_is_soft_success() {
    let (_p, a) = Pipeline::new(&rag(), &args_of(&["  ", "\t"]), false, Mode::Sectioned);
    match a {
        Action::Succeed { output } => {
            assert_eq!(output.text, "Error: Query not provided. Please enter a prompt.");
            assert!(output.sections.is_empty());
        },
        _ => panic!("expected a successful action"),
    }
}

#[test]
fn retrieval_request_is_issued_first() {
    let (_p, a) = Pipeline::new(&rag(), &args_of(&["What", "is", "Deno?"]), true, Mode::Concatenate);
    match a {
        Action::Retrieve { url, body } => {
            assert_eq!(url, "http://127.0.0.1:8000/v1/rags/search");
            assert_eq!(body, "{\"name\":\"deno2\",\"input\":\"What is Deno?\"}");
        },
        _ => panic!("expected a retrieval action"),
    }
}

#[test]
fn retrieval_failure_short_circuits() {
    let (mut p, a) = Pipeline::new(&rag(), &args_of(&["q"]), true, Mode::Concatenate);
    assert!(matches!(a, Action::Retrieve { .. }));
    let a = p.step(Event::Retrieved(TransportOutcome::Failure("connection refused".to_string())));
    match a {
        Action::Fail { error } => {
            assert!(matches!(error, PipelineError::RetrievalRequestFailed(_)));
            assert_eq!(error.message(), "RAG search request failed: connection refused");
        },
        _ => panic!("expected a failure action, not a completion call"),
    }
}

#[test]
fn retrieved_context_is_folded_into_completion_request() {
    let (mut p, a) = Pipeline::new(&rag(), &args_of(&["What", "is", "Deno?"]), true, Mode::Concatenate);
    assert!(matches!(a, Action::Retrieve { .. }));
    let a = p.step(Event::Retrieved(TransportOutcome::Success(
        "{\"data\":\"CTX\"}".as_bytes().to_vec(),
    )));
    match a {
        Action::OpenStream { url, body } => {
            assert_eq!(url, "http://127.0.0.1:8000/v1/chat/completions");
            assert_eq!(
                body,
                "{\"model\":\"openai:gpt-4o\",\"messages\":[{\"role\":\"system\",\"content\":\"You are a helpful assistant, expert in Deno, Fresh, and TypeScript. Use the following context to answer:\\n\\nCTX\"},{\"role\":\"user\",\"content\":\"What is Deno?\"}],\"temperature\":0.1}",
            );
        },
        _ => panic!("expected the completion call"),
    }
}

#[test]
fn retrieval_body_not_utf8_is_encoding_error() {
    let (mut p, _a) = Pipeline::new(&rag(), &args_of(&["q"]), true, Mode::Concatenate);
    let a = p.step(Event::Retrieved(TransportOutcome::Success(vec![0xff, 0xfe])));
    match a {
        Action::Fail { error } => {
            assert!(matches!(error, PipelineError::EncodingError(ErrorStage::Retrieval)));
            assert_eq!(error.message(), "Failed to parse RAG search response");
        },
        _ => panic!("expected a failure action"),
    }
}

#[test]
fn retrieval_body_without_data_is_decode_error() {
    let (mut p, _a) = Pipeline::new(&rag(), &args_of(&["q"]), true, Mode::Concatenate);
    let a = p.step(Event::Retrieved(TransportOutcome::Success(
        "{\"other\":1}".as_bytes().to_vec(),
    )));
    match a {
        Action::Fail { error } => {
            assert!(matches!(error, PipelineError::DecodeError(ErrorStage::Retrieval)));
            assert_eq!(error.message(), "Failed to deserialize RAG search response");
        },
        _ => panic!("expected a failure action"),
    }
}

#[test]
fn concatenation_run_yields_trimmed_answer() {
    let (mut p, a) = Pipeline::new(&rag(), &args_of(&["q"]), false, Mode::Concatenate);
    match a {
        Action::OpenStream { url, body } => {
            assert_eq!(url, "http://127.0.0.1:8000/v1/chat/completions");
            assert_eq!(
                body,
                "{\"model\":\"openai:gpt-4o\",\"messages\":[{\"role\":\"system\",\"content\":\"You are a helpful assistant, expert in Deno, Fresh, and TypeScript.\"},{\"role\":\"user\",\"content\":\"q\"}],\"temperature\":0.1}",
            );
        },
        _ => panic!("expected the completion call"),
    }
    let a = p.step(Event::Opened);
    assert!(matches!(a, Action::ReadChunk));
    let a = p.step(Event::ChunkArrived(
        "{\"choices\":[{\"message\":{\"content\":\"Hel\"}},{\"message\":{\"content\":\"lo\"}}]}"
            .as_bytes()
            .to_vec(),
    ));
    assert!(matches!(a, Action::ReadChunk));
    let a = p.step(Event::ChunkArrived(
        "{\"choices\":[{\"message\":{\"content\":\" world\"}}]}".as_bytes().to_vec(),
    ));
    assert!(matches!(a, Action::ReadChunk));
    let a = p.step(Event::StreamEnded);
    match a {
        Action::Succeed { output } => {
            assert_eq!(output.text, "Hello world");
            assert!(output.sections.is_empty());
        },
        _ => panic!("expected a successful action"),
    }
}

#[test]
fn sectioned_run_yields_one_section_per_content() {
    let (mut p, a) = Pipeline::new(&rag(), &args_of(&["q"]), false, Mode::Sectioned);
    assert!(matches!(a, Action::OpenStream { .. }));
    let a = p.step(Event::Opened);
    assert!(matches!(a, Action::ReadChunk));
    let a = p.step(Event::ChunkArrived(
        "{\"choices\":[{\"message\":{\"content\":\"foo\"}},{\"message\":{\"content\":\"bar\"}}]}"
            .as_bytes()
            .to_vec(),
    ));
    assert!(matches!(a, Action::ReadChunk));
    let a = p.step(Event::StreamEnded);
    match a {
        Action::Succeed { output } => {
            assert_eq!(output.text, "");
            assert_eq!(output.sections.len(), 2);
            assert_eq!(output.sections[0].label, "foo");
            assert_eq!(output.sections[0].range_start, 0);
            assert_eq!(output.sections[0].range_end, 3);
            assert_eq!(output.sections[1].label, "bar");
            assert_eq!(output.sections[1].range_start, 0);
            assert_eq!(output.sections[1].range_end, 3);
        },
        _ => panic!("expected a successful action"),
    }
}

#[test]
fn bad_utf8_chunk_discards_aggregation() {
    let (mut p, _a) = Pipeline::new(&rag(), &args_of(&["q"]), false, Mode::Concatenate);
    let a = p.step(Event::Opened);
    assert!(matches!(a, Action::ReadChunk));
    let a = p.step(Event::ChunkArrived(
        "{\"choices\":[{\"message\":{\"content\":\"partial\"}}]}".as_bytes().to_vec(),
    ));
    assert!(matches!(a, Action::ReadChunk));
    let a = p.step(Event::ChunkArrived(vec![0xff, 0x00, 0x9f]));
    match a {
        Action::Fail { error } => {
            assert!(matches!(error, PipelineError::EncodingError(ErrorStage::Stream)));
            assert_eq!(error.message(), "Failed to parse response chunk");
        },
        _ => panic!("expected a failure action carrying no partial output"),
    }
}

#[test]
fn chunk_without_choices_is_decode_error() {
    let (mut p, _a) = Pipeline::new(&rag(), &args_of(&["q"]), false, Mode::Concatenate);
    let a = p.step(Event::Opened);
    assert!(matches!(a, Action::ReadChunk));
    let a = p.step(Event::ChunkArrived("{\"data\":\"x\"}".as_bytes().to_vec()));
    match a {
        Action::Fail { error } => {
            assert!(matches!(error, PipelineError::DecodeError(ErrorStage::Stream)));
            assert_eq!(error.message(), "Failed to deserialize API response");
        },
        _ => panic!("expected a failure action rather than empty output"),
    }
}

#[test]
fn stream_open_failure_is_classified() {
    let (mut p, _a) = Pipeline::new(&rag(), &args_of(&["q"]), false, Mode::Concatenate);
    let a = p.step(Event::OpenFailed("no route".to_string()));
    match a {
        Action::Fail { error } => {
            assert!(matches!(error, PipelineError::CompletionRequestFailed(_)));
            assert_eq!(error.message(), "Chat completion request failed: no route");
        },
        _ => panic!("expected a failure action"),
    }
}

#[test]
fn stream_failure_is_classified() {
    let (mut p, _a) = Pipeline::new(&rag(), &args_of(&["q"]), false, Mode::Concatenate);
    let a = p.step(Event::Opened);
    assert!(matches!(a, Action::ReadChunk));
    let a = p.step(Event::StreamFailed("reset".to_string()));
    match a {
        Action::Fail { error } => {
            assert!(matches!(error, PipelineError::StreamTransportError(_)));
            assert_eq!(error.message(), "Stream error: reset");
        },
        _ => panic!("expected a failure action"),
    }
}

#[test]
fn empty_stream_yields_empty_answer() {
    let (mut p, _a) = Pipeline::new(&rag(), &args_of(&["q"]), false, Mode::Concatenate);
    let a = p.step(Event::Opened);
    assert!(matches!(a, Action::ReadChunk));
    let a = p.step(Event::StreamEnded);
    match a {
        Action::Succeed { output } => {
            assert_eq!(output.text, "");
            assert!(output.sections.is_empty());
        },
        _ => panic!("expected a successful action"),
    }
}
