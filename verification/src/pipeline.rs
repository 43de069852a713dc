//! QueryOrchestrator: the top-level operation, written as a state
//! machine. The pipeline itself never performs a network call; it hands
//! the driver an `Action` saying which call to make next, and the driver
//! reports what happened as an `Event`. Every decision — command and
//! query validation, request construction, short-circuiting on the first
//! failure, chunk decoding and aggregation — is made here and verified.
//!
//! Ghost call counters make the calling discipline a theorem: the
//! completion call is issued at most once, only after the retrieval call
//! when context retrieval is enabled, and a run that ends in success
//! issued it exactly once.

use vstd::prelude::*;

verus! {

use vstd::string::StringExecFns;
use crate::aggregate::{Aggregator, CommandOutput, Mode, sections_extended};
use crate::decode::{chunk_decode, decode_chunk, decode_retrieval, retrieval_decode};
use crate::errors::PipelineError;
use crate::request::{completion_body, completion_url, retrieval_url, search_body,
    spec_command_name, spec_completion_body, spec_completion_url, spec_prompt_text,
    spec_retrieval_url, spec_search_body};
use crate::text::{join_args, spec_join, spec_trim, trim_str};

/// The outcome of the blocking retrieval call, as the driver saw it.
#[derive(Debug)]
pub enum TransportOutcome {
    /// The call succeeded and returned this response body.
    Success(Vec<u8>),
    /// The call failed; the transport's own description of the failure.
    Failure(String),
}

/// One thing the outside world reports to the pipeline.
#[derive(Debug)]
pub enum Event {
    /// The retrieval call finished.
    Retrieved(TransportOutcome),
    /// The streaming completion call was established.
    Opened,
    /// The streaming completion call could not be established; the
    /// transport's description of the failure.
    OpenFailed(String),
    /// The stream yielded one more chunk.
    ChunkArrived(Vec<u8>),
    /// The stream ended: no further chunks arrive.
    StreamEnded,
    /// The stream failed while being consumed; the transport's
    /// description of the failure.
    StreamFailed(String),
}

/// What the driver must do next.
#[derive(Debug)]
pub enum Action {
    /// Issue the blocking retrieval call with this URL and JSON body,
    /// then report `Event::Retrieved`.
    Retrieve { url: String, body: String },
    /// Issue the streaming completion call with this URL and JSON body,
    /// then report `Event::Opened` or `Event::OpenFailed`.
    OpenStream { url: String, body: String },
    /// Poll the stream once, then report `Event::ChunkArrived`,
    /// `Event::StreamEnded` or `Event::StreamFailed`.
    ReadChunk,
    /// The operation finished successfully with this output.
    Succeed { output: CommandOutput },
    /// The operation failed; no partial output is returned.
    Fail { error: PipelineError },
}

/// Which event the pipeline is waiting for.
#[derive(Debug, Clone, Copy, PartialEq, Eq, Structural)]
pub enum Phase {
    /// The retrieval call was issued; awaiting its outcome.
    AwaitRetrieval,
    /// The completion call was issued; awaiting whether the stream opened.
    AwaitOpen,
    /// The stream is open; awaiting the next chunk.
    AwaitChunk,
    /// A terminal action was returned; no further event is accepted.
    Finished,
}

/// One invocation of the operation. All state is local to the
/// invocation; nothing is shared across invocations.
pub struct Pipeline {
    /// The joined query text.
    pub query: String,
    /// Whether a context-retrieval call precedes the completion call.
    pub with_context: bool,
    /// The aggregation mode of the final output.
    pub mode: Mode,
    /// Which event is awaited next.
    pub phase: Phase,
    /// The running aggregation of decoded content strings.
    pub agg: Aggregator,
    /// How many retrieval calls have been handed to the driver.
    pub retrieve_count: Ghost<int>,
    /// How many completion calls have been handed to the driver.
    pub completion_count: Ghost<int>,
}

impl Pipeline {
    /// The invariant every reachable pipeline satisfies. In particular:
    /// each of the two calls is issued at most once, the retrieval call
    /// (when enabled) strictly before the completion call, and a
    /// pipeline that is streaming has issued its completion call.
    pub open spec fn wf(self) -> bool {
        &&& self.agg.wf()
        &&& self.agg.mode == self.mode
        &&& 0 <= self.retrieve_count@ <= 1
        &&& 0 <= self.completion_count@ <= 1
        &&& (!self.with_context ==> self.retrieve_count@ == 0)
        &&& (self.with_context && self.completion_count@ == 1 ==> self.retrieve_count@ == 1)
        &&& (self.phase is AwaitRetrieval ==> self.with_context && self.retrieve_count@ == 1
            && self.completion_count@ == 0)
        &&& (self.phase is AwaitOpen ==> self.completion_count@ == 1)
        &&& (self.phase is AwaitChunk ==> self.completion_count@ == 1)
    }

    /// Which events may be reported in the current phase: exactly the
    /// outcomes of the action the driver was last handed.
    pub open spec fn accepts(self, e: Event) -> bool {
        match self.phase {
            Phase::AwaitRetrieval => e is Retrieved,
            Phase::AwaitOpen => e is Opened || e is OpenFailed,
            Phase::AwaitChunk => e is ChunkArrived || e is StreamEnded || e is StreamFailed,
            Phase::Finished => false,
        }
    }

    /// Starts one invocation: validates the command identifier, joins
    /// the argument tokens into the query, and returns the pipeline with
    /// its first action. A query that is empty (or whitespace only) is a
    /// soft outcome: a successful result carrying the fixed
    /// prompt-for-input message, never a failure.
    pub fn new(command: &String, args: &Vec<String>, with_context: bool, mode: Mode) -> (r: (
        Pipeline,
        Action,
    ))
        ensures
            r.0.wf(),
            r.0.mode == mode,
            r.0.with_context == with_context,
            r.0.query@ == spec_join(args.deep_view()),
            command@ != spec_command_name() ==> {
                &&& r.1 matches Action::Fail { error } && error is InvalidCommand
                &&& r.0.phase is Finished
                &&& r.0.completion_count@ == 0
            },
            (command@ == spec_command_name() && spec_trim(spec_join(args.deep_view())).len()
                == 0) ==> {
                &&& r.1 matches Action::Succeed { output } && output.text@ == spec_prompt_text()
                    && output.sections@.len() == 0
                &&& r.0.phase is Finished
                &&& r.0.completion_count@ == 0
            },
            (command@ == spec_command_name() && spec_trim(spec_join(args.deep_view())).len() != 0
                && with_context) ==> {
                &&& r.1 matches Action::Retrieve { url, body } && url@ == spec_retrieval_url()
                    && body@ == spec_search_body(spec_join(args.deep_view()))
                &&& r.0.phase is AwaitRetrieval
                &&& r.0.retrieve_count@ == 1
            },
            (command@ == spec_command_name() && spec_trim(spec_join(args.deep_view())).len() != 0
                && !with_context) ==> {
                &&& r.1 matches Action::OpenStream { url, body } && url@ == spec_completion_url()
                    && body@ == spec_completion_body(spec_join(args.deep_view()), Option::None)
                &&& r.0.phase is AwaitOpen
                &&& r.0.completion_count@ == 1
            },
    {
        let query = join_args(args);
        let agg = Aggregator::new(mode);
        let name = String::from_str("rag");
        if !command.eq(&name) {
            let p = Pipeline {
                query,
                with_context,
                mode,
                phase: Phase::Finished,
                agg,
                retrieve_count: Ghost(0),
                completion_count: Ghost(0),
            };
            return (p, Action::Fail { error: PipelineError::InvalidCommand });
        }
        if trim_str(query.as_str()).is_empty() {
            let output = CommandOutput {
                text: String::from_str("Error: Query not provided. Please enter a prompt."),
                sections: Vec::new(),
            };
            let p = Pipeline {
                query,
                with_context,
                mode,
                phase: Phase::Finished,
                agg,
                retrieve_count: Ghost(0),
                completion_count: Ghost(0),
            };
            return (p, Action::Succeed { output });
        }
        if with_context {
            let body = search_body(query.as_str());
            let url = retrieval_url();
            let p = Pipeline {
                query,
                with_context,
                mode,
                phase: Phase::AwaitRetrieval,
                agg,
                retrieve_count: Ghost(1),
                completion_count: Ghost(0),
            };
            (p, Action::Retrieve { url, body })
        } else {
            let no_ctx: Option<String> = None;
            let body = completion_body(query.as_str(), &no_ctx);
            let url = completion_url();
            let p = Pipeline {
                query,
                with_context,
                mode,
                phase: Phase::AwaitOpen,
                agg,
                retrieve_count: Ghost(0),
                completion_count: Ghost(1),
            };
            (p, Action::OpenStream { url, body })
        }
    }

    /// Advances the pipeline by one reported event. Every stage fails
    /// fast: the first failure becomes a terminal `Fail` action carrying
    /// the classified error, the phase becomes `Finished`, and — because
    /// no further event is accepted — no later call is ever issued and
    /// no partial aggregation is returned.
    pub fn step(&mut self, event: Event) -> (r: Action)
        requires
            old(self).wf(),
            old(self).accepts(event),
        ensures
            final(self).wf(),
            final(self).query@ == old(self).query@,
            final(self).with_context == old(self).with_context,
            final(self).mode == old(self).mode,
            final(self).retrieve_count@ == old(self).retrieve_count@,
            final(self).completion_count@ == if r is OpenStream {
                old(self).completion_count@ + 1
            } else {
                old(self).completion_count@
            },
            r is Succeed || r is Fail <==> final(self).phase is Finished,
            // The retrieval response arrived and its body decoded: issue the
            // one completion call, with the context folded into the system
            // message.
            event matches Event::Retrieved(TransportOutcome::Success(b)) ==> {
                &&& retrieval_decode(b@) matches Ok(ctx) ==> {
                    &&& r matches Action::OpenStream { url, body } && url@
                        == spec_completion_url() && body@ == spec_completion_body(
                        old(self).query@,
                        Option::Some(ctx),
                    )
                    &&& final(self).phase is AwaitOpen
                }
                &&& retrieval_decode(b@) matches Err(e) ==> r matches Action::Fail { error }
                    && error == e
            },
            // A non-success transport outcome of the retrieval call
            // short-circuits: the completion call is never issued.
            event matches Event::Retrieved(TransportOutcome::Failure(m)) ==> {
                &&& r matches Action::Fail { error } && error matches
                    PipelineError::RetrievalRequestFailed(mm) && mm@ == m@
                &&& final(self).completion_count@ == 0
            },
            event is Opened ==> r is ReadChunk && final(self).phase is AwaitChunk
                && final(self).agg == old(self).agg,
            event matches Event::OpenFailed(m) ==> r matches Action::Fail { error } && error
                matches PipelineError::CompletionRequestFailed(mm) && mm@ == m@,
            // A chunk that decodes extends the aggregation and the stream is
            // polled again; one that does not ends the run with its
            // classified error, discarding everything aggregated so far.
            event matches Event::ChunkArrived(b) ==> {
                &&& chunk_decode(b@) matches Ok(cs) ==> {
                    &&& r is ReadChunk
                    &&& final(self).phase is AwaitChunk
                    &&& old(self).mode is Concatenate ==> {
                        &&& final(self).agg.text@ == old(self).agg.text@ + cs.flatten()
                        &&& final(self).agg.sections@ == old(self).agg.sections@
                    }
                    &&& old(self).mode is Sectioned ==> {
                        &&& sections_extended(old(self).agg.sections@, final(self).agg.sections@, cs)
                        &&& final(self).agg.text@ == old(self).agg.text@
                    }
                }
                &&& chunk_decode(b@) matches Err(e) ==> r matches Action::Fail { error } && error
                    == e
            },
            // End of stream is the sole termination signal: the aggregation
            // is finalized and returned.
            event is StreamEnded ==> {
                &&& r matches Action::Succeed { output } && {
                    &&& old(self).mode is Concatenate ==> {
                        &&& output.text@ == spec_trim(old(self).agg.text@)
                        &&& output.sections@.len() == 0
                    }
                    &&& old(self).mode is Sectioned ==> {
                        &&& output.sections@ == old(self).agg.sections@
                        &&& output.text@.len() == 0
                    }
                }
                &&& final(self).completion_count@ == 1
                &&& (final(self).with_context ==> final(self).retrieve_count@ == 1)
            },
            event matches Event::StreamFailed(m) ==> r matches Action::Fail { error } && error
                matches PipelineError::StreamTransportError(mm) && mm@ == m@,
    {
        match event {
            Event::Retrieved(outcome) => match outcome {
                TransportOutcome::Success(body_bytes) => match decode_retrieval(body_bytes) {
                    Ok(ctx) => {
                        let ctx_opt = Some(ctx);
                        let body = completion_body(self.query.as_str(), &ctx_opt);
                        let url = completion_url();
                        self.phase = Phase::AwaitOpen;
                        self.completion_count = Ghost(self.completion_count@ + 1);
                        Action::OpenStream { url, body }
                    },
                    Err(error) => {
                        self.phase = Phase::Finished;
                        Action::Fail { error }
                    },
                },
                TransportOutcome::Failure(m) => {
                    self.phase = Phase::Finished;
                    Action::Fail { error: PipelineError::RetrievalRequestFailed(m) }
                },
            },
            Event::Opened => {
                self.phase = Phase::AwaitChunk;
                Action::ReadChunk
            },
            Event::OpenFailed(m) => {
                self.phase = Phase::Finished;
                Action::Fail { error: PipelineError::CompletionRequestFailed(m) }
            },
            Event::ChunkArrived(bytes) => match decode_chunk(bytes) {
                Ok(contents) => {
                    self.agg.push_fragment(&contents);
                    Action::ReadChunk
                },
                Err(error) => {
                    self.phase = Phase::Finished;
                    Action::Fail { error }
                },
            },
            Event::StreamEnded => {
                let mut taken = Aggregator::new(self.mode);
                core::mem::swap(&mut taken, &mut self.agg);
                let output = taken.finish();
                self.phase = Phase::Finished;
                Action::Succeed { output }
            },
            Event::StreamFailed(m) => {
                self.phase = Phase::Finished;
                Action::Fail { error: PipelineError::StreamTransportError(m) }
            },
        }
    }
}

/// Law: a pipeline that has issued its completion call issued exactly
/// one, and — when context retrieval is enabled — exactly one retrieval
/// call, issued before it.
pub proof fn lemma_one_completion_call(p: Pipeline)
    requires
        p.wf(),
        p.completion_count@ >= 1,
    ensures
        p.completion_count@ == 1,
        p.with_context ==> p.retrieve_count@ == 1,
{
}

/// Law: a pipeline that is still awaiting its retrieval outcome has not
/// issued the completion call.
pub proof fn lemma_no_completion_before_retrieval(p: Pipeline)
    requires
        p.wf(),
        p.phase is AwaitRetrieval,
    ensures
        p.completion_count@ == 0,
        p.retrieve_count@ == 1,
{
}

} // verus!
