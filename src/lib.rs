//! Typed request dispatch between a concurrent serving frontend and a
//! singly-owned inference backend, with the envelope types shared by every task.
//!
//! Frontend tasks hand requests to the backend through an [`EndpointContext`];
//! the backend's [`DispatchLoop`] decides, event by event, which handler result
//! goes to which caller, and delivers each at most once.

mod context;
mod decimal;
mod dispatch;
mod embeddings;
mod envelope;
mod environ;
mod error;
mod headers;
mod runtime;
mod transcription;
mod wire;

pub use context::{
    deliver, settle_response, settle_schedule, EndpointContext, Ingress, ResponseReceiver,
    ResponseSink,
};
pub use decimal::{decimal, parse_u64, IntErrorKind};
pub use dispatch::{DispatchLoop, LoopAction, LoopEvent, LoopPhase, LoopView};
pub use embeddings::{
    rows_of, Embedding, EmbeddingInput, EmbeddingParams, EmbeddingRequest, EmbeddingResponse,
    EncodingFormat, HuggingFaceInferenceEmbeddingRequest, HuggingFaceInferenceEmbeddingResponse,
    OpenAiEmbeddingRequest, OpenAiEmbeddingResponse, TruncationDirection,
};
pub use envelope::{EndpointRequest, EndpointResponse, MaybeBatched, Usage};
pub use environ::{FromEnv, Timeout, TryFromEnv, DEFAULT_TIMEOUT_SECS, REQUEST_TIMEOUT_VAR};
pub use error::{EnvironmentError, Error, HandlerError, HttpError, TransportError};
pub use headers::{Context, HeaderError, RequestId, X_REQUEST_ID};
pub use runtime::{thread_name, StatusRouter, Transport};
pub use transcription::{
    FormField, ResponseFormat, Segment, SegmentBuilder, Transcription, TranscriptionForm,
    TranscriptionRequest, TranscriptionResponse, VerboseTranscription,
};
pub use wire::{decode_input, decode_inputs, encode_input, encode_inputs, WireValue};
