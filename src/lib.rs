//! Typed request/response protocol of the sendme service.
//!
//! The catalog of operations (`Provide`, `List`, `Watch`, `Version`), the
//! interaction pattern of each, the two envelopes that carry every message on
//! one channel, the error value that crosses the process boundary, and what
//! the server side sends back for each call: one reply, or an ordered stream
//! closed by an explicit end.
mod envelope;
mod error;
mod messages;
mod reply;

pub use envelope::{
    lemma_discriminant_decoding, lemma_request_envelope_bijection, lemma_request_round_trip,
    lemma_response_envelope_bijection, lemma_response_round_trip, InteractionPattern, Operation,
    ProtocolError, SendmeRequest, SendmeResponse, SendmeService, OPERATION_COUNT,
};
pub use error::{
    description_of, lemma_rendered_holds_message, lemma_same_capture_same_rendering, render_message,
    rendered, RpcError, RpcResult,
};
pub use messages::{
    ContentHash, ListRequest, ListResponse, ProvideRequest, ProvideResponse, VersionRequest,
    VersionResponse, WatchRequest, WatchResponse,
};
pub use reply::{
    lemma_list_paths_unique, lemma_watch_reports_changes_only, list_stream, paths_unique,
    provide_reply, spec_stream, stream_paths_unique, version_after, version_changes,
    version_reply, StreamItem, VersionWatch,
};
