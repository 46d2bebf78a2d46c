//! The service envelopes: every request and every response travels as one of
//! two sum types, whose variants are exactly the catalog's operations.
use vstd::prelude::*;
use vstd::std_specs::convert::{FromSpec, FromSpecImpl, TryFromSpec, TryFromSpecImpl};

use crate::error::RpcResult;
use crate::messages::{
    ListRequest, ListResponse, ProvideRequest, ProvideResponse, VersionRequest, VersionResponse,
    WatchRequest, WatchResponse,
};

verus! {

/// The operations of the catalog, in the order of the envelopes' variants.
#[derive(Debug, Clone, Copy, PartialEq, Eq, Structural)]
pub enum Operation {
    Watch,
    Version,
    List,
    Provide,
}

/// How many messages flow in each direction of a call.
#[derive(Debug, Clone, Copy, PartialEq, Eq, Structural)]
pub enum InteractionPattern {
    /// One request, then exactly one response.
    Unary,
    /// One request (with optional follow-ups of the same type), then an
    /// ordered stream of responses closed by an explicit end.
    ServerStreaming,
}

/// A message that does not fit the dispatch it arrived at.
#[derive(Debug, Clone, Copy, PartialEq, Eq, Structural)]
pub enum ProtocolError {
    /// The envelope holds another operation than the one expected.
    UnexpectedVariant { expected: Operation, found: Operation },
    /// The discriminant names no operation of the catalog.
    UnknownDiscriminant { value: u32 },
}

/// Number of operations in the catalog.
pub const OPERATION_COUNT: u32 = 4;

impl Operation {
    pub open spec fn spec_discriminant(self) -> u32 {
        match self {
            Operation::Watch => 0,
            Operation::Version => 1,
            Operation::List => 2,
            Operation::Provide => 3,
        }
    }

    pub open spec fn spec_from_discriminant(d: u32) -> Result<Operation, ProtocolError> {
        if d == 0 {
            Ok(Operation::Watch)
        } else if d == 1 {
            Ok(Operation::Version)
        } else if d == 2 {
            Ok(Operation::List)
        } else if d == 3 {
            Ok(Operation::Provide)
        } else {
            Err(ProtocolError::UnknownDiscriminant { value: d })
        }
    }

    pub open spec fn spec_pattern(self) -> InteractionPattern {
        match self {
            Operation::Watch => InteractionPattern::ServerStreaming,
            Operation::List => InteractionPattern::ServerStreaming,
            Operation::Version => InteractionPattern::Unary,
            Operation::Provide => InteractionPattern::Unary,
        }
    }

    /// The tag that identifies this operation in both envelopes.
    pub fn discriminant(self) -> (d: u32)
        ensures
            d == self.spec_discriminant(),
            d < OPERATION_COUNT,
    {
        match self {
            Operation::Watch => 0,
            Operation::Version => 1,
            Operation::List => 2,
            Operation::Provide => 3,
        }
    }

    /// The operation that a tag identifies; a tag outside the catalog is a
    /// protocol error.
    pub fn from_discriminant(d: u32) -> (r: Result<Operation, ProtocolError>)
        ensures
            r == Operation::spec_from_discriminant(d),
    {
        if d == 0 {
            Ok(Operation::Watch)
        } else if d == 1 {
            Ok(Operation::Version)
        } else if d == 2 {
            Ok(Operation::List)
        } else if d == 3 {
            Ok(Operation::Provide)
        } else {
            Err(ProtocolError::UnknownDiscriminant { value: d })
        }
    }

    /// The interaction pattern bound to this operation.
    pub fn pattern(self) -> (p: InteractionPattern)
        ensures
            p == self.spec_pattern(),
    {
        match self {
            Operation::Watch => InteractionPattern::ServerStreaming,
            Operation::List => InteractionPattern::ServerStreaming,
            Operation::Version => InteractionPattern::Unary,
            Operation::Provide => InteractionPattern::Unary,
        }
    }
}

/// Every request of the service.
#[derive(Debug, Clone, PartialEq, Eq)]
pub enum SendmeRequest {
    Watch(WatchRequest),
    Version(VersionRequest),
    List(ListRequest),
    Provide(ProvideRequest),
}

/// Every response of the service. `Provide` carries its own failure.
#[derive(Debug)]
pub enum SendmeResponse {
    Watch(WatchResponse),
    Version(VersionResponse),
    List(ListResponse),
    Provide(RpcResult<ProvideResponse>),
}

impl SendmeRequest {
    pub open spec fn spec_operation(self) -> Operation {
        match self {
            SendmeRequest::Watch(_) => Operation::Watch,
            SendmeRequest::Version(_) => Operation::Version,
            SendmeRequest::List(_) => Operation::List,
            SendmeRequest::Provide(_) => Operation::Provide,
        }
    }

    /// The operation this request asks for.
    pub fn operation(&self) -> (op: Operation)
        ensures
            op == self.spec_operation(),
    {
        match self {
            SendmeRequest::Watch(_) => Operation::Watch,
            SendmeRequest::Version(_) => Operation::Version,
            SendmeRequest::List(_) => Operation::List,
            SendmeRequest::Provide(_) => Operation::Provide,
        }
    }

    /// The interaction pattern of the call this request opens.
    pub fn pattern(&self) -> (p: InteractionPattern)
        ensures
            p == self.spec_operation().spec_pattern(),
    {
        self.operation().pattern()
    }
}

impl SendmeResponse {
    pub open spec fn spec_operation(self) -> Operation {
        match self {
            SendmeResponse::Watch(_) => Operation::Watch,
            SendmeResponse::Version(_) => Operation::Version,
            SendmeResponse::List(_) => Operation::List,
            SendmeResponse::Provide(_) => Operation::Provide,
        }
    }

    /// The operation this response answers.
    pub fn operation(&self) -> (op: Operation)
        ensures
            op == self.spec_operation(),
    {
        match self {
            SendmeResponse::Watch(_) => Operation::Watch,
            SendmeResponse::Version(_) => Operation::Version,
            SendmeResponse::List(_) => Operation::List,
            SendmeResponse::Provide(_) => Operation::Provide,
        }
    }
}

/// The service that pairs the two envelopes.
#[derive(Debug, Clone, Copy, PartialEq, Eq, Structural)]
pub struct SendmeService;

impl SendmeService {
    /// Whether `res` is of the kind that answers `req`.
    pub fn answers(req: &SendmeRequest, res: &SendmeResponse) -> (b: bool)
        ensures
            b == (req.spec_operation() == res.spec_operation()),
    {
        req.operation() == res.operation()
    }
}

impl From<WatchRequest> for SendmeRequest {
    fn from(m: WatchRequest) -> (e: SendmeRequest) {
        SendmeRequest::Watch(m)
    }
}

impl FromSpecImpl<WatchRequest> for SendmeRequest {
    open spec fn obeys_from_spec() -> bool {
        true
    }

    open spec fn from_spec(m: WatchRequest) -> SendmeRequest {
        SendmeRequest::Watch(m)
    }
}

impl TryFrom<SendmeRequest> for WatchRequest {
    type Error = ProtocolError;

    fn try_from(e: SendmeRequest) -> (r: Result<WatchRequest, ProtocolError>) {
        let found = e.operation();
        match e {
            SendmeRequest::Watch(m) => Ok(m),
            _ => Err(ProtocolError::UnexpectedVariant { expected: Operation::Watch, found }),
        }
    }
}

impl TryFromSpecImpl<SendmeRequest> for WatchRequest {
    open spec fn obeys_try_from_spec() -> bool {
        true
    }

    open spec fn try_from_spec(e: SendmeRequest) -> Result<WatchRequest, ProtocolError> {
        match e {
            SendmeRequest::Watch(m) => Ok(m),
            _ => Err(ProtocolError::UnexpectedVariant { expected: Operation::Watch, found: e.spec_operation() }),
        }
    }
}

impl From<VersionRequest> for SendmeRequest {
    fn from(m: VersionRequest) -> (e: SendmeRequest) {
        SendmeRequest::Version(m)
    }
}

impl FromSpecImpl<VersionRequest> for SendmeRequest {
    open spec fn obeys_from_spec() -> bool {
        true
    }

    open spec fn from_spec(m: VersionRequest) -> SendmeRequest {
        SendmeRequest::Version(m)
    }
}

impl TryFrom<SendmeRequest> for VersionRequest {
    type Error = ProtocolError;

    fn try_from(e: SendmeRequest) -> (r: Result<VersionRequest, ProtocolError>) {
        let found = e.operation();
        match e {
            SendmeRequest::Version(m) => Ok(m),
            _ => Err(ProtocolError::UnexpectedVariant { expected: Operation::Version, found }),
        }
    }
}

impl TryFromSpecImpl<SendmeRequest> for VersionRequest {
    open spec fn obeys_try_from_spec() -> bool {
        true
    }

    open spec fn try_from_spec(e: SendmeRequest) -> Result<VersionRequest, ProtocolError> {
        match e {
            SendmeRequest::Version(m) => Ok(m),
            _ => Err(ProtocolError::UnexpectedVariant { expected: Operation::Version, found: e.spec_operation() }),
        }
    }
}

impl From<ListRequest> for SendmeRequest {
    fn from(m: ListRequest) -> (e: SendmeRequest) {
        SendmeRequest::List(m)
    }
}

impl FromSpecImpl<ListRequest> for SendmeRequest {
    open spec fn obeys_from_spec() -> bool {
        true
    }

    open spec fn from_spec(m: ListRequest) -> SendmeRequest {
        SendmeRequest::List(m)
    }
}

impl TryFrom<SendmeRequest> for ListRequest {
    type Error = ProtocolError;

    fn try_from(e: SendmeRequest) -> (r: Result<ListRequest, ProtocolError>) {
        let found = e.operation();
        match e {
            SendmeRequest::List(m) => Ok(m),
            _ => Err(ProtocolError::UnexpectedVariant { expected: Operation::List, found }),
        }
    }
}

impl TryFromSpecImpl<SendmeRequest> for ListRequest {
    open spec fn obeys_try_from_spec() -> bool {
        true
    }

    open spec fn try_from_spec(e: SendmeRequest) -> Result<ListRequest, ProtocolError> {
        match e {
            SendmeRequest::List(m) => Ok(m),
            _ => Err(ProtocolError::UnexpectedVariant { expected: Operation::List, found: e.spec_operation() }),
        }
    }
}

impl From<ProvideRequest> for SendmeRequest {
    fn from(m: ProvideRequest) -> (e: SendmeRequest) {
        SendmeRequest::Provide(m)
    }
}

impl FromSpecImpl<ProvideRequest> for SendmeRequest {
    open spec fn obeys_from_spec() -> bool {
        true
    }

    open spec fn from_spec(m: ProvideRequest) -> SendmeRequest {
        SendmeRequest::Provide(m)
    }
}

impl TryFrom<SendmeRequest> for ProvideRequest {
    type Error = ProtocolError;

    fn try_from(e: SendmeRequest) -> (r: Result<ProvideRequest, ProtocolError>) {
        let found = e.operation();
        match e {
            SendmeRequest::Provide(m) => Ok(m),
            _ => Err(ProtocolError::UnexpectedVariant { expected: Operation::Provide, found }),
        }
    }
}

impl TryFromSpecImpl<SendmeRequest> for ProvideRequest {
    open spec fn obeys_try_from_spec() -> bool {
        true
    }

    open spec fn try_from_spec(e: SendmeRequest) -> Result<ProvideRequest, ProtocolError> {
        match e {
            SendmeRequest::Provide(m) => Ok(m),
            _ => Err(ProtocolError::UnexpectedVariant { expected: Operation::Provide, found: e.spec_operation() }),
        }
    }
}

impl From<WatchResponse> for SendmeResponse {
    fn from(m: WatchResponse) -> (e: SendmeResponse) {
        SendmeResponse::Watch(m)
    }
}

impl FromSpecImpl<WatchResponse> for SendmeResponse {
    open spec fn obeys_from_spec() -> bool {
        true
    }

    open spec fn from_spec(m: WatchResponse) -> SendmeResponse {
        SendmeResponse::Watch(m)
    }
}

impl TryFrom<SendmeResponse> for WatchResponse {
    type Error = ProtocolError;

    fn try_from(e: SendmeResponse) -> (r: Result<WatchResponse, ProtocolError>) {
        let found = e.operation();
        match e {
            SendmeResponse::Watch(m) => Ok(m),
            _ => Err(ProtocolError::UnexpectedVariant { expected: Operation::Watch, found }),
        }
    }
}

impl TryFromSpecImpl<SendmeResponse> for WatchResponse {
    open spec fn obeys_try_from_spec() -> bool {
        true
    }

    open spec fn try_from_spec(e: SendmeResponse) -> Result<WatchResponse, ProtocolError> {
        match e {
            SendmeResponse::Watch(m) => Ok(m),
            _ => Err(ProtocolError::UnexpectedVariant { expected: Operation::Watch, found: e.spec_operation() }),
        }
    }
}

impl From<VersionResponse> for SendmeResponse {
    fn from(m: VersionResponse) -> (e: SendmeResponse) {
        SendmeResponse::Version(m)
    }
}

impl FromSpecImpl<VersionResponse> for SendmeResponse {
    open spec fn obeys_from_spec() -> bool {
        true
    }

    open spec fn from_spec(m: VersionResponse) -> SendmeResponse {
        SendmeResponse::Version(m)
    }
}

impl TryFrom<SendmeResponse> for VersionResponse {
    type Error = ProtocolError;

    fn try_from(e: SendmeResponse) -> (r: Result<VersionResponse, ProtocolError>) {
        let found = e.operation();
        match e {
            SendmeResponse::Version(m) => Ok(m),
            _ => Err(ProtocolError::UnexpectedVariant { expected: Operation::Version, found }),
        }
    }
}

impl TryFromSpecImpl<SendmeResponse> for VersionResponse {
    open spec fn obeys_try_from_spec() -> bool {
        true
    }

    open spec fn try_from_spec(e: SendmeResponse) -> Result<VersionResponse, ProtocolError> {
        match e {
            SendmeResponse::Version(m) => Ok(m),
            _ => Err(ProtocolError::UnexpectedVariant { expected: Operation::Version, found: e.spec_operation() }),
        }
    }
}

impl From<ListResponse> for SendmeResponse {
    fn from(m: ListResponse) -> (e: SendmeResponse) {
        SendmeResponse::List(m)
    }
}

impl FromSpecImpl<ListResponse> for SendmeResponse {
    open spec fn obeys_from_spec() -> bool {
        true
    }

    open spec fn from_spec(m: ListResponse) -> SendmeResponse {
        SendmeResponse::List(m)
    }
}

impl TryFrom<SendmeResponse> for ListResponse {
    type Error = ProtocolError;

    fn try_from(e: SendmeResponse) -> (r: Result<ListResponse, ProtocolError>) {
        let found = e.operation();
        match e {
            SendmeResponse::List(m) => Ok(m),
            _ => Err(ProtocolError::UnexpectedVariant { expected: Operation::List, found }),
        }
    }
}

impl TryFromSpecImpl<SendmeResponse> for ListResponse {
    open spec fn obeys_try_from_spec() -> bool {
        true
    }

    open spec fn try_from_spec(e: SendmeResponse) -> Result<ListResponse, ProtocolError> {
        match e {
            SendmeResponse::List(m) => Ok(m),
            _ => Err(ProtocolError::UnexpectedVariant { expected: Operation::List, found: e.spec_operation() }),
        }
    }
}

impl From<RpcResult<ProvideResponse>> for SendmeResponse {
    fn from(m: RpcResult<ProvideResponse>) -> (e: SendmeResponse) {
        SendmeResponse::Provide(m)
    }
}

impl FromSpecImpl<RpcResult<ProvideResponse>> for SendmeResponse {
    open spec fn obeys_from_spec() -> bool {
        true
    }

    open spec fn from_spec(m: RpcResult<ProvideResponse>) -> SendmeResponse {
        SendmeResponse::Provide(m)
    }
}

impl TryFrom<SendmeResponse> for RpcResult<ProvideResponse> {
    type Error = ProtocolError;

    fn try_from(e: SendmeResponse) -> (r: Result<RpcResult<ProvideResponse>, ProtocolError>) {
        let found = e.operation();
        match e {
            SendmeResponse::Provide(m) => Ok(m),
            _ => Err(ProtocolError::UnexpectedVariant { expected: Operation::Provide, found }),
        }
    }
}

impl TryFromSpecImpl<SendmeResponse> for RpcResult<ProvideResponse> {
    open spec fn obeys_try_from_spec() -> bool {
        true
    }

    open spec fn try_from_spec(e: SendmeResponse) -> Result<RpcResult<ProvideResponse>, ProtocolError> {
        match e {
            SendmeResponse::Provide(m) => Ok(m),
            _ => Err(ProtocolError::UnexpectedVariant { expected: Operation::Provide, found: e.spec_operation() }),
        }
    }
}

/// Every tag of an operation decodes to that operation, and every other tag
/// decodes to an unknown-discriminant error.
pub proof fn lemma_discriminant_decoding(op: Operation, d: u32)
    ensures
        Operation::spec_from_discriminant(op.spec_discriminant()) == Ok::<Operation, ProtocolError>(op),
        d >= OPERATION_COUNT ==> Operation::spec_from_discriminant(d) == Err::<Operation, ProtocolError>(
            (ProtocolError::UnknownDiscriminant { value: d }),
        ),
        d < OPERATION_COUNT ==> (Operation::spec_from_discriminant(d) matches Ok(o) && o.spec_discriminant() == d),
{
}

/// Wrapping any catalog request into the request envelope and extracting it
/// again as its own type gives back the same value.
pub proof fn lemma_request_round_trip(w: WatchRequest, v: VersionRequest, l: ListRequest, p: ProvideRequest)
    ensures
        <WatchRequest as TryFromSpec<SendmeRequest>>::try_from_spec(
            <SendmeRequest as FromSpec<WatchRequest>>::from_spec(w),
        ) == Ok::<WatchRequest, ProtocolError>(w),
        <VersionRequest as TryFromSpec<SendmeRequest>>::try_from_spec(
            <SendmeRequest as FromSpec<VersionRequest>>::from_spec(v),
        ) == Ok::<VersionRequest, ProtocolError>(v),
        <ListRequest as TryFromSpec<SendmeRequest>>::try_from_spec(
            <SendmeRequest as FromSpec<ListRequest>>::from_spec(l),
        ) == Ok::<ListRequest, ProtocolError>(l),
        <ProvideRequest as TryFromSpec<SendmeRequest>>::try_from_spec(
            <SendmeRequest as FromSpec<ProvideRequest>>::from_spec(p),
        ) == Ok::<ProvideRequest, ProtocolError>(p),
{
}

/// Extracting a request envelope as the type it holds succeeds, and wrapping
/// the result restores the envelope; extracting it as any other type fails
/// with a protocol error that names both operations.
pub proof fn lemma_request_envelope_bijection(e: SendmeRequest)
    ensures
        match <WatchRequest as TryFromSpec<SendmeRequest>>::try_from_spec(e) {
            Ok(m) => e is Watch && <SendmeRequest as FromSpec<WatchRequest>>::from_spec(m) == e,
            Err(err) => e !is Watch && err == (ProtocolError::UnexpectedVariant {
                expected: Operation::Watch,
                found: e.spec_operation(),
            }),
        },
        match <VersionRequest as TryFromSpec<SendmeRequest>>::try_from_spec(e) {
            Ok(m) => e is Version && <SendmeRequest as FromSpec<VersionRequest>>::from_spec(m) == e,
            Err(err) => e !is Version && err == (ProtocolError::UnexpectedVariant {
                expected: Operation::Version,
                found: e.spec_operation(),
            }),
        },
        match <ListRequest as TryFromSpec<SendmeRequest>>::try_from_spec(e) {
            Ok(m) => e is List && <SendmeRequest as FromSpec<ListRequest>>::from_spec(m) == e,
            Err(err) => e !is List && err == (ProtocolError::UnexpectedVariant {
                expected: Operation::List,
                found: e.spec_operation(),
            }),
        },
        match <ProvideRequest as TryFromSpec<SendmeRequest>>::try_from_spec(e) {
            Ok(m) => e is Provide && <SendmeRequest as FromSpec<ProvideRequest>>::from_spec(m) == e,
            Err(err) => e !is Provide && err == (ProtocolError::UnexpectedVariant {
                expected: Operation::Provide,
                found: e.spec_operation(),
            }),
        },
{
}

/// Wrapping any catalog response into the response envelope and extracting it
/// again as its own type gives back the same value.
pub proof fn lemma_response_round_trip(w: WatchResponse, v: VersionResponse, l: ListResponse, p: RpcResult<ProvideResponse>)
    ensures
        <WatchResponse as TryFromSpec<SendmeResponse>>::try_from_spec(
            <SendmeResponse as FromSpec<WatchResponse>>::from_spec(w),
        ) == Ok::<WatchResponse, ProtocolError>(w),
        <VersionResponse as TryFromSpec<SendmeResponse>>::try_from_spec(
            <SendmeResponse as FromSpec<VersionResponse>>::from_spec(v),
        ) == Ok::<VersionResponse, ProtocolError>(v),
        <ListResponse as TryFromSpec<SendmeResponse>>::try_from_spec(
            <SendmeResponse as FromSpec<ListResponse>>::from_spec(l),
        ) == Ok::<ListResponse, ProtocolError>(l),
        <RpcResult<ProvideResponse> as TryFromSpec<SendmeResponse>>::try_from_spec(
            <SendmeResponse as FromSpec<RpcResult<ProvideResponse>>>::from_spec(p),
        ) == Ok::<RpcResult<ProvideResponse>, ProtocolError>(p),
{
}

/// Extracting a response envelope as the type it holds succeeds, and wrapping
/// the result restores the envelope; extracting it as any other type fails
/// with a protocol error that names both operations.
pub proof fn lemma_response_envelope_bijection(e: SendmeResponse)
    ensures
        match <WatchResponse as TryFromSpec<SendmeResponse>>::try_from_spec(e) {
            Ok(m) => e is Watch && <SendmeResponse as FromSpec<WatchResponse>>::from_spec(m) == e,
            Err(err) => e !is Watch && err == (ProtocolError::UnexpectedVariant {
                expected: Operation::Watch,
                found: e.spec_operation(),
            }),
        },
        match <VersionResponse as TryFromSpec<SendmeResponse>>::try_from_spec(e) {
            Ok(m) => e is Version && <SendmeResponse as FromSpec<VersionResponse>>::from_spec(m) == e,
            Err(err) => e !is Version && err == (ProtocolError::UnexpectedVariant {
                expected: Operation::Version,
                found: e.spec_operation(),
            }),
        },
        match <ListResponse as TryFromSpec<SendmeResponse>>::try_from_spec(e) {
            Ok(m) => e is List && <SendmeResponse as FromSpec<ListResponse>>::from_spec(m) == e,
            Err(err) => e !is List && err == (ProtocolError::UnexpectedVariant {
                expected: Operation::List,
                found: e.spec_operation(),
            }),
        },
        match <RpcResult<ProvideResponse> as TryFromSpec<SendmeResponse>>::try_from_spec(e) {
            Ok(m) => e is Provide && <SendmeResponse as FromSpec<RpcResult<ProvideResponse>>>::from_spec(m) == e,
            Err(err) => e !is Provide && err == (ProtocolError::UnexpectedVariant {
                expected: Operation::Provide,
                found: e.spec_operation(),
            }),
        },
{
}

} // verus!
