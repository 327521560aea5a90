//! The stack stage: prices a request and authorizes the price against a
//! prepaid stack.
//!
//! The stage asks the host for the caller's address, reads the stack that
//! the request claims, asks the host for the body, estimates its cost and
//! asks the ledger whether the caller's stack covers it. Where the ledger does not know
//! of such a stack, the stage falls back on the blockchain: the request
//! must name the transaction that funded the stack, and what the
//! transaction shows must be the claimed stack with enough units. The
//! stage never changes a stack: the ledger learns of what is spent from
//! the chain's events.

use crate::error::{ErrorKind, ServiceError};
use crate::estimator::{calculate_compute_units, estimate, MODEL};
use crate::headers::{Header, RequestBody, SIGNATURE, STACK_SMALL_ID};
use crate::json::{json_document, parse_json, JsonValue};
use crate::metadata::{continues, inherited, RequestMetadata, RequestType};
use crate::signature::MAX_BODY_SIZE;
use crate::text::{parse_i64, parse_i64_spec};
use crate::tokenizer::ModelTokenizers;
use vstd::prelude::*;

verus! {

/// What the client is told where the transaction shows a stack that does
/// not cover the request.
pub const NO_AVAILABLE_STACK: &'static str = "No available stack with enough compute units";

/// What the client is told where the transaction shows no stack.
pub const NO_COMPUTE_UNITS: &'static str = "No compute units found for transaction";

/// A request as it reaches the stage.
#[derive(Debug)]
pub struct StackRequest {
    /// The route path.
    pub path: String,
    pub signature: Header,
    pub stack_small_id: Header,
    pub tx_digest: Header,
    /// The context that earlier stages built, if any did.
    pub metadata: Option<RequestMetadata>,
}

/// A request of which the caller and the claimed stack are known.
#[derive(Debug)]
pub struct IdentifiedRequest {
    /// The stack that the request claims.
    pub stack_small_id: i64,
    /// The address of the caller.
    pub address: String,
    pub path: String,
    pub tx_digest: Header,
    pub metadata: RequestMetadata,
}

/// A request with its price.
#[derive(Debug)]
pub struct PricedRequest {
    /// The stack that the request claims.
    pub stack_small_id: i64,
    /// The estimated cost of the request.
    pub estimated_total_compute_units: i64,
    pub request_type: RequestType,
    pub path: String,
    pub tx_digest: Header,
    pub body: Vec<u8>,
    pub metadata: RequestMetadata,
}

/// Where the stage stands.
#[derive(Debug)]
pub enum StackState {
    /// No request was seen yet.
    Start,
    /// The caller's address was asked for.
    AwaitingCaller(StackRequest),
    /// The body was asked for.
    AwaitingBody(IdentifiedRequest),
    /// The ledger was asked.
    AwaitingLedger(PricedRequest),
    /// The blockchain was asked.
    AwaitingChain(PricedRequest),
    /// The request was forwarded or rejected.
    Done,
}

/// What the host reports to the stage.
#[derive(Debug)]
pub enum StackEvent {
    /// A request arrived.
    Request(StackRequest),
    /// The signature names a public key, and this is its address.
    CallerResolved { address: String },
    /// The signature does not decode to a scheme and a public key.
    CallerMalformed,
    /// The body was read, or could not be read.
    Body(RequestBody),
    /// The ledger answered: whether the caller has the stack, with enough
    /// units left.
    LedgerAnswered { available: bool },
    /// The ledger could not be asked, or its answer never arrived.
    LedgerUnreachable,
    /// The ledger answered with a failure.
    LedgerFailed,
    /// The transaction header does not hold a transaction digest; the
    /// blockchain was not asked.
    DigestMalformed,
    /// The blockchain answered with what the transaction shows.
    ChainAnswered { stack_small_id: Option<u64>, compute_units: Option<u64> },
    /// The blockchain could not be asked, or did not answer in time.
    ChainUnreachable,
}

/// What the stage asks of the host.
#[derive(Debug)]
pub enum StackAction {
    /// Derive the caller's address from the public key of the signature.
    ResolveCaller { signature: String },
    /// Read the body, up to `limit` bytes, and report it; a body that is
    /// longer or cannot be read is reported as unreadable.
    ReadBody { limit: usize },
    /// Ask the ledger for the caller's stack with enough units.
    QueryLedger { stack_small_id: i64, address: String, total_num_compute_units: i64 },
    /// Read the digest of the transaction and ask the blockchain what the
    /// transaction shows, waiting no longer than a bound. A text that is no
    /// digest is reported as `DigestMalformed`, and the blockchain is not
    /// asked.
    QueryChain { tx_digest: String, estimated_compute_units: i64 },
    /// Hand the request on, with this body and this context.
    Forward { body: Vec<u8>, metadata: RequestMetadata },
    /// Answer the client with this rejection.
    Reject(ServiceError),
}

impl StackAction {
    /// This action rejects the request with the given kind, for the given
    /// endpoint.
    pub open spec fn rejects(&self, kind: ErrorKind, endpoint: Seq<char>) -> bool {
        self matches StackAction::Reject(e) && e.kind() == kind && e.endpoint() == endpoint
    }
}

/// The document of a body: the body is within the size limit and is JSON.
pub open spec fn document_of(body: Seq<u8>) -> Option<JsonValue> {
    if body.len() > MAX_BODY_SIZE {
        None
    } else {
        json_document(body)
    }
}

/// The document of the body of a request; none where the body could not
/// be read.
pub open spec fn request_document(body: RequestBody) -> Option<JsonValue> {
    match body {
        RequestBody::Read(bytes) => document_of(bytes@),
        RequestBody::Unreadable => None,
    }
}

/// The model that a document asks for: its member `model`, which is a
/// string.
pub open spec fn model_of(document: JsonValue) -> Option<Seq<char>> {
    match document.field(MODEL@) {
        Some(model) => model.text(),
        None => None,
    }
}

/// `e` rejects a request to `endpoint` with the given kind.
pub open spec fn refuses(e: ServiceError, kind: ErrorKind, endpoint: Seq<char>) -> bool {
    e.kind() == kind && e.endpoint() == endpoint
}

/// The stack that a request claims, or a rejection.
///
/// A request without the stack header is rejected as lacking that header;
/// one of which the stack is no signed decimal integer of 64 bits as an
/// invalid header. Of any other request the stack is the one that the
/// header declares.
pub open spec fn declared(
    stack_small_id: Header,
    endpoint: Seq<char>,
    r: Result<i64, ServiceError>,
) -> bool {
    match stack_small_id {
        Header::Absent => r matches Err(e) && e.is(
            ErrorKind::MissingHeader,
            STACK_SMALL_ID@,
            endpoint,
        ),
        Header::Opaque => r matches Err(e) && refuses(e, ErrorKind::InvalidHeader, endpoint),
        Header::Text(text) => match parse_i64_spec(text@) {
            None => r matches Err(e) && refuses(e, ErrorKind::InvalidHeader, endpoint),
            Some(stack_small_id) => r matches Ok(read) && read == stack_small_id,
        },
    }
}

/// The price of a body sent to `endpoint`: its estimated cost, or a
/// rejection.
///
/// A body that could not be read, is beyond the size limit or no JSON,
/// names no model or names one that the node does not serve, is rejected
/// as an invalid body. Of any other body the cost or the rejection is the
/// estimate of the body for the kind of request that the path stands for.
pub open spec fn priced(
    endpoint: Seq<char>,
    body: RequestBody,
    tokenizers: ModelTokenizers,
    r: Result<i64, ServiceError>,
) -> bool {
    match request_document(body) {
        None => r matches Err(e) && refuses(e, ErrorKind::InvalidBody, endpoint),
        Some(document) => match model_of(document) {
            None => r matches Err(e) && refuses(e, ErrorKind::InvalidBody, endpoint),
            Some(model) => if !tokenizers.supports(model) {
                r matches Err(e) && refuses(e, ErrorKind::InvalidBody, endpoint)
            } else {
                estimate(document, RequestType::of_path(endpoint), tokenizers, model, endpoint, r)
            },
        },
    }
}

/// The context of an admitted request: the one that the request came
/// with, to which the stack, the cost, the kind of request and the path
/// are added.
pub open spec fn admitted(request: PricedRequest) -> RequestMetadata {
    RequestMetadata {
        stack_small_id: request.stack_small_id,
        estimated_total_compute_units: request.estimated_total_compute_units,
        request_type: request.request_type,
        endpoint_path: request.path,
        ..request.metadata
    }
}

/// What the transaction shows covers the request: it shows a stack and its
/// units, the stack is the one that the request claims, and the units are
/// at least the estimated cost.
pub open spec fn funded(
    request: PricedRequest,
    stack_small_id: Option<u64>,
    compute_units: Option<u64>,
) -> bool {
    &&& stack_small_id matches Some(id)
    &&& compute_units matches Some(units)
    &&& id == request.stack_small_id
    &&& units >= request.estimated_total_compute_units
}

/// The transitions of the stage.
///
/// A request without a signature header is rejected as lacking that
/// header, before anything else is looked at; one of which the signature
/// is no text, or does not decode, as an invalid header. Once the caller
/// is known the claimed stack is read: the request is rejected as
/// `declared` says, or its body is asked for. The body is priced: the
/// request is rejected as `priced` says, or the ledger is asked for the
/// claimed stack, the caller's address and the estimated cost. Where the ledger has the stack the request is
/// forwarded. Where it has not, the request must name a transaction, else
/// it is rejected as an invalid header; so it is where what it names is no
/// transaction digest, and the blockchain is then not asked. Else the
/// blockchain is asked for that transaction, and the request is forwarded
/// only where the answer covers it. Where the answer shows a stack that
/// does not cover it, the request is rejected as an authorization error
/// with the words of `NO_AVAILABLE_STACK`; where it shows none, with those
/// of `NO_COMPUTE_UNITS`. A forwarded request keeps its body and carries
/// the context `admitted`. A ledger or blockchain that cannot be reached,
/// or of which the answer never arrives, is an internal error; a failure
/// that the ledger answered is an authorization error; an event that does
/// not fit the state is an internal error.
pub open spec fn stack_step(
    state: StackState,
    event: StackEvent,
    tokenizers: ModelTokenizers,
    next: (StackState, StackAction),
) -> bool {
    match (state, event) {
        (StackState::Start, StackEvent::Request(request)) => match request.signature {
            Header::Absent => {
                &&& next.0 is Done
                &&& next.1 matches StackAction::Reject(e)
                &&& e.is(ErrorKind::MissingHeader, SIGNATURE@, request.path@)
            },
            Header::Opaque => {
                &&& next.0 is Done
                &&& next.1.rejects(ErrorKind::InvalidHeader, request.path@)
            },
            Header::Text(text) => {
                &&& next.0 == StackState::AwaitingCaller(request)
                &&& next.1 matches StackAction::ResolveCaller { signature }
                &&& signature@ == text@
            },
        },
        (StackState::AwaitingCaller(request), StackEvent::CallerResolved { address }) => match next.1 {
            StackAction::Reject(e) => {
                &&& next.0 is Done
                &&& declared(request.stack_small_id, request.path@, Err(e))
            },
            StackAction::ReadBody { limit } => {
                &&& limit == MAX_BODY_SIZE
                &&& next.0 matches StackState::AwaitingBody(identified)
                &&& declared(request.stack_small_id, request.path@, Ok(identified.stack_small_id))
                &&& identified.address == address
                &&& identified.path == request.path
                &&& identified.tx_digest == request.tx_digest
                &&& continues(request.metadata, identified.metadata)
            },
            _ => false,
        },
        (StackState::AwaitingCaller(request), StackEvent::CallerMalformed) => {
            &&& next.0 is Done
            &&& next.1.rejects(ErrorKind::InvalidHeader, request.path@)
        },
        (StackState::AwaitingCaller(request), _) => {
            &&& next.0 is Done
            &&& next.1.rejects(ErrorKind::InternalError, request.path@)
        },
        (StackState::AwaitingBody(identified), StackEvent::Body(body)) => match next.1 {
            StackAction::Reject(e) => {
                &&& next.0 is Done
                &&& priced(identified.path@, body, tokenizers, Err(e))
            },
            StackAction::QueryLedger { stack_small_id, address, total_num_compute_units } => {
                &&& priced(identified.path@, body, tokenizers, Ok(total_num_compute_units))
                &&& stack_small_id == identified.stack_small_id
                &&& address@ == identified.address@
                &&& next.0 matches StackState::AwaitingLedger(pending)
                &&& pending.stack_small_id == stack_small_id
                &&& pending.estimated_total_compute_units == total_num_compute_units
                &&& pending.request_type == RequestType::of_path(identified.path@)
                &&& pending.path == identified.path
                &&& pending.tx_digest == identified.tx_digest
                &&& body == RequestBody::Read(pending.body)
                &&& pending.metadata == identified.metadata
            },
            _ => false,
        },
        (StackState::AwaitingBody(identified), _) => {
            &&& next.0 is Done
            &&& next.1.rejects(ErrorKind::InternalError, identified.path@)
        },
        (StackState::AwaitingLedger(pending), StackEvent::LedgerAnswered { available }) => {
            if available {
                &&& next.0 is Done
                &&& next.1 == StackAction::Forward { body: pending.body, metadata: admitted(pending) }
            } else {
                match pending.tx_digest {
                    Header::Text(text) => {
                        &&& next.0 == StackState::AwaitingChain(pending)
                        &&& next.1 matches StackAction::QueryChain {
                            tx_digest,
                            estimated_compute_units,
                        }
                        &&& tx_digest@ == text@
                        &&& estimated_compute_units == pending.estimated_total_compute_units
                    },
                    _ => {
                        &&& next.0 is Done
                        &&& next.1.rejects(ErrorKind::InvalidHeader, pending.path@)
                    },
                }
            }
        },
        (StackState::AwaitingLedger(pending), StackEvent::LedgerFailed) => {
            &&& next.0 is Done
            &&& next.1.rejects(ErrorKind::AuthError, pending.path@)
        },
        (StackState::AwaitingLedger(pending), _) => {
            &&& next.0 is Done
            &&& next.1.rejects(ErrorKind::InternalError, pending.path@)
        },
        (
            StackState::AwaitingChain(pending),
            StackEvent::ChainAnswered { stack_small_id, compute_units },
        ) => {
            if funded(pending, stack_small_id, compute_units) {
                &&& next.0 is Done
                &&& next.1 == StackAction::Forward { body: pending.body, metadata: admitted(pending) }
            } else if stack_small_id is Some && compute_units is Some {
                &&& next.0 is Done
                &&& next.1 matches StackAction::Reject(e)
                &&& e.is(ErrorKind::AuthError, NO_AVAILABLE_STACK@, pending.path@)
            } else {
                &&& next.0 is Done
                &&& next.1 matches StackAction::Reject(e)
                &&& e.is(ErrorKind::AuthError, NO_COMPUTE_UNITS@, pending.path@)
            }
        },
        (StackState::AwaitingChain(pending), StackEvent::DigestMalformed) => {
            &&& next.0 is Done
            &&& next.1.rejects(ErrorKind::InvalidHeader, pending.path@)
        },
        (StackState::AwaitingChain(pending), _) => {
            &&& next.0 is Done
            &&& next.1.rejects(ErrorKind::InternalError, pending.path@)
        },
        _ => {
            &&& next.0 is Done
            &&& next.1.rejects(ErrorKind::InternalError, Seq::empty())
        },
    }
}

/// A request without a signature header is rejected as lacking the header
/// `Signature`; the stage ends there, with nothing asked of the host and
/// nothing handed on.
pub proof fn lemma_missing_signature_is_rejected(
    request: StackRequest,
    tokenizers: ModelTokenizers,
    next: (StackState, StackAction),
)
    requires
        request.signature is Absent,
        stack_step(StackState::Start, StackEvent::Request(request), tokenizers, next),
    ensures
        next.0 is Done,
        next.1 matches StackAction::Reject(e) && e.is(
            ErrorKind::MissingHeader,
            SIGNATURE@,
            request.path@,
        ),
{
}

/// Where the ledger does not have the stack and the request names no
/// transaction, the request is rejected as an invalid header.
pub proof fn lemma_ledger_miss_needs_transaction(
    pending: PricedRequest,
    tokenizers: ModelTokenizers,
    next: (StackState, StackAction),
)
    requires
        pending.tx_digest is Absent,
        stack_step(
            StackState::AwaitingLedger(pending),
            StackEvent::LedgerAnswered { available: false },
            tokenizers,
            next,
        ),
    ensures
        next.0 is Done,
        next.1.rejects(ErrorKind::InvalidHeader, pending.path@),
{
}

/// Where the transaction funded another stack than the one that the
/// request claims, the request is rejected as an authorization error that
/// says that no stack with enough units is available, however many units
/// the transaction shows.
pub proof fn lemma_other_stack_is_rejected(
    pending: PricedRequest,
    stack_small_id: u64,
    compute_units: u64,
    tokenizers: ModelTokenizers,
    next: (StackState, StackAction),
)
    requires
        stack_small_id != pending.stack_small_id,
        stack_step(
            StackState::AwaitingChain(pending),
            StackEvent::ChainAnswered {
                stack_small_id: Some(stack_small_id),
                compute_units: Some(compute_units),
            },
            tokenizers,
            next,
        ),
    ensures
        next.0 is Done,
        next.1 matches StackAction::Reject(e) && e.is(
            ErrorKind::AuthError,
            NO_AVAILABLE_STACK@,
            pending.path@,
        ),
{
}

/// Where the ledger does not have the stack and the transaction header
/// holds a text that is no transaction digest, the request is rejected as
/// an invalid header: the stage asks the host to read the digest before
/// the blockchain is asked, and ends when the host cannot read it.
pub proof fn lemma_malformed_digest_is_rejected(
    pending: PricedRequest,
    tokenizers: ModelTokenizers,
    after_ledger: (StackState, StackAction),
    after_digest: (StackState, StackAction),
)
    requires
        pending.tx_digest is Text,
        stack_step(
            StackState::AwaitingLedger(pending),
            StackEvent::LedgerAnswered { available: false },
            tokenizers,
            after_ledger,
        ),
        stack_step(after_ledger.0, StackEvent::DigestMalformed, tokenizers, after_digest),
    ensures
        after_ledger.0 == StackState::AwaitingChain(pending),
        after_ledger.1 matches StackAction::QueryChain { tx_digest, .. }
            && pending.tx_digest matches Header::Text(text) && tx_digest@ == text@,
        after_digest.0 is Done,
        after_digest.1.rejects(ErrorKind::InvalidHeader, pending.path@),
{
}

/// Where the transaction funded the claimed stack with at least the
/// estimated cost, the request goes on with its body, and its context
/// holds exactly that stack and that cost; what earlier stages recorded of
/// the payload hash and the encryption stays as it was.
pub proof fn lemma_funded_request_proceeds(
    pending: PricedRequest,
    stack_small_id: u64,
    compute_units: u64,
    tokenizers: ModelTokenizers,
    next: (StackState, StackAction),
)
    requires
        stack_small_id == pending.stack_small_id,
        compute_units >= pending.estimated_total_compute_units,
        stack_step(
            StackState::AwaitingChain(pending),
            StackEvent::ChainAnswered {
                stack_small_id: Some(stack_small_id),
                compute_units: Some(compute_units),
            },
            tokenizers,
            next,
        ),
    ensures
        next.0 is Done,
        next.1 matches StackAction::Forward { body, metadata } && {
            &&& body == pending.body
            &&& metadata.stack_small_id == stack_small_id
            &&& metadata.estimated_total_compute_units == pending.estimated_total_compute_units
            &&& metadata.request_type == pending.request_type
            &&& metadata.endpoint_path == pending.path
            &&& metadata.payload_hash == pending.metadata.payload_hash
            &&& metadata.client_encryption_metadata == pending.metadata.client_encryption_metadata
        },
{
}

/// A request is handed on only where its stack covers its cost: the
/// ledger said that it has the stack with enough units, or the blockchain
/// showed the claimed stack with at least the estimated cost.
pub proof fn lemma_forward_needs_cover(
    state: StackState,
    event: StackEvent,
    tokenizers: ModelTokenizers,
    next: (StackState, StackAction),
)
    requires
        stack_step(state, event, tokenizers, next),
        next.1 is Forward,
    ensures
        match (state, event) {
            (StackState::AwaitingLedger(_), StackEvent::LedgerAnswered { available }) => available,
            (
                StackState::AwaitingChain(pending),
                StackEvent::ChainAnswered { stack_small_id, compute_units },
            ) => funded(pending, stack_small_id, compute_units),
            _ => false,
        },
{
}

/// The units that the ledger is asked for are the estimate of the body,
/// and the stack is the one that the header declared: what is later
/// recorded as the stack and the cost of the request is what was read and
/// what the estimator computed.
pub proof fn lemma_ledger_is_asked_for_the_estimate(
    identified: IdentifiedRequest,
    body: RequestBody,
    tokenizers: ModelTokenizers,
    next: (StackState, StackAction),
)
    requires
        stack_step(StackState::AwaitingBody(identified), StackEvent::Body(body), tokenizers, next),
        next.1 is QueryLedger,
    ensures
        next.0 matches StackState::AwaitingLedger(pending) && next.1 matches StackAction::QueryLedger {
            stack_small_id,
            total_num_compute_units,
            ..
        } && {
            &&& pending.stack_small_id == stack_small_id
            &&& stack_small_id == identified.stack_small_id
            &&& pending.estimated_total_compute_units == total_num_compute_units
            &&& priced(identified.path@, body, tokenizers, Ok(total_num_compute_units))
        },
{
}

/// The body of a request is asked for only once its caller is known and
/// its stack header holds a stack: a request that is rejected for a header
/// is rejected before anything of its body is read.
pub proof fn lemma_body_is_read_after_the_headers(
    state: StackState,
    event: StackEvent,
    tokenizers: ModelTokenizers,
    next: (StackState, StackAction),
)
    requires
        stack_step(state, event, tokenizers, next),
        next.1 is ReadBody,
    ensures
        event is CallerResolved,
        state matches StackState::AwaitingCaller(request) && declared(
            request.stack_small_id,
            request.path@,
            Ok(next.0->AwaitingBody_0.stack_small_id),
        ),
        next.0 is AwaitingBody,
{
}

/// A rejection that ends the stage.
fn reject(kind: ErrorKind, message: &str, endpoint: &str) -> (next: (StackState, StackAction))
    ensures
        next.0 is Done,
        next.1 matches StackAction::Reject(e) && e.is(kind, message@, endpoint@),
{
    (StackState::Done, StackAction::Reject(ServiceError::new(kind, message, endpoint)))
}

/// A rejection of a request that has no price.
fn unpriced<T>(kind: ErrorKind, message: &str, endpoint: &str) -> (r: Result<T, ServiceError>)
    ensures
        r matches Err(e) && e.is(kind, message@, endpoint@),
{
    Err(ServiceError::new(kind, message, endpoint))
}

/// Reads the document of a body.
pub fn read_document(body: &Vec<u8>) -> (r: Option<JsonValue>)
    ensures
        r == document_of(body@),
{
    if body.len() > MAX_BODY_SIZE {
        None
    } else {
        parse_json(body.as_slice())
    }
}

/// Reads the stack that a request claims.
pub fn read_stack(stack_small_id: &Header, endpoint: &str) -> (r: Result<i64, ServiceError>)
    ensures
        declared(*stack_small_id, endpoint@, r),
{
    match stack_small_id {
        Header::Text(text) => match parse_i64(text.as_str()) {
            Some(stack_small_id) => Ok(stack_small_id),
            None => unpriced(
                ErrorKind::InvalidHeader,
                "Stack small ID is not a valid integer",
                endpoint,
            ),
        },
        Header::Opaque => unpriced(
            ErrorKind::InvalidHeader,
            "Stack small ID cannot be converted to a string",
            endpoint,
        ),
        Header::Absent => unpriced(ErrorKind::MissingHeader, STACK_SMALL_ID, endpoint),
    }
}

/// Prices a body: estimates its cost for the kind of request that the
/// path stands for.
pub fn price(endpoint: &str, body: &RequestBody, tokenizers: &ModelTokenizers) -> (r: Result<
    i64,
    ServiceError,
>)
    ensures
        priced(endpoint@, *body, *tokenizers, r),
{
    let body = match body {
        RequestBody::Read(body) => body,
        RequestBody::Unreadable => {
            return unpriced(ErrorKind::InvalidBody, "Failed to read the body", endpoint);
        },
    };
    let document = match read_document(body) {
        Some(document) => document,
        None => {
            return unpriced(
                ErrorKind::InvalidBody,
                "Body is too large or is not valid JSON",
                endpoint,
            );
        },
    };
    let model = match document.get(MODEL) {
        Some(model) => match model.as_str() {
            Some(model) => model,
            None => {
                return unpriced(ErrorKind::InvalidBody, "Model is not a string", endpoint);
            },
        },
        None => {
            return unpriced(ErrorKind::InvalidBody, "Model not found in body", endpoint);
        },
    };
    if !tokenizers.contains(model) {
        return unpriced(ErrorKind::InvalidBody, "Model not supported", endpoint);
    }
    let request_type = RequestType::from_path(endpoint);
    calculate_compute_units(&document, request_type, tokenizers, model, endpoint)
}

/// Prices the body of a request and asks the ledger.
fn ask_ledger(identified: IdentifiedRequest, body: RequestBody, tokenizers: &ModelTokenizers) -> (next:
    (StackState, StackAction))
    ensures
        stack_step(StackState::AwaitingBody(identified), StackEvent::Body(body), *tokenizers, next),
{
    let total_num_compute_units = match price(identified.path.as_str(), &body, tokenizers) {
        Ok(units) => units,
        Err(e) => { return (StackState::Done, StackAction::Reject(e)); },
    };
    let body = match body {
        RequestBody::Read(body) => body,
        RequestBody::Unreadable => {
            // A body that could not be read has no price.
            assert(false);
            Vec::new()
        },
    };
    let request_type = RequestType::from_path(identified.path.as_str());
    let stack_small_id = identified.stack_small_id;
    (
        StackState::AwaitingLedger(
            PricedRequest {
                stack_small_id,
                estimated_total_compute_units: total_num_compute_units,
                request_type,
                path: identified.path,
                tx_digest: identified.tx_digest,
                body,
                metadata: identified.metadata,
            },
        ),
        StackAction::QueryLedger {
            stack_small_id,
            address: identified.address,
            total_num_compute_units,
        },
    )
}

/// Forwards an admitted request.
fn let_through(request: PricedRequest) -> (next: (StackState, StackAction))
    ensures
        next.0 is Done,
        next.1 == (StackAction::Forward { body: request.body, metadata: admitted(request) }),
{
    let metadata = request.metadata.with_stack_info(
        request.stack_small_id,
        request.estimated_total_compute_units,
    ).with_request_type(request.request_type).with_endpoint_path(request.path);
    (StackState::Done, StackAction::Forward { body: request.body, metadata })
}

/// Whether what the transaction shows covers the request.
pub fn covers(request: &PricedRequest, stack_small_id: Option<u64>, compute_units: Option<u64>) -> (r:
    bool)
    ensures
        r == funded(*request, stack_small_id, compute_units),
{
    match (stack_small_id, compute_units) {
        (Some(id), Some(units)) => {
            request.stack_small_id >= 0 && id == request.stack_small_id as u64 && (
            request.estimated_total_compute_units < 0 || units
                >= request.estimated_total_compute_units as u64)
        },
        _ => false,
    }
}

/// One step of the stack stage: from where the stage stands and what the
/// host reports to where it stands next and what the host is to do.
pub fn verify_stack_permissions(state: StackState, event: StackEvent, tokenizers: &ModelTokenizers) -> (next:
    (StackState, StackAction))
    ensures
        stack_step(state, event, *tokenizers, next),
{
    proof {
        reveal_strlit("");
        assert(""@ =~= Seq::<char>::empty());
    }
    match state {
        StackState::Start => match event {
            StackEvent::Request(request) => match &request.signature {
                Header::Text(text) => {
                    let signature = text.clone();
                    (StackState::AwaitingCaller(request), StackAction::ResolveCaller { signature })
                },
                Header::Opaque => reject(
                    ErrorKind::InvalidHeader,
                    "Failed to convert signature to string",
                    request.path.as_str(),
                ),
                Header::Absent => reject(ErrorKind::MissingHeader, SIGNATURE, request.path.as_str()),
            },
            _ => reject(ErrorKind::InternalError, "No request to authorize", ""),
        },
        StackState::AwaitingCaller(request) => match event {
            StackEvent::CallerResolved { address } => {
                match read_stack(&request.stack_small_id, request.path.as_str()) {
                    Ok(stack_small_id) => (
                        StackState::AwaitingBody(
                            IdentifiedRequest {
                                stack_small_id,
                                address,
                                path: request.path,
                                tx_digest: request.tx_digest,
                                metadata: inherited(request.metadata),
                            },
                        ),
                        StackAction::ReadBody { limit: MAX_BODY_SIZE },
                    ),
                    Err(e) => (StackState::Done, StackAction::Reject(e)),
                }
            },
            StackEvent::CallerMalformed => reject(
                ErrorKind::InvalidHeader,
                "Failed to parse signature",
                request.path.as_str(),
            ),
            _ => reject(
                ErrorKind::InternalError,
                "The caller is being resolved",
                request.path.as_str(),
            ),
        },
        StackState::AwaitingBody(identified) => match event {
            StackEvent::Body(body) => ask_ledger(identified, body, tokenizers),
            _ => reject(
                ErrorKind::InternalError,
                "The body is being read",
                identified.path.as_str(),
            ),
        },
        StackState::AwaitingLedger(pending) => match event {
            StackEvent::LedgerAnswered { available } => {
                if available {
                    let_through(pending)
                } else {
                    match &pending.tx_digest {
                        Header::Text(text) => {
                            let tx_digest = text.clone();
                            let estimated_compute_units = pending.estimated_total_compute_units;
                            (
                                StackState::AwaitingChain(pending),
                                StackAction::QueryChain { tx_digest, estimated_compute_units },
                            )
                        },
                        Header::Opaque => reject(
                            ErrorKind::InvalidHeader,
                            "Tx digest cannot be converted to a string",
                            pending.path.as_str(),
                        ),
                        Header::Absent => reject(
                            ErrorKind::InvalidHeader,
                            "Stack not found, tx digest header expected but not found",
                            pending.path.as_str(),
                        ),
                    }
                }
            },
            StackEvent::LedgerFailed => reject(
                ErrorKind::AuthError,
                "Failed to get available stack with enough compute units",
                pending.path.as_str(),
            ),
            StackEvent::LedgerUnreachable => reject(
                ErrorKind::InternalError,
                "Failed to get available stacks",
                pending.path.as_str(),
            ),
            _ => reject(ErrorKind::InternalError, "The ledger is being asked", pending.path.as_str()),
        },
        StackState::AwaitingChain(pending) => match event {
            StackEvent::ChainAnswered { stack_small_id, compute_units } => {
                if covers(&pending, stack_small_id, compute_units) {
                    let_through(pending)
                } else if stack_small_id.is_some() && compute_units.is_some() {
                    reject(ErrorKind::AuthError, NO_AVAILABLE_STACK, pending.path.as_str())
                } else {
                    reject(ErrorKind::AuthError, NO_COMPUTE_UNITS, pending.path.as_str())
                }
            },
            StackEvent::DigestMalformed => reject(
                ErrorKind::InvalidHeader,
                "Tx digest is not a transaction digest",
                pending.path.as_str(),
            ),
            StackEvent::ChainUnreachable => reject(
                ErrorKind::InternalError,
                "Failed to receive compute units",
                pending.path.as_str(),
            ),
            _ => reject(
                ErrorKind::InternalError,
                "The blockchain is being asked",
                pending.path.as_str(),
            ),
        },
        StackState::Done => reject(ErrorKind::InternalError, "The request was answered", ""),
    }
}

} // verus!
