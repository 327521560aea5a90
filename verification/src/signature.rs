//! The signature stage: fixes the payload hash that the caller signed.
//!
//! The stage looks at the signature header and only then asks the host for
//! the body. It reads the body as JSON, writes it out again in canonical
//! form and hashes that text, so that the hash does not depend on how the
//! body was laid out in transport. It then asks the host to verify the
//! signature over the hash, and on a positive verdict forwards the body as
//! it came, with the hash recorded in the context.

use crate::error::{ErrorKind, ServiceError};
use crate::hashing::{blake2b_256, blake2b_hash};
use crate::headers::{Header, RequestBody, SIGNATURE};
use crate::json::{canonical_json, json_canonical_text};
use crate::metadata::{continues, inherited, RequestMetadata};
use vstd::prelude::*;
use vstd::utf8::encode_utf8;

verus! {

/// The largest body that the stage reads, in bytes.
pub const MAX_BODY_SIZE: usize = 1024 * 1024;

/// A request as it reaches the stage.
#[derive(Debug)]
pub struct SignedRequest {
    pub signature: Header,
    /// The context that earlier stages built, if any did.
    pub metadata: Option<RequestMetadata>,
    pub endpoint: String,
}

/// Where the stage stands.
#[derive(Debug)]
pub enum SignatureState {
    /// No request was seen yet.
    Start,
    /// The body was asked for.
    AwaitingBody { signature: String, metadata: RequestMetadata, endpoint: String },
    /// The verification was asked for.
    AwaitingVerdict {
        body: Vec<u8>,
        payload_hash: [u8; 32],
        metadata: RequestMetadata,
        endpoint: String,
    },
    /// The request was forwarded or rejected.
    Done,
}

/// What the host reports to the stage.
#[derive(Debug)]
pub enum SignatureEvent {
    /// A request arrived.
    Request(SignedRequest),
    /// The body was read, or could not be read.
    Body(RequestBody),
    /// The signature is one of the caller over the payload hash.
    Verified,
    /// The signature header does not decode to a scheme, a public key and
    /// a signature.
    Malformed,
    /// The signature does not verify.
    Refused,
}

/// What the stage asks of the host.
#[derive(Debug)]
pub enum SignatureAction {
    /// Read the body, up to `limit` bytes, and report it; a body that is
    /// longer or cannot be read is reported as unreadable.
    ReadBody { limit: usize },
    /// Verify the signature over the payload hash, with the scheme that the
    /// signature names.
    Verify { signature: String, payload_hash: [u8; 32] },
    /// Hand the request on, with this body and this context.
    Forward { body: Vec<u8>, metadata: RequestMetadata },
    /// Answer the client with this rejection.
    Reject(ServiceError),
}

impl SignatureAction {
    /// This action rejects the request with the given kind, for the given
    /// endpoint.
    pub open spec fn rejects(&self, kind: ErrorKind, endpoint: Seq<char>) -> bool {
        self matches SignatureAction::Reject(e) && e.kind() == kind && e.endpoint() == endpoint
    }
}

/// The hash that the caller signs: the BLAKE2b hash of 256 bits of the
/// UTF-8 bytes of the body's canonical JSON text. `None` where the body is
/// beyond the size limit or is no JSON.
pub open spec fn payload_hash_of(body: Seq<u8>) -> Option<Seq<u8>> {
    if body.len() > MAX_BODY_SIZE {
        None
    } else {
        match json_canonical_text(body) {
            Some(text) => Some(blake2b_256(encode_utf8(text))),
            None => None,
        }
    }
}

/// The hash that the caller of a request signs. `None` where the body
/// could not be read, is beyond the size limit or is no JSON.
pub open spec fn request_hash(body: RequestBody) -> Option<Seq<u8>> {
    match body {
        RequestBody::Read(bytes) => payload_hash_of(bytes@),
        RequestBody::Unreadable => None,
    }
}

/// The transitions of the stage.
///
/// A request without a signature header is rejected as lacking that
/// header, one of which the signature is no text as an invalid header;
/// the body of neither is asked for. Of any other request the body is asked
/// for, and a body without a payload hash is rejected as an invalid body.
/// None of these is handed on or reaches the verifier. For any other
/// request the stage asks for a verdict on its signature and payload hash.
/// On a positive
/// verdict the body is forwarded as it came, with the context that the
/// request came with, to which only the payload hash is added. A signature
/// that does not decode is an invalid header, one that does not verify an
/// authorization error, an event that does not fit the state an internal
/// error.
pub open spec fn signature_step(
    state: SignatureState,
    event: SignatureEvent,
    next: (SignatureState, SignatureAction),
) -> bool {
    match (state, event) {
        (SignatureState::Start, SignatureEvent::Request(request)) => match request.signature {
            Header::Absent => {
                &&& next.0 is Done
                &&& next.1 matches SignatureAction::Reject(e)
                &&& e.is(ErrorKind::MissingHeader, SIGNATURE@, request.endpoint@)
            },
            Header::Opaque => {
                &&& next.0 is Done
                &&& next.1.rejects(ErrorKind::InvalidHeader, request.endpoint@)
            },
            Header::Text(text) => {
                &&& next.0 matches SignatureState::AwaitingBody { signature, metadata, endpoint }
                &&& signature@ == text@
                &&& continues(request.metadata, metadata)
                &&& endpoint@ == request.endpoint@
                &&& next.1 == SignatureAction::ReadBody { limit: MAX_BODY_SIZE }
            },
        },
        (
            SignatureState::AwaitingBody { signature, metadata, endpoint },
            SignatureEvent::Body(body),
        ) => match request_hash(body) {
            None => {
                &&& next.0 is Done
                &&& next.1.rejects(ErrorKind::InvalidBody, endpoint@)
            },
            Some(hash) => {
                &&& next.0 matches SignatureState::AwaitingVerdict {
                    body: bytes,
                    payload_hash,
                    metadata: kept,
                    endpoint: path,
                }
                &&& next.1 matches SignatureAction::Verify { signature: asked, payload_hash: signed }
                &&& body == RequestBody::Read(bytes)
                &&& payload_hash@ == hash
                &&& kept == metadata
                &&& path == endpoint
                &&& asked == signature
                &&& signed == payload_hash
            },
        },
        (SignatureState::AwaitingBody { endpoint, .. }, _) => {
            &&& next.0 is Done
            &&& next.1.rejects(ErrorKind::InternalError, endpoint@)
        },
        (
            SignatureState::AwaitingVerdict { body, payload_hash, metadata, endpoint },
            SignatureEvent::Verified,
        ) => {
            &&& next.0 is Done
            &&& next.1 == SignatureAction::Forward {
                body,
                metadata: RequestMetadata { payload_hash, ..metadata },
            }
        },
        (SignatureState::AwaitingVerdict { endpoint, .. }, SignatureEvent::Malformed) => {
            &&& next.0 is Done
            &&& next.1.rejects(ErrorKind::InvalidHeader, endpoint@)
        },
        (SignatureState::AwaitingVerdict { endpoint, .. }, SignatureEvent::Refused) => {
            &&& next.0 is Done
            &&& next.1.rejects(ErrorKind::AuthError, endpoint@)
        },
        (SignatureState::AwaitingVerdict { endpoint, .. }, _) => {
            &&& next.0 is Done
            &&& next.1.rejects(ErrorKind::InternalError, endpoint@)
        },
        _ => {
            &&& next.0 is Done
            &&& next.1.rejects(ErrorKind::InternalError, Seq::empty())
        },
    }
}

/// A request without a signature header is rejected as lacking the header
/// `Signature`; the stage ends there, with nothing asked of the host and
/// nothing handed on.
pub proof fn lemma_missing_signature_is_rejected(
    request: SignedRequest,
    next: (SignatureState, SignatureAction),
)
    requires
        request.signature is Absent,
        signature_step(SignatureState::Start, SignatureEvent::Request(request), next),
    ensures
        next.0 is Done,
        next.1 matches SignatureAction::Reject(e) && e.is(
            ErrorKind::MissingHeader,
            SIGNATURE@,
            request.endpoint@,
        ),
{
}

/// A request is handed on only on a positive verdict on the signature and
/// the payload hash that the stage asked about, and then with its body as
/// it came.
pub proof fn lemma_forward_needs_verdict(
    state: SignatureState,
    event: SignatureEvent,
    next: (SignatureState, SignatureAction),
)
    requires
        signature_step(state, event, next),
        next.1 is Forward,
    ensures
        event is Verified,
        state matches SignatureState::AwaitingVerdict { body, payload_hash, .. }
            && next.1 matches SignatureAction::Forward { body: forwarded, metadata } && forwarded
            == body && metadata.payload_hash == payload_hash,
{
}

/// Two bodies with the same canonical JSON text, both within the size
/// limit, have the same payload hash: a signature over the one is a
/// signature over the other, however the white space of the two differs.
pub proof fn lemma_payload_hash_of_canonical_text(first: Seq<u8>, second: Seq<u8>)
    requires
        first.len() <= MAX_BODY_SIZE,
        second.len() <= MAX_BODY_SIZE,
        json_canonical_text(first) == json_canonical_text(second),
    ensures
        payload_hash_of(first) == payload_hash_of(second),
{
}

/// Two bodies of one request that have the same canonical JSON text and
/// are both within the size limit are both rejected with the same kind,
/// or the same verdict is asked for both: on the same signature and the
/// same payload hash.
pub proof fn lemma_verdict_of_canonical_text(
    state: SignatureState,
    first: Vec<u8>,
    second: Vec<u8>,
    after_first: (SignatureState, SignatureAction),
    after_second: (SignatureState, SignatureAction),
)
    requires
        state is AwaitingBody,
        first@.len() <= MAX_BODY_SIZE,
        second@.len() <= MAX_BODY_SIZE,
        json_canonical_text(first@) == json_canonical_text(second@),
        signature_step(state, SignatureEvent::Body(RequestBody::Read(first)), after_first),
        signature_step(state, SignatureEvent::Body(RequestBody::Read(second)), after_second),
    ensures
        match (after_first.1, after_second.1) {
            (SignatureAction::Reject(e1), SignatureAction::Reject(e2)) => e1.kind() == e2.kind(),
            (
                SignatureAction::Verify { signature: s1, payload_hash: h1 },
                SignatureAction::Verify { signature: s2, payload_hash: h2 },
            ) => s1 == s2 && h1 == h2,
            _ => false,
        },
{
    lemma_payload_hash_of_canonical_text(first@, second@);
    if let (
        SignatureAction::Verify { signature: s1, payload_hash: h1 },
        SignatureAction::Verify { signature: s2, payload_hash: h2 },
    ) = (after_first.1, after_second.1) {
        assert(h1@ =~= h2@);
    }
}

/// Two bodies as in `lemma_verdict_of_canonical_text`, on which the host
/// reports the same, end alike: both are handed on with the same payload
/// hash recorded, or both are rejected with the same kind.
pub proof fn lemma_outcome_of_canonical_text(
    state: SignatureState,
    first: Vec<u8>,
    second: Vec<u8>,
    after_first: (SignatureState, SignatureAction),
    after_second: (SignatureState, SignatureAction),
    report: SignatureEvent,
    end_of_first: (SignatureState, SignatureAction),
    end_of_second: (SignatureState, SignatureAction),
)
    requires
        state is AwaitingBody,
        first@.len() <= MAX_BODY_SIZE,
        second@.len() <= MAX_BODY_SIZE,
        json_canonical_text(first@) == json_canonical_text(second@),
        signature_step(state, SignatureEvent::Body(RequestBody::Read(first)), after_first),
        signature_step(state, SignatureEvent::Body(RequestBody::Read(second)), after_second),
        signature_step(after_first.0, report, end_of_first),
        signature_step(after_second.0, report, end_of_second),
    ensures
        match (end_of_first.1, end_of_second.1) {
            (SignatureAction::Reject(e1), SignatureAction::Reject(e2)) => e1.kind() == e2.kind(),
            (
                SignatureAction::Forward { metadata: m1, .. },
                SignatureAction::Forward { metadata: m2, .. },
            ) => m1.payload_hash == m2.payload_hash,
            _ => false,
        },
{
    lemma_verdict_of_canonical_text(state, first, second, after_first, after_second);
}

/// The body of a request is asked for only where its signature header
/// holds text: a request that is rejected for its header is rejected
/// before anything of its body is read.
pub proof fn lemma_body_is_read_after_the_header(
    state: SignatureState,
    event: SignatureEvent,
    next: (SignatureState, SignatureAction),
)
    requires
        signature_step(state, event, next),
        next.1 is ReadBody,
    ensures
        state is Start,
        event matches SignatureEvent::Request(request) && request.signature is Text,
        next.0 is AwaitingBody,
{
}

/// A rejection that ends the stage.
fn reject(kind: ErrorKind, message: &str, endpoint: &str) -> (next: (SignatureState, SignatureAction))
    ensures
        next.0 is Done,
        next.1 matches SignatureAction::Reject(e) && e.is(kind, message@, endpoint@),
{
    (SignatureState::Done, SignatureAction::Reject(ServiceError::new(kind, message, endpoint)))
}

/// Computes the hash that the caller signs.
pub fn payload_hash(body: &Vec<u8>) -> (r: Option<[u8; 32]>)
    ensures
        match r {
            Some(hash) => payload_hash_of(body@) == Some(hash@),
            None => payload_hash_of(body@) is None,
        },
{
    if body.len() > MAX_BODY_SIZE {
        return None;
    }
    match canonical_json(body.as_slice()) {
        Some(text) => Some(blake2b_hash(text.as_str().as_bytes())),
        None => None,
    }
}

/// Looks at the signature header of a request and asks for its body.
fn begin(request: SignedRequest) -> (next: (SignatureState, SignatureAction))
    ensures
        signature_step(SignatureState::Start, SignatureEvent::Request(request), next),
{
    let endpoint = request.endpoint;
    let signature = match request.signature {
        Header::Text(text) => text,
        Header::Opaque => {
            return reject(
                ErrorKind::InvalidHeader,
                "Failed to convert signature to string",
                endpoint.as_str(),
            );
        },
        Header::Absent => {
            return reject(ErrorKind::MissingHeader, SIGNATURE, endpoint.as_str());
        },
    };
    (
        SignatureState::AwaitingBody { signature, metadata: inherited(request.metadata), endpoint },
        SignatureAction::ReadBody { limit: MAX_BODY_SIZE },
    )
}

/// Hashes the body of a request and asks for the verdict on its
/// signature.
fn hash_body(signature: String, metadata: RequestMetadata, endpoint: String, body: RequestBody) -> (next:
    (SignatureState, SignatureAction))
    ensures
        signature_step(
            SignatureState::AwaitingBody { signature, metadata, endpoint },
            SignatureEvent::Body(body),
            next,
        ),
{
    let body = match body {
        RequestBody::Read(body) => body,
        RequestBody::Unreadable => {
            return reject(ErrorKind::InvalidBody, "Failed to read the body", endpoint.as_str());
        },
    };
    let hash = match payload_hash(&body) {
        Some(hash) => hash,
        None => {
            return reject(
                ErrorKind::InvalidBody,
                "Body is too large or is not valid JSON",
                endpoint.as_str(),
            );
        },
    };
    (
        SignatureState::AwaitingVerdict { body, payload_hash: hash, metadata, endpoint },
        SignatureAction::Verify { signature, payload_hash: hash },
    )
}

/// One step of the signature stage: from where the stage stands and what
/// the host reports to where it stands next and what the host is to do.
pub fn signature_verification_middleware(state: SignatureState, event: SignatureEvent) -> (next: (
    SignatureState,
    SignatureAction,
))
    ensures
        signature_step(state, event, next),
{
    proof {
        reveal_strlit("");
        assert(""@ =~= Seq::<char>::empty());
    }
    match state {
        SignatureState::Start => match event {
            SignatureEvent::Request(request) => begin(request),
            _ => reject(ErrorKind::InternalError, "No request to verify", ""),
        },
        SignatureState::AwaitingBody { signature, metadata, endpoint } => match event {
            SignatureEvent::Body(body) => hash_body(signature, metadata, endpoint, body),
            _ => reject(ErrorKind::InternalError, "The body is being read", endpoint.as_str()),
        },
        SignatureState::AwaitingVerdict { body, payload_hash, metadata, endpoint } => match event {
            SignatureEvent::Verified => (
                SignatureState::Done,
                SignatureAction::Forward { body, metadata: metadata.with_payload_hash(payload_hash) },
            ),
            SignatureEvent::Malformed => reject(
                ErrorKind::InvalidHeader,
                "Failed to parse signature",
                endpoint.as_str(),
            ),
            SignatureEvent::Refused => reject(
                ErrorKind::AuthError,
                "Failed to verify signature",
                endpoint.as_str(),
            ),
            _ => reject(
                ErrorKind::InternalError,
                "A verification is under way",
                endpoint.as_str(),
            ),
        },
        SignatureState::Done => reject(ErrorKind::InternalError, "The request was answered", ""),
    }
}

} // verus!
