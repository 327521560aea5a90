//! The confidential stage: opens the envelope of an encrypted request.
//!
//! The stage reads the four encryption headers, asks the host for the body
//! and reads the ciphertext from it, asks the host to have the ciphertext
//! decrypted and, once the plaintext is there, forwards it in place of the
//! body, with the proxy's public key and the salt recorded for the
//! encryption of the response.

use crate::error::{ErrorKind, ServiceError};
use crate::headers::{base64_decoded, decode_header, header_bytes, Header, RequestBody};
use crate::json::{byte_array_field, json_document, parse_json, parse_json_byte_array};
use crate::metadata::{continues, inherited, EncryptionMetadata, RequestMetadata};
use vstd::prelude::*;

verus! {

/// The member of the body that holds the ciphertext.
pub const CIPHERTEXT: &'static str = "ciphertext";

/// The largest body that the stage reads, in bytes.
pub const MAX_ENCRYPTED_BODY_SIZE: usize = 1024 * 1024 * 1024;

/// A request as it reaches the stage.
#[derive(Debug)]
pub struct ConfidentialRequest {
    pub salt: Header,
    pub nonce: Header,
    pub proxy_x25519_public_key: Header,
    pub node_x25519_public_key: Header,
    /// The context that earlier stages built, if any did.
    pub metadata: Option<RequestMetadata>,
    pub endpoint: String,
}

/// What the headers of a request hold.
#[derive(Debug)]
pub struct Envelope {
    pub salt: [u8; 16],
    pub nonce: [u8; 12],
    pub proxy_x25519_public_key: [u8; 32],
    pub node_x25519_public_key: [u8; 32],
    pub metadata: RequestMetadata,
    pub endpoint: String,
}

/// What the confidential-compute actor needs to decrypt a request.
#[derive(Debug)]
pub struct DecryptionRequest {
    pub ciphertext: Vec<u8>,
    pub nonce: [u8; 12],
    pub salt: [u8; 16],
    pub proxy_x25519_public_key: [u8; 32],
    pub node_x25519_public_key: [u8; 32],
}

/// Where the stage stands.
#[derive(Debug)]
pub enum ConfidentialState {
    /// No request was seen yet.
    Start,
    /// The body was asked for.
    AwaitingBody(Envelope),
    /// The decryption was asked for.
    AwaitingPlaintext {
        proxy_x25519_public_key: [u8; 32],
        salt: [u8; 16],
        metadata: RequestMetadata,
        endpoint: String,
    },
    /// The request was forwarded or rejected.
    Done,
}

/// What the host reports to the stage.
#[derive(Debug)]
pub enum ConfidentialEvent {
    /// A request arrived.
    Request(ConfidentialRequest),
    /// The body was read, or could not be read.
    Body(RequestBody),
    /// The actor decrypted the ciphertext.
    Decrypted { plaintext: Vec<u8> },
    /// The actor answered with a failure.
    DecryptionFailed { reason: String },
    /// The actor could not be asked, or its answer never arrived.
    ActorUnreachable,
}

/// What the stage asks of the host.
#[derive(Debug)]
pub enum ConfidentialAction {
    /// Read the body, up to `limit` bytes, and report it; a body that is
    /// longer or cannot be read is reported as unreadable.
    ReadBody { limit: usize },
    /// Send the request to the confidential-compute actor.
    Decrypt(DecryptionRequest),
    /// Hand the request on, with this body and this context.
    Forward { body: Vec<u8>, metadata: RequestMetadata },
    /// Answer the client with this rejection.
    Reject(ServiceError),
}

impl ConfidentialAction {
    /// This action rejects the request with the given kind, for the given
    /// endpoint.
    pub open spec fn rejects(&self, kind: ErrorKind, endpoint: Seq<char>) -> bool {
        self matches ConfidentialAction::Reject(e) && e.kind() == kind && e.endpoint() == endpoint
    }
}

/// The four encryption headers hold 16, 12, 32 and 32 bytes in base64.
pub open spec fn headers_valid(request: ConfidentialRequest) -> bool {
    &&& header_bytes(request.salt, 16) is Some
    &&& header_bytes(request.nonce, 12) is Some
    &&& header_bytes(request.proxy_x25519_public_key, 32) is Some
    &&& header_bytes(request.node_x25519_public_key, 32) is Some
}

/// The ciphertext of a body: the body is within the size limit and is a
/// JSON document of which the member `ciphertext` is an array of bytes.
pub open spec fn ciphertext_of(body: Seq<u8>) -> Option<Seq<u8>> {
    if body.len() > MAX_ENCRYPTED_BODY_SIZE {
        None
    } else {
        match json_document(body) {
            Some(document) => byte_array_field(document, CIPHERTEXT@),
            None => None,
        }
    }
}

/// The ciphertext of the body of a request; none where the body could not
/// be read.
pub open spec fn request_ciphertext(body: RequestBody) -> Option<Seq<u8>> {
    match body {
        RequestBody::Read(bytes) => ciphertext_of(bytes@),
        RequestBody::Unreadable => None,
    }
}

/// The transitions of the stage.
///
/// A request with a missing or malformed encryption header is rejected as
/// an invalid header, and its body is not asked for. Of a request with
/// valid headers the body is asked for, and one that holds no ciphertext is
/// rejected as an invalid body. Neither reaches the actor. Any other
/// request is sent to the actor with what its headers and body hold. The
/// plaintext that comes back is forwarded with the context that the request
/// came with, to which only the encryption metadata is added. A failure of
/// the actor, a failure to reach it and an event that does not fit the
/// state are internal errors.
pub open spec fn confidential_step(
    state: ConfidentialState,
    event: ConfidentialEvent,
    next: (ConfidentialState, ConfidentialAction),
) -> bool {
    match (state, event) {
        (ConfidentialState::Start, ConfidentialEvent::Request(request)) => {
            if !headers_valid(request) {
                &&& next.0 is Done
                &&& next.1.rejects(ErrorKind::InvalidHeader, request.endpoint@)
            } else {
                &&& next.0 matches ConfidentialState::AwaitingBody(envelope)
                &&& Some(envelope.salt@) == header_bytes(request.salt, 16)
                &&& Some(envelope.nonce@) == header_bytes(request.nonce, 12)
                &&& Some(envelope.proxy_x25519_public_key@) == header_bytes(
                    request.proxy_x25519_public_key,
                    32,
                )
                &&& Some(envelope.node_x25519_public_key@) == header_bytes(
                    request.node_x25519_public_key,
                    32,
                )
                &&& continues(request.metadata, envelope.metadata)
                &&& envelope.endpoint@ == request.endpoint@
                &&& next.1 == ConfidentialAction::ReadBody { limit: MAX_ENCRYPTED_BODY_SIZE }
            }
        },
        (ConfidentialState::AwaitingBody(envelope), ConfidentialEvent::Body(body)) => {
            match request_ciphertext(body) {
                None => {
                    &&& next.0 is Done
                    &&& next.1.rejects(ErrorKind::InvalidBody, envelope.endpoint@)
                },
                Some(ciphertext) => {
                    &&& next.0 == ConfidentialState::AwaitingPlaintext {
                        proxy_x25519_public_key: envelope.proxy_x25519_public_key,
                        salt: envelope.salt,
                        metadata: envelope.metadata,
                        endpoint: envelope.endpoint,
                    }
                    &&& next.1 matches ConfidentialAction::Decrypt(decryption)
                    &&& decryption.ciphertext@ == ciphertext
                    &&& decryption.nonce == envelope.nonce
                    &&& decryption.salt == envelope.salt
                    &&& decryption.proxy_x25519_public_key == envelope.proxy_x25519_public_key
                    &&& decryption.node_x25519_public_key == envelope.node_x25519_public_key
                },
            }
        },
        (ConfidentialState::AwaitingBody(envelope), _) => {
            &&& next.0 is Done
            &&& next.1.rejects(ErrorKind::InternalError, envelope.endpoint@)
        },
        (
            ConfidentialState::AwaitingPlaintext { proxy_x25519_public_key, salt, metadata, endpoint },
            ConfidentialEvent::Decrypted { plaintext },
        ) => {
            &&& next.0 is Done
            &&& next.1 == ConfidentialAction::Forward {
                body: plaintext,
                metadata: RequestMetadata {
                    client_encryption_metadata: Some(
                        EncryptionMetadata { proxy_x25519_public_key, salt },
                    ),
                    ..metadata
                },
            }
        },
        (
            ConfidentialState::AwaitingPlaintext { endpoint, .. },
            ConfidentialEvent::DecryptionFailed { reason },
        ) => {
            &&& next.0 is Done
            &&& next.1 matches ConfidentialAction::Reject(e)
            &&& e.is(ErrorKind::InternalError, reason@, endpoint@)
        },
        (
            ConfidentialState::AwaitingPlaintext { endpoint, .. },
            ConfidentialEvent::ActorUnreachable,
        ) => {
            &&& next.0 is Done
            &&& next.1.rejects(ErrorKind::InternalError, endpoint@)
        },
        (ConfidentialState::AwaitingPlaintext { endpoint, .. }, _) => {
            &&& next.0 is Done
            &&& next.1.rejects(ErrorKind::InternalError, endpoint@)
        },
        _ => {
            &&& next.0 is Done
            &&& next.1.rejects(ErrorKind::InternalError, Seq::empty())
        },
    }
}

/// `header` holds base64 that decodes to another number of bytes than
/// `size`.
pub open spec fn has_wrong_length(header: Header, size: nat) -> bool {
    header matches Header::Text(text) && base64_decoded(text@) matches Some(bytes) && bytes.len()
        != size
}

/// A request of which an encryption header decodes to the wrong number of
/// bytes is rejected as an invalid header, and the stage ends there: the
/// actor is not asked to decrypt anything.
pub proof fn lemma_wrong_length_is_rejected(
    request: ConfidentialRequest,
    next: (ConfidentialState, ConfidentialAction),
)
    requires
        has_wrong_length(request.salt, 16) || has_wrong_length(request.nonce, 12)
            || has_wrong_length(request.proxy_x25519_public_key, 32) || has_wrong_length(
            request.node_x25519_public_key,
            32,
        ),
        confidential_step(ConfidentialState::Start, ConfidentialEvent::Request(request), next),
    ensures
        next.0 is Done,
        next.1.rejects(ErrorKind::InvalidHeader, request.endpoint@),
        !(next.1 is Decrypt),
        !(next.1 is ReadBody),
{
}

/// A request is handed on only with the plaintext that the actor
/// returned for it, and with the proxy's public key and the salt of its
/// headers recorded.
pub proof fn lemma_forward_needs_plaintext(
    state: ConfidentialState,
    event: ConfidentialEvent,
    next: (ConfidentialState, ConfidentialAction),
)
    requires
        confidential_step(state, event, next),
        next.1 is Forward,
    ensures
        state matches ConfidentialState::AwaitingPlaintext { proxy_x25519_public_key, salt, .. }
            && event matches ConfidentialEvent::Decrypted { plaintext }
            && next.1 matches ConfidentialAction::Forward { body, metadata } && body == plaintext
            && metadata.client_encryption_metadata == Some(
            EncryptionMetadata { proxy_x25519_public_key, salt },
        ),
{
}

/// A rejection that ends the stage.
fn reject(kind: ErrorKind, message: &str, endpoint: &str) -> (next: (
    ConfidentialState,
    ConfidentialAction,
))
    ensures
        next.0 is Done,
        next.1.rejects(kind, endpoint@),
        next.1 matches ConfidentialAction::Reject(e) && e.detail() == message@,
{
    (ConfidentialState::Done, ConfidentialAction::Reject(ServiceError::new(kind, message, endpoint)))
}

/// Reads the ciphertext of a body.
pub fn read_ciphertext(body: &Vec<u8>) -> (r: Option<Vec<u8>>)
    ensures
        match r {
            Some(ciphertext) => ciphertext_of(body@) == Some(ciphertext@),
            None => ciphertext_of(body@) is None,
        },
{
    if body.len() > MAX_ENCRYPTED_BODY_SIZE {
        return None;
    }
    match parse_json(body.as_slice()) {
        Some(document) => parse_json_byte_array(&document, CIPHERTEXT),
        None => None,
    }
}

/// Reads the headers of a request and asks for its body.
fn open_envelope(request: ConfidentialRequest) -> (next: (ConfidentialState, ConfidentialAction))
    ensures
        confidential_step(ConfidentialState::Start, ConfidentialEvent::Request(request), next),
{
    let endpoint = request.endpoint;
    let salt = match decode_header::<16>(&request.salt) {
        Some(salt) => salt,
        None => {
            return reject(
                ErrorKind::InvalidHeader,
                "Salt header is missing or does not hold 16 bytes in base64",
                endpoint.as_str(),
            );
        },
    };
    let nonce = match decode_header::<12>(&request.nonce) {
        Some(nonce) => nonce,
        None => {
            return reject(
                ErrorKind::InvalidHeader,
                "Nonce header is missing or does not hold 12 bytes in base64",
                endpoint.as_str(),
            );
        },
    };
    let proxy_x25519_public_key = match decode_header::<32>(&request.proxy_x25519_public_key) {
        Some(key) => key,
        None => {
            return reject(
                ErrorKind::InvalidHeader,
                "Proxy X25519 public key header is missing or does not hold 32 bytes in base64",
                endpoint.as_str(),
            );
        },
    };
    let node_x25519_public_key = match decode_header::<32>(&request.node_x25519_public_key) {
        Some(key) => key,
        None => {
            return reject(
                ErrorKind::InvalidHeader,
                "Node X25519 public key header is missing or does not hold 32 bytes in base64",
                endpoint.as_str(),
            );
        },
    };
    let metadata = inherited(request.metadata);
    (
        ConfidentialState::AwaitingBody(
            Envelope {
                salt,
                nonce,
                proxy_x25519_public_key,
                node_x25519_public_key,
                metadata,
                endpoint,
            },
        ),
        ConfidentialAction::ReadBody { limit: MAX_ENCRYPTED_BODY_SIZE },
    )
}

/// Reads the ciphertext of the body and asks for its decryption.
fn ask_for_plaintext(envelope: Envelope, body: RequestBody) -> (next: (
    ConfidentialState,
    ConfidentialAction,
))
    ensures
        confidential_step(
            ConfidentialState::AwaitingBody(envelope),
            ConfidentialEvent::Body(body),
            next,
        ),
{
    let ciphertext = match &body {
        RequestBody::Read(body) => read_ciphertext(body),
        RequestBody::Unreadable => None,
    };
    let ciphertext = match ciphertext {
        Some(ciphertext) => ciphertext,
        None => {
            return reject(
                ErrorKind::InvalidBody,
                "Body could not be read or holds no ciphertext",
                envelope.endpoint.as_str(),
            );
        },
    };
    (
        ConfidentialState::AwaitingPlaintext {
            proxy_x25519_public_key: envelope.proxy_x25519_public_key,
            salt: envelope.salt,
            metadata: envelope.metadata,
            endpoint: envelope.endpoint,
        },
        ConfidentialAction::Decrypt(
            DecryptionRequest {
                ciphertext,
                nonce: envelope.nonce,
                salt: envelope.salt,
                proxy_x25519_public_key: envelope.proxy_x25519_public_key,
                node_x25519_public_key: envelope.node_x25519_public_key,
            },
        ),
    )
}

/// One step of the confidential stage: from where the stage stands and
/// what the host reports to where it stands next and what the host is to
/// do.
pub fn confidential_compute_middleware(state: ConfidentialState, event: ConfidentialEvent) -> (next:
    (ConfidentialState, ConfidentialAction))
    ensures
        confidential_step(state, event, next),
{
    proof {
        reveal_strlit("");
        assert(""@ =~= Seq::<char>::empty());
    }
    match state {
        ConfidentialState::Start => match event {
            ConfidentialEvent::Request(request) => open_envelope(request),
            _ => reject(ErrorKind::InternalError, "No request to decrypt", ""),
        },
        ConfidentialState::AwaitingBody(envelope) => match event {
            ConfidentialEvent::Body(body) => ask_for_plaintext(envelope, body),
            _ => reject(
                ErrorKind::InternalError,
                "The body is being read",
                envelope.endpoint.as_str(),
            ),
        },
        ConfidentialState::AwaitingPlaintext { proxy_x25519_public_key, salt, metadata, endpoint } => {
            match event {
                ConfidentialEvent::Decrypted { plaintext } => (
                    ConfidentialState::Done,
                    ConfidentialAction::Forward {
                        body: plaintext,
                        metadata: metadata.with_client_encryption_metadata(
                            proxy_x25519_public_key,
                            salt,
                        ),
                    },
                ),
                ConfidentialEvent::DecryptionFailed { reason } => reject(
                    ErrorKind::InternalError,
                    reason.as_str(),
                    endpoint.as_str(),
                ),
                ConfidentialEvent::ActorUnreachable => reject(
                    ErrorKind::InternalError,
                    "Failed to reach the confidential compute service",
                    endpoint.as_str(),
                ),
                _ => reject(
                    ErrorKind::InternalError,
                    "A decryption is under way",
                    endpoint.as_str(),
                ),
            }
        },
        ConfidentialState::Done => reject(ErrorKind::InternalError, "The request was answered", ""),
    }
}

} // verus!
