//! The context that the admission stages build up for one request.

use crate::text::same_text;
use vstd::prelude::*;

verus! {

/// Size in bytes of the payload hash.
pub const PAYLOAD_HASH_SIZE: usize = 32;

/// Size in bytes of an X25519 public key.
pub const DH_PUBLIC_KEY_SIZE: usize = 32;

/// Size in bytes of the key-derivation salt.
pub const SALT_SIZE: usize = 16;

/// Size in bytes of the encryption nonce.
pub const NONCE_SIZE: usize = 12;

/// The kind of a request, derived from the route it was sent to.
#[derive(Clone, Copy, Debug, PartialEq, Eq, Structural)]
pub enum RequestType {
    ChatCompletions,
    Embeddings,
    ImageGenerations,
    NonInference,
}

impl Default for RequestType {
    fn default() -> (r: Self)
        ensures
            r == RequestType::NonInference,
    {
        RequestType::NonInference
    }
}

/// The route of chat completions.
pub const CHAT_COMPLETIONS_PATH: &'static str = "/v1/chat/completions";

/// The route of embeddings.
pub const EMBEDDINGS_PATH: &'static str = "/v1/embeddings";

/// The route of image generations.
pub const IMAGE_GENERATIONS_PATH: &'static str = "/v1/images/generations";

impl RequestType {
    /// The kind of request that a route path stands for: one of the three
    /// inference routes, or no inference.
    pub open spec fn of_path(path: Seq<char>) -> RequestType {
        if path == CHAT_COMPLETIONS_PATH@ {
            RequestType::ChatCompletions
        } else if path == EMBEDDINGS_PATH@ {
            RequestType::Embeddings
        } else if path == IMAGE_GENERATIONS_PATH@ {
            RequestType::ImageGenerations
        } else {
            RequestType::NonInference
        }
    }

    /// Derives the kind of request from the route path.
    pub fn from_path(path: &str) -> (r: RequestType)
        ensures
            r == RequestType::of_path(path@),
    {
        if same_text(path, CHAT_COMPLETIONS_PATH) {
            RequestType::ChatCompletions
        } else if same_text(path, EMBEDDINGS_PATH) {
            RequestType::Embeddings
        } else if same_text(path, IMAGE_GENERATIONS_PATH) {
            RequestType::ImageGenerations
        } else {
            RequestType::NonInference
        }
    }
}

/// What is needed to encrypt the response of a confidential request.
#[derive(Clone, Copy, Debug)]
pub struct EncryptionMetadata {
    /// The X25519 public key of the client's proxy.
    pub proxy_x25519_public_key: [u8; 32],
    /// The salt of the key derivation.
    pub salt: [u8; 16],
}

/// The context of one request. Each stage adds the fields it is
/// responsible for and leaves the others as it found them.
#[derive(Clone, Debug)]
pub struct RequestMetadata {
    /// The prepaid stack that the request claims.
    pub stack_small_id: i64,
    /// The estimated cost of the request in compute units.
    pub estimated_total_compute_units: i64,
    /// The hash of the canonical body.
    pub payload_hash: [u8; 32],
    /// The kind of request.
    pub request_type: RequestType,
    /// Present for confidential requests only.
    pub client_encryption_metadata: Option<EncryptionMetadata>,
    /// The route path.
    pub endpoint_path: String,
}

impl Default for RequestMetadata {
    /// The context of a request that no stage has seen yet.
    fn default() -> (m: Self)
        ensures
            m.is_fresh(),
    {
        broadcast use vstd::array::group_array_axioms;

        RequestMetadata {
            stack_small_id: 0,
            estimated_total_compute_units: 0,
            payload_hash: [0u8; 32],
            request_type: RequestType::NonInference,
            client_encryption_metadata: None,
            endpoint_path: String::new(),
        }
    }
}

impl RequestMetadata {
    /// No stage has written to this context.
    pub open spec fn is_fresh(&self) -> bool {
        &&& self.stack_small_id == 0
        &&& self.estimated_total_compute_units == 0
        &&& forall|i: int| 0 <= i < 32 ==> self.payload_hash[i] == 0
        &&& self.request_type == RequestType::NonInference
        &&& self.client_encryption_metadata is None
        &&& self.endpoint_path@ == Seq::<char>::empty()
    }

    /// Records the stack and the estimated cost.
    pub fn with_stack_info(self, stack_small_id: i64, estimated_total_compute_units: i64) -> (m:
        Self)
        ensures
            m == (RequestMetadata { stack_small_id, estimated_total_compute_units, ..self }),
    {
        let mut m = self;
        m.stack_small_id = stack_small_id;
        m.estimated_total_compute_units = estimated_total_compute_units;
        m
    }

    /// Records the payload hash.
    pub fn with_payload_hash(self, payload_hash: [u8; 32]) -> (m: Self)
        ensures
            m == (RequestMetadata { payload_hash, ..self }),
    {
        let mut m = self;
        m.payload_hash = payload_hash;
        m
    }

    /// Records the kind of request.
    pub fn with_request_type(self, request_type: RequestType) -> (m: Self)
        ensures
            m == (RequestMetadata { request_type, ..self }),
    {
        let mut m = self;
        m.request_type = request_type;
        m
    }

    /// Records the proxy's public key and the salt of a confidential request.
    pub fn with_client_encryption_metadata(
        self,
        proxy_x25519_public_key: [u8; 32],
        salt: [u8; 16],
    ) -> (m: Self)
        ensures
            m == (RequestMetadata {
                client_encryption_metadata: Some(
                    EncryptionMetadata { proxy_x25519_public_key, salt },
                ),
                ..self
            }),
    {
        let mut m = self;
        m.client_encryption_metadata = Some(EncryptionMetadata { proxy_x25519_public_key, salt });
        m
    }

    /// Records the route path.
    pub fn with_endpoint_path(self, endpoint_path: String) -> (m: Self)
        ensures
            m == (RequestMetadata { endpoint_path, ..self }),
    {
        let mut m = self;
        m.endpoint_path = endpoint_path;
        m
    }
}

/// The context that a stage goes on from: the one that earlier stages
/// built, or a fresh one.
pub open spec fn continues(earlier: Option<RequestMetadata>, metadata: RequestMetadata) -> bool {
    match earlier {
        Some(earlier) => metadata == earlier,
        None => metadata.is_fresh(),
    }
}

/// The context that a stage goes on from.
pub fn inherited(earlier: Option<RequestMetadata>) -> (metadata: RequestMetadata)
    ensures
        continues(earlier, metadata),
{
    match earlier {
        Some(earlier) => earlier,
        None => RequestMetadata::default(),
    }
}

} // verus!
