//! The headers that the admission stages read.

use base64::engine::general_purpose::STANDARD;
use base64::Engine;
use vstd::prelude::*;

verus! {

/// The header that carries the caller's signature.
pub const SIGNATURE: &'static str = "Signature";

/// The header that names the prepaid stack.
pub const STACK_SMALL_ID: &'static str = "Stack-Small-Id";

/// The header that names the transaction that funded the stack.
pub const TX_DIGEST: &'static str = "Tx-Digest";

/// The header that carries the salt of the key derivation.
pub const SALT: &'static str = "Salt";

/// The header that carries the encryption nonce.
pub const NONCE: &'static str = "Nonce";

/// The header that carries the X25519 public key of the client's proxy.
pub const PROXY_X25519_PUBLIC_KEY: &'static str = "Proxy-X25519-Public-Key";

/// The header that carries the X25519 public key of the node.
pub const NODE_X25519_PUBLIC_KEY: &'static str = "Node-X25519-Public-Key";

/// What a request holds under one header name.
#[derive(Debug)]
pub enum Header {
    /// The request has no such header.
    Absent,
    /// The header is there, but its value is no visible text.
    Opaque,
    /// The value of the header.
    Text(String),
}

/// The body of a request as the host read it.
#[derive(Debug)]
pub enum RequestBody {
    /// The bytes of the body.
    Read(Vec<u8>),
    /// The body could not be read: it is longer than the host reads, or
    /// the transport failed.
    Unreadable,
}

impl RequestBody {
    /// The bytes of a body that was read.
    pub open spec fn bytes(self) -> Option<Seq<u8>> {
        match self {
            RequestBody::Read(bytes) => Some(bytes@),
            RequestBody::Unreadable => None,
        }
    }
}

/// The bytes that a text encodes in base64, standard alphabet with
/// padding, as the base64 crate decodes it; `None` where it rejects the
/// text.
pub uninterp spec fn base64_decoded(text: Seq<char>) -> Option<Seq<u8>>;

/// Calls `Engine::decode` of `base64::engine::general_purpose::STANDARD`.
/// Whether the text decodes, and to which bytes, is a function of the text
/// alone: the contract gives both that name and claims no more.
#[verifier::external_body]
pub(crate) fn base64_decode(text: &str) -> (r: Option<Vec<u8>>)
    ensures
        match r {
            Some(bytes) => base64_decoded(text@) == Some(bytes@),
            None => base64_decoded(text@) is None,
        },
{
    match STANDARD.decode(text) {
        Ok(bytes) => Some(bytes),
        Err(_) => None,
    }
}

/// The bytes of a header that holds `size` bytes in base64. `None` where
/// the header is absent, no text or no base64, or holds another number of
/// bytes.
pub open spec fn header_bytes(header: Header, size: nat) -> Option<Seq<u8>> {
    match header {
        Header::Text(text) => match base64_decoded(text@) {
            Some(bytes) => if bytes.len() == size {
                Some(bytes)
            } else {
                None
            },
            None => None,
        },
        _ => None,
    }
}

/// Copies `bytes` into an array of `N` bytes, where there are `N` of them.
pub fn to_array<const N: usize>(bytes: &Vec<u8>) -> (r: Option<[u8; N]>)
    ensures
        match r {
            Some(array) => array@ == bytes@,
            None => bytes@.len() != N,
        },
{
    if bytes.len() != N {
        return None;
    }
    let mut array = [0u8; N];
    let mut i: usize = 0;
    while i < N
        invariant
            0 <= i <= N,
            bytes@.len() == N,
            forall|j: int| 0 <= j < i ==> array@[j] == bytes@[j],
        decreases N - i,
    {
        array[i] = bytes[i];
        i = i + 1;
    }
    assert(array@ =~= bytes@);
    Some(array)
}

/// Reads a header that holds `N` bytes in base64.
pub fn decode_header<const N: usize>(header: &Header) -> (r: Option<[u8; N]>)
    ensures
        match r {
            Some(array) => header_bytes(*header, N as nat) == Some(array@),
            None => header_bytes(*header, N as nat) is None,
        },
{
    match header {
        Header::Text(text) => match base64_decode(text.as_str()) {
            Some(bytes) => to_array::<N>(&bytes),
            None => None,
        },
        _ => None,
    }
}

} // verus!
