//! Request admission for a prepaid inference node.
//!
//! Every inbound request passes a chain of stages before it reaches an
//! inference backend. The signature stage fixes the payload hash that the
//! caller signed; the stack stage prices the request and authorizes the
//! price against a prepaid stack, known to the local ledger or shown by
//! the blockchain; the confidential stage opens an encrypted envelope.
//!
//! Each stage is a transition function from a state and an event to the
//! next state and an action. The host performs the action (a question to
//! an actor, a request handed on, an answer to the client) and reports
//! what came of it as the next event, so a stage never waits and never
//! holds anything that is shared. The transitions are stated in full by
//! `signature::signature_step`, `authorizer::stack_step` and
//! `confidential::confidential_step`.
//!
//! The stages lean on four outside crates: serde_json reads and writes
//! JSON, blake2 hashes, base64 decodes headers and tokenizers counts
//! tokens. What is believed of them is stated where they are called, in
//! `json`, `hashing`, `headers` and `tokenizer`. A tokenizer that is set so
//! that counting would panic is refused when the set of tokenizers is
//! made; `tokenizer` and `charsmap` decide that.

pub mod authorizer;
pub mod charsmap;
pub mod confidential;
pub mod error;
pub mod estimator;
pub mod hashing;
pub mod headers;
pub mod json;
pub mod metadata;
pub mod pipeline;
pub mod signature;
pub mod tasks;
pub mod text;
pub mod tokenizer;
