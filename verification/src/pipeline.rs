//! What holds of the three stages together.

use crate::authorizer::{admitted, stack_step, StackAction, StackEvent, StackState};
use crate::confidential::{
    confidential_step, ConfidentialAction, ConfidentialEvent, ConfidentialState,
};
use crate::metadata::RequestMetadata;
use crate::signature::{signature_step, SignatureAction, SignatureEvent, SignatureState};
use crate::tokenizer::ModelTokenizers;
use vstd::prelude::*;

verus! {

/// `after` is `before` but for the payload hash.
pub open spec fn adds_payload_hash(before: RequestMetadata, after: RequestMetadata) -> bool {
    after == (RequestMetadata { payload_hash: after.payload_hash, ..before })
}

/// `after` is `before` but for the stack, the cost, the kind of request
/// and the path.
pub open spec fn adds_stack_info(before: RequestMetadata, after: RequestMetadata) -> bool {
    after == (RequestMetadata {
        stack_small_id: after.stack_small_id,
        estimated_total_compute_units: after.estimated_total_compute_units,
        request_type: after.request_type,
        endpoint_path: after.endpoint_path,
        ..before
    })
}

/// `after` is `before` but for the encryption metadata.
pub open spec fn adds_encryption(before: RequestMetadata, after: RequestMetadata) -> bool {
    after == (RequestMetadata {
        client_encryption_metadata: after.client_encryption_metadata,
        ..before
    })
}

/// A stage hands a request on only from the state in which it waits for
/// its last answer, and the context that it hands on is the one it took
/// over with its own fields written and no others: the signature stage
/// writes the payload hash, the stack stage the stack, the cost, the kind
/// of request and the path, the confidential stage the encryption
/// metadata. So what an earlier stage recorded is there after a later one,
/// in whatever order the three run.
pub proof fn lemma_each_stage_writes_its_own_fields(
    signature_state: SignatureState,
    signature_event: SignatureEvent,
    after_signature: (SignatureState, SignatureAction),
    stack_state: StackState,
    stack_event: StackEvent,
    tokenizers: ModelTokenizers,
    after_stack: (StackState, StackAction),
    confidential_state: ConfidentialState,
    confidential_event: ConfidentialEvent,
    after_confidential: (ConfidentialState, ConfidentialAction),
)
    requires
        signature_step(signature_state, signature_event, after_signature),
        stack_step(stack_state, stack_event, tokenizers, after_stack),
        confidential_step(confidential_state, confidential_event, after_confidential),
    ensures
        match (signature_state, after_signature.1) {
            (
                SignatureState::AwaitingVerdict { metadata: before, .. },
                SignatureAction::Forward { metadata: after, .. },
            ) => adds_payload_hash(before, after),
            (_, SignatureAction::Forward { .. }) => false,
            _ => true,
        },
        match (stack_state, after_stack.1) {
            (StackState::AwaitingLedger(pending), StackAction::Forward { metadata: after, .. }) => {
                adds_stack_info(pending.metadata, after)
            },
            (StackState::AwaitingChain(pending), StackAction::Forward { metadata: after, .. }) => {
                adds_stack_info(pending.metadata, after)
            },
            (_, StackAction::Forward { .. }) => false,
            _ => true,
        },
        match (confidential_state, after_confidential.1) {
            (
                ConfidentialState::AwaitingPlaintext { metadata: before, .. },
                ConfidentialAction::Forward { metadata: after, .. },
            ) => adds_encryption(before, after),
            (_, ConfidentialAction::Forward { .. }) => false,
            _ => true,
        },
{
    match (stack_state, after_stack.1) {
        (StackState::AwaitingLedger(pending), StackAction::Forward { metadata: after, .. }) => {
            assert(after == admitted(pending));
        },
        (StackState::AwaitingChain(pending), StackAction::Forward { metadata: after, .. }) => {
            assert(after == admitted(pending));
        },
        _ => {},
    }
}

} // verus!
