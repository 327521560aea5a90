//! The outcome of the node's long-running tasks.

use vstd::prelude::*;

verus! {

/// The first failure among the outcomes of the five tasks, in the order
/// subscriber, state manager, server, daemon, confidential compute; none
/// where every task ended well.
pub open spec fn first_failure<E>(
    subscriber_result: Result<(), E>,
    state_manager_result: Result<(), E>,
    server_result: Result<(), E>,
    daemon_result: Result<(), E>,
    confidential_compute_service_result: Result<(), E>,
) -> Result<(), E> {
    if subscriber_result is Err {
        subscriber_result
    } else if state_manager_result is Err {
        state_manager_result
    } else if server_result is Err {
        server_result
    } else if daemon_result is Err {
        daemon_result
    } else {
        confidential_compute_service_result
    }
}

/// Sums up how the five tasks of the node ended: well if each of them
/// did, else with the failure of the first that failed.
pub fn handle_tasks_results<E>(
    subscriber_result: Result<(), E>,
    state_manager_result: Result<(), E>,
    server_result: Result<(), E>,
    daemon_result: Result<(), E>,
    confidential_compute_service_result: Result<(), E>,
) -> (r: Result<(), E>)
    ensures
        r == first_failure(
            subscriber_result,
            state_manager_result,
            server_result,
            daemon_result,
            confidential_compute_service_result,
        ),
{
    if subscriber_result.is_err() {
        subscriber_result
    } else if state_manager_result.is_err() {
        state_manager_result
    } else if server_result.is_err() {
        server_result
    } else if daemon_result.is_err() {
        daemon_result
    } else {
        confidential_compute_service_result
    }
}

} // verus!
