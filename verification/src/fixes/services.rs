//! Requests to the service manager. Services are outside of what this
//! library changes: each request is accepted, nothing is done, and the call
//! succeeds.

use crate::error::MutationError;
use vstd::prelude::*;

verus! {

/// Accepts the request to start the service `name`.
pub fn start_service(_name: &str) -> (r: Result<(), MutationError>)
    ensures
        r is Ok,
{
    Ok(())
}

/// Accepts the request to stop the service `name`.
pub fn stop_service(_name: &str) -> (r: Result<(), MutationError>)
    ensures
        r is Ok,
{
    Ok(())
}

/// Accepts the request to set how the service `name` starts.
pub fn set_service_startup(_name: &str, _startup_type: u32) -> (r: Result<(), MutationError>)
    ensures
        r is Ok,
{
    Ok(())
}

} // verus!
