//! RPC-level reply translation of the backend service.
//!
//! The backend is stateless per call: all state lives in the store. What is
//! left to verify of it is how a call's outcome becomes an RPC reply: a
//! successful store operation is passed through, and the store's one internal
//! failure class becomes an internal-error status carrying a diagnostic
//! message.

use vstd::prelude::*;
use vstd::string::StringExecFns;

use crate::todo::{Todo, TodoList};

verus! {

/// The store's one internal failure class: the exclusive-access mechanism
/// guarding the store could not be acquired.
#[derive(Debug)]
pub enum StoreError {
    Unavailable,
}

/// An RPC-level error as the gateway observes it: either a status the backend
/// answered with, or a failure of the call itself (connection drop, timeout,
/// unreachable backend). Each carries a diagnostic message.
#[derive(Debug)]
pub enum RpcError {
    Internal { message: String },
    Transport { message: String },
}

/// The diagnostic message of the internal-error status that an unavailable
/// store produces.
pub open spec fn store_failure_message() -> Seq<char> {
    "could not acquire exclusive access to the todo store"@
}

/// Translates the outcome of a `create` store operation into the backend's
/// RPC reply: success passes the new record through; an unavailable store
/// becomes an internal-error status.
pub fn create_rpc_reply(outcome: Result<Todo, StoreError>) -> (r: Result<Todo, RpcError>)
    ensures
        r is Ok <==> outcome is Ok,
        outcome matches Ok(t) ==> (r matches Ok(rt) && rt == t),
        outcome is Err ==> (r matches Err(e) && (e matches RpcError::Internal { message }
            && message@ == store_failure_message())),
{
    match outcome {
        Ok(t) => Ok(t),
        Err(StoreError::Unavailable) => Err(
            RpcError::Internal {
                message: String::from_str("could not acquire exclusive access to the todo store"),
            },
        ),
    }
}

/// Translates the outcome of a `get_all` store operation into the backend's
/// RPC reply, with the same error policy as `create_rpc_reply`.
pub fn get_all_rpc_reply(outcome: Result<TodoList, StoreError>) -> (r: Result<
    TodoList,
    RpcError,
>)
    ensures
        r is Ok <==> outcome is Ok,
        outcome matches Ok(l) ==> (r matches Ok(rl) && rl == l),
        outcome is Err ==> (r matches Err(e) && (e matches RpcError::Internal { message }
            && message@ == store_failure_message())),
{
    match outcome {
        Ok(l) => Ok(l),
        Err(StoreError::Unavailable) => Err(
            RpcError::Internal {
                message: String::from_str("could not acquire exclusive access to the todo store"),
            },
        ),
    }
}

} // verus!
