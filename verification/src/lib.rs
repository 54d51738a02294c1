//! A small todo-list service core: an in-memory store that assigns unique
//! identifiers, the RPC-level reply translation of the backend service, and
//! the HTTP gateway's wire logic (request parsing and response rendering).

pub mod backend;
pub mod gateway;
pub mod ids;
pub mod json;
pub mod store;
pub mod todo;
