//! The HTTP gateway's translation logic.
//!
//! A create request body is parsed and validated before any backend call; a
//! backend outcome is translated into the HTTP reply: 201 or 200 with the
//! exact JSON body on success, and a bare 500 on any RPC failure, without
//! distinguishing error subtypes.

use vstd::prelude::*;
use vstd::utf8::{encode_utf8, valid_utf8};

use crate::backend::RpcError;
use crate::json::{
    parse_create_body, parse_create_body_exec, render_todo, render_todo_list, todo_json_of,
    todo_list_json,
};
use crate::todo::{CreateTodo, Todo, TodoList};

verus! {

/// A malformed create request body, rejected at the gateway boundary before
/// any backend call.
#[derive(Debug)]
pub enum ValidationError {
    MalformedBody,
}

/// An HTTP reply: the status code and the body bytes.
pub struct HttpReply {
    pub status: u16,
    pub body: Vec<u8>,
}

/// Relies on `String::from_utf8`: returns the string holding the given bytes
/// exactly when they are valid UTF-8.
#[verifier::external_body]
fn bytes_to_string(v: Vec<u8>) -> (r: Option<String>)
    ensures
        r is Some <==> valid_utf8(v@),
        r matches Some(s) ==> encode_utf8(s@) == v@,
{
    String::from_utf8(v).ok()
}

/// Parses a create request body: accepted exactly when the body matches the
/// request grammar and its text is valid UTF-8; the structure is validated,
/// the text's content is not.
pub fn parse_create_todo(body: &Vec<u8>) -> (r: Result<CreateTodo, ValidationError>)
    ensures
        r is Ok <==> (parse_create_body(body@) matches Some(v) && valid_utf8(v)),
        r matches Ok(ct) ==> (parse_create_body(body@) matches Some(v) && encode_utf8(ct.text@)
            == v),
{
    match parse_create_body_exec(body) {
        Some(v) => {
            let ghost bytes = v@;
            match bytes_to_string(v) {
                Some(text) => Ok(CreateTodo { text }),
                None => Err(ValidationError::MalformedBody),
            }
        },
        None => Err(ValidationError::MalformedBody),
    }
}

/// The reply to a rejected create request: a client error, sent before any
/// backend call.
pub fn bad_request_reply() -> (r: HttpReply)
    ensures
        r.status == 400,
        r.body@ == Seq::<u8>::empty(),
{
    HttpReply { status: 400, body: Vec::new() }
}

/// The reply to a create request, from the RPC outcome: on success 201 with
/// the new record as JSON; on any RPC failure 500 with an empty body.
pub fn create_todo_reply(outcome: Result<Todo, RpcError>) -> (r: HttpReply)
    ensures
        outcome matches Ok(t) ==> r.status == 201 && r.body@ == todo_json_of(t@),
        outcome is Err ==> r.status == 500 && r.body@ == Seq::<u8>::empty(),
{
    match outcome {
        Ok(t) => HttpReply { status: 201, body: render_todo(&t) },
        Err(_) => HttpReply { status: 500, body: Vec::new() },
    }
}

/// The reply to a list request, from the RPC outcome: on success 200 with the
/// snapshot as JSON, item for item and field for field; on any RPC failure
/// 500 with an empty body.
pub fn get_todos_reply(outcome: Result<TodoList, RpcError>) -> (r: HttpReply)
    ensures
        outcome matches Ok(l) ==> r.status == 200 && r.body@ == todo_list_json(l@),
        outcome is Err ==> r.status == 500 && r.body@ == Seq::<u8>::empty(),
{
    match outcome {
        Ok(l) => HttpReply { status: 200, body: render_todo_list(&l) },
        Err(_) => HttpReply { status: 500, body: Vec::new() },
    }
}

} // verus!
