use std::collections::HashSet;

use todo_services::backend::{create_rpc_reply, get_all_rpc_reply, RpcError, StoreError};
use todo_services::gateway::{
    bad_request_reply, create_todo_reply, get_todos_reply, parse_create_todo,
};
use todo_services::store::TodoStorage;
use todo_services::todo::{Todo, TodoList};

fn hex_or_hyphen(c: char) -> bool {
    c == '-' || ('0'..='9').contains(&c) || ('a'..='f').contains(&c)
}

#[test]
fn create_then_get_all_has_exactly_the_record() {
    let mut store = TodoStorage::new();
    let created = store.create(String::from("buy milk"));
    assert_eq!(created.text, "buy milk");
    assert_eq!(created.id.len(), 36);
    let snapshot = store.get_all();
    assert_eq!(snapshot.items.len(), 1);
    assert_eq!(snapshot.items[0].id, created.id);
    assert_eq!(snapshot.items[0].text, "buy milk");
}

#[test]
fn created_id_is_canonical_uuid_text() {
    let mut store = TodoStorage::new();
    let created = store.create(String::from("x"));
    assert_eq!(created.id.len(), 36);
    for (i, c) in created.id.chars().enumerate() {
        assert!(hex_or_hyphen(c));
        let hyphen = i == 8 || i == 13 || i == 18 || i == 23;
        assert_eq!(c == '-', hyphen);
    }
}

#[test]
fn ids_unique_across_creates() {
    let mut store = TodoStorage::new();
    for i in 0..100u32 {
        store.create(format!("task {}", i));
    }
    let snapshot = store.get_all();
    assert_eq!(snapshot.items.len(), 100);
    let ids: HashSet<String> = snapshot.items.iter().map(|t| t.id.clone()).collect();
    assert_eq!(ids.len(), 100);
}

#[test]
fn no_creates_are_lost() {
    let mut store = TodoStorage::new();
    let mut created_ids: Vec<String> = Vec::new();
    for i in 0..100u32 {
        created_ids.push(store.create(format!("task {}", i)).id);
    }
    let snapshot = store.get_all();
    let seen: HashSet<String> = snapshot.items.iter().map(|t| t.id.clone()).collect();
    for id in &created_ids {
        assert!(seen.contains(id));
    }
}

#[test]
fn get_all_on_empty_store_is_empty() {
    let store = TodoStorage::new();
    let snapshot = store.get_all();
    assert_eq!(snapshot.items.len(), 0);
}

#[test]
fn empty_text_is_accepted() {
    let mut store = TodoStorage::new();
    let created = store.create(String::new());
    assert_eq!(created.text, "");
    assert_eq!(store.get_all().items.len(), 1);
}

#[test]
fn parse_accepts_plain_body() {
    let body: Vec<u8> = b"{\"text\":\"buy milk\"}".to_vec();
    let parsed = parse_create_todo(&body).unwrap();
    assert_eq!(parsed.text, "buy milk");
}

#[test]
fn parse_accepts_whitespace_and_escapes() {
    let body: Vec<u8> = b" {\t\"text\" :\r\n \"a\\n\\\"b\\u0041c\\u00e9\\uD83D\\uDE00\\\\\" } ".to_vec();
    let parsed = parse_create_todo(&body).unwrap();
    assert_eq!(parsed.text, "a\n\"bAc\u{e9}\u{1F600}\\");
}

#[test]
fn parse_accepts_empty_text() {
    let body: Vec<u8> = b"{\"text\":\"\"}".to_vec();
    let parsed = parse_create_todo(&body).unwrap();
    assert_eq!(parsed.text, "");
}

#[test]
fn parse_rejects_missing_text_field() {
    let body: Vec<u8> = b"{\"note\":\"buy milk\"}".to_vec();
    assert!(parse_create_todo(&body).is_err());
}

#[test]
fn parse_rejects_non_object_body() {
    assert!(parse_create_todo(&b"[\"buy milk\"]".to_vec()).is_err());
    assert!(parse_create_todo(&b"\"buy milk\"".to_vec()).is_err());
    assert!(parse_create_todo(&b"42".to_vec()).is_err());
    assert!(parse_create_todo(&b"".to_vec()).is_err());
    assert!(parse_create_todo(&b"   ".to_vec()).is_err());
}

#[test]
fn parse_rejects_malformed_object() {
    assert!(parse_create_todo(&b"{\"text\":\"open".to_vec()).is_err());
    assert!(parse_create_todo(&b"{\"text\":42}".to_vec()).is_err());
    assert!(parse_create_todo(&b"{\"text\":\"a\"} trailing".to_vec()).is_err());
    assert!(parse_create_todo(&b"{\"text\":\"a\",\"text\":\"b\"}".to_vec()).is_err());
    assert!(parse_create_todo(&b"{\"text\":\"a\"".to_vec()).is_err());
}

#[test]
fn parse_rejects_bad_escapes_and_controls() {
    assert!(parse_create_todo(&b"{\"text\":\"\\q\"}".to_vec()).is_err());
    assert!(parse_create_todo(&b"{\"text\":\"\\uD83D\"}".to_vec()).is_err());
    assert!(parse_create_todo(&b"{\"text\":\"\\uDE00\"}".to_vec()).is_err());
    assert!(parse_create_todo(&b"{\"text\":\"\\uZZZZ\"}".to_vec()).is_err());
    assert!(parse_create_todo(&b"{\"text\":\"a\nb\"}".to_vec()).is_err());
}

#[test]
fn parse_rejects_invalid_utf8_text() {
    let body: Vec<u8> = vec![b'{', b'"', b't', b'e', b'x', b't', b'"', b':', b'"', 0xFF, b'"', b'}'];
    assert!(parse_create_todo(&body).is_err());
}

#[test]
fn bad_request_reply_is_a_client_error() {
    let reply = bad_request_reply();
    assert_eq!(reply.status, 400);
    assert!(reply.body.is_empty());
}

#[test]
fn create_reply_renders_the_record() {
    let todo = Todo { id: String::from("abc-1"), text: String::from("buy milk") };
    let reply = create_todo_reply(Ok(todo));
    assert_eq!(reply.status, 201);
    assert_eq!(reply.body, b"{\"id\":\"abc-1\",\"text\":\"buy milk\"}".to_vec());
}

#[test]
fn create_reply_escapes_the_text() {
    let todo = Todo { id: String::from("i"), text: String::from("a\"b\\c\nd\u{1}e") };
    let reply = create_todo_reply(Ok(todo));
    assert_eq!(reply.status, 201);
    assert_eq!(
        reply.body,
        b"{\"id\":\"i\",\"text\":\"a\\\"b\\\\c\\nd\\u0001e\"}".to_vec()
    );
}

#[test]
fn list_reply_renders_every_item_in_order() {
    let list = TodoList {
        items: vec![
            Todo { id: String::from("one"), text: String::from("first") },
            Todo { id: String::from("two"), text: String::from("second") },
        ],
    };
    let reply = get_todos_reply(Ok(list));
    assert_eq!(reply.status, 200);
    assert_eq!(
        reply.body,
        b"{\"items\":[{\"id\":\"one\",\"text\":\"first\"},{\"id\":\"two\",\"text\":\"second\"}]}"
            .to_vec()
    );
}

#[test]
fn list_reply_on_empty_list() {
    let reply = get_todos_reply(Ok(TodoList { items: Vec::new() }));
    assert_eq!(reply.status, 200);
    assert_eq!(reply.body, b"{\"items\":[]}".to_vec());
}

#[test]
fn rpc_failure_collapses_to_bare_500() {
    let create_reply =
        create_todo_reply(Err(RpcError::Transport { message: String::from("connection refused") }));
    assert_eq!(create_reply.status, 500);
    assert!(create_reply.body.is_empty());
    let list_reply =
        get_todos_reply(Err(RpcError::Internal { message: String::from("store failure") }));
    assert_eq!(list_reply.status, 500);
    assert!(list_reply.body.is_empty());
}

#[test]
fn unavailable_store_becomes_internal_status() {
    let reply = create_rpc_reply(Err(StoreError::Unavailable));
    match reply {
        Err(RpcError::Internal { message }) => {
            assert_eq!(message, "could not acquire exclusive access to the todo store");
        }
        _ => panic!("expected an internal error status"),
    }
    let list = get_all_rpc_reply(Err(StoreError::Unavailable));
    assert!(matches!(list, Err(RpcError::Internal { .. })));
}

#[test]
fn backend_success_passes_through() {
    let todo = Todo { id: String::from("a"), text: String::from("b") };
    let reply = create_rpc_reply(Ok(todo)).unwrap();
    assert_eq!(reply.id, "a");
    assert_eq!(reply.text, "b");
    let list = get_all_rpc_reply(Ok(TodoList { items: Vec::new() })).unwrap();
    assert!(list.items.is_empty());
}

#[test]
fn end_to_end_create_then_list() {
    let mut store = TodoStorage::new();

    let body: Vec<u8> = b"{\"text\":\"buy milk\"}".to_vec();
    let request = parse_create_todo(&body).unwrap();
    let created = store.create(request.text);
    let rpc = create_rpc_reply(Ok(created));
    let reply = create_todo_reply(rpc);
    assert_eq!(reply.status, 201);

    let id = store.get_all().items[0].id.clone();
    let expected = format!("{{\"id\":\"{}\",\"text\":\"buy milk\"}}", id);
    assert_eq!(reply.body, expected.into_bytes());

    let rpc = get_all_rpc_reply(Ok(store.get_all()));
    let reply = get_todos_reply(rpc);
    assert_eq!(reply.status, 200);
    let expected = format!("{{\"items\":[{{\"id\":\"{}\",\"text\":\"buy milk\"}}]}}", id);
    assert_eq!(reply.body, expected.into_bytes());
}
