use mongo_bridge::command::close::close;
use mongo_bridge::command::connect::{connect_with_uri, register_client};
use mongo_bridge::command::find::{find, found_documents, FindArgs};
use mongo_bridge::command::insert::{insert_many, InsertManyArgs};
use mongo_bridge::command::stream::{collect, StreamPolicy};
use mongo_bridge::command::DriverCall;
use mongo_bridge::registry::Registry;
use mongo_bridge::util::{async_op, async_reply, sync_op};
use mongo_bridge::{op_command, Command, CommandArgs, Dispatch, Head};
use std::cell::RefCell;

/// Stands for a connection of the driver.
#[derive(Clone, Debug, PartialEq)]
struct Connection {
    uri: String,
}

fn decode(buffer: &[u8]) -> serde_json::Value {
    serde_json::from_slice(buffer).unwrap()
}

fn json(text: &str) -> serde_json::Value {
    serde_json::from_str(text).unwrap()
}

/// Reads the head of a request from JSON, member by member.
fn decode_head(primary: &Vec<u8>) -> Result<Head, String> {
    let value: serde_json::Value = serde_json::from_slice(primary).map_err(|e| e.to_string())?;
    let id = |name: &str| -> Result<Option<usize>, String> {
        match value.get(name) {
            None | Some(serde_json::Value::Null) => Ok(None),
            Some(id) => match id.as_u64() {
                Some(id) => Ok(Some(id as usize)),
                None => Err(format!("invalid type for `{}`", name)),
            },
        }
    };
    let command_type = match value.get("commandType").and_then(|tag| tag.as_str()) {
        Some(tag) => tag.to_string(),
        None => return Err("missing field `commandType`".to_string()),
    };
    Ok(Head { command_type, command_id: id("commandId")?, client_id: id("clientId")? })
}

fn request(head: &str, segments: Vec<Vec<u8>>) -> Dispatch {
    op_command(&head.as_bytes().to_vec(), segments, decode_head)
}

fn connect(registry: &RefCell<Registry<Connection>>, uri: &str) -> Vec<u8> {
    match request("{\"commandType\":\"connect-with-uri\"}", vec![uri.as_bytes().to_vec()]) {
        Dispatch::Immediate(command) => sync_op(
            |command: Command| {
                let uri = connect_with_uri(&command)?;
                let opened = Ok(Connection { uri });
                let answer = register_client(&mut registry.borrow_mut(), opened)?;
                Ok(answer.to_json())
            },
            command,
        ),
        other => panic!("unexpected dispatch {:?}", other),
    }
}

fn find_args(find_one: bool) -> FindArgs {
    FindArgs {
        db_name: "shop".to_string(),
        collection_name: "orders".to_string(),
        filter: Some(json("{\"missing\":true}")),
        find_one,
        skip: None,
        limit: None,
    }
}

fn run_find(registry: &Registry<Connection>, command_id: usize, client_id: usize, find_one: bool) -> Vec<u8> {
    let head = format!(
        "{{\"commandType\":\"find\",\"commandId\":{},\"clientId\":{}}}",
        command_id, client_id
    );
    match request(&head, vec![b"{}".to_vec()]) {
        Dispatch::Deferred(command) => {
            let (args, outcome) = async_op(
                |command: Command| -> Result<String, String> {
                    let (_connection, call) = find(&command, registry, |_s: &Vec<u8>| Ok(find_args(find_one)))?;
                    // the collection is empty: nothing matches
                    let documents = match call {
                        DriverCall::FindOne { .. } => found_documents(None),
                        DriverCall::Find { .. } => collect(Vec::new(), StreamPolicy::SkipFailed)?,
                        _ => panic!("a search was expected"),
                    };
                    Ok(serde_json::to_string(&documents).unwrap())
                },
                command,
            );
            async_reply(&args, outcome)
        }
        other => panic!("unexpected dispatch {:?}", other),
    }
}

#[test]
fn first_connect_answers_handle_zero() {
    let registry = RefCell::new(Registry::new());
    let reply = connect(&registry, "mongodb://localhost:27017");
    assert_eq!(reply, b"{\"data\":0,\"error\":null}".to_vec());
    assert_eq!(
        registry.borrow().lookup(0),
        Some(&Connection { uri: "mongodb://localhost:27017".to_string() })
    );
}

#[test]
fn second_connect_answers_handle_one() {
    let registry = RefCell::new(Registry::new());
    connect(&registry, "mongodb://a");
    let reply = decode(&connect(&registry, "mongodb://b"));
    assert_eq!(reply["data"], serde_json::Value::from(1u64));
    assert_eq!(reply["error"], serde_json::Value::Null);
}

#[test]
fn connect_with_a_uri_that_is_not_text_is_a_failure_reply() {
    let registry: RefCell<Registry<Connection>> = RefCell::new(Registry::new());
    let reply = match request("{\"commandType\":\"connect-with-uri\"}", vec![vec![0xff, 0xfe]]) {
        Dispatch::Immediate(command) => sync_op(
            |command: Command| {
                let uri = connect_with_uri(&command)?;
                let answer = register_client(&mut registry.borrow_mut(), Ok(Connection { uri }))?;
                Ok(answer.to_json())
            },
            command,
        ),
        other => panic!("unexpected dispatch {:?}", other),
    };
    let reply = decode(&reply);
    assert_eq!(reply["data"], serde_json::Value::Null);
    assert!(reply["error"].is_string());
    assert_eq!(registry.borrow().lookup(0), None);
}

#[test]
fn close_after_connect_succeeds_and_find_then_fails() {
    let registry = RefCell::new(Registry::new());
    connect(&registry, "mongodb://localhost:27017");

    let reply = match request("{\"commandType\":\"close\",\"clientId\":0}", vec![]) {
        Dispatch::Immediate(command) => sync_op(
            |command: Command| Ok(close(&command, &mut registry.borrow_mut())?.to_json()),
            command,
        ),
        other => panic!("unexpected dispatch {:?}", other),
    };
    assert_eq!(reply, b"{\"data\":{\"success\":true},\"error\":null}".to_vec());

    let reply = decode(&run_find(&registry.borrow(), 5, 0, false));
    assert_eq!(reply["commandId"], serde_json::Value::from(5u64));
    assert_eq!(reply["data"], serde_json::Value::Null);
    assert_eq!(reply["error"], serde_json::Value::String("Client not found".to_string()));
}

#[test]
fn find_one_that_matches_nothing_answers_an_empty_list() {
    let registry = RefCell::new(Registry::new());
    connect(&registry, "mongodb://localhost:27017");
    let reply = run_find(&registry.borrow(), 9, 0, true);
    assert_eq!(reply, b"{\"commandId\":9,\"data\":[],\"error\":null}".to_vec());
}

#[test]
fn find_that_matches_nothing_answers_an_empty_list() {
    let registry = RefCell::new(Registry::new());
    connect(&registry, "mongodb://localhost:27017");
    let reply = run_find(&registry.borrow(), 10, 0, false);
    assert_eq!(reply, b"{\"commandId\":10,\"data\":[],\"error\":null}".to_vec());
}

#[test]
fn insert_many_of_nothing_answers_no_ids() {
    let mut registry = Registry::new();
    register_client(&mut registry, Ok(Connection { uri: "mongodb://x".to_string() })).unwrap();
    let head = "{\"commandType\":\"insert-many\",\"commandId\":3,\"clientId\":0}";
    let reply = match request(head, vec![b"{}".to_vec()]) {
        Dispatch::Deferred(command) => {
            let (args, outcome) = async_op(
                |command: Command| -> Result<String, String> {
                    let (_connection, call) = insert_many(&command, &registry, |_s: &Vec<u8>| {
                        Ok(InsertManyArgs {
                            db_name: "d".to_string(),
                            collection_name: "c".to_string(),
                            docs: vec![],
                        })
                    })?;
                    // one id for each document that was handed over
                    let ids: Vec<usize> = match call {
                        DriverCall::InsertMany { docs, .. } => (0..docs.len()).collect(),
                        _ => panic!("an insert-many was expected"),
                    };
                    Ok(serde_json::to_string(&ids).unwrap())
                },
                command,
            );
            async_reply(&args, outcome)
        }
        other => panic!("unexpected dispatch {:?}", other),
    };
    assert_eq!(reply, b"{\"commandId\":3,\"data\":[],\"error\":null}".to_vec());
}

#[test]
fn create_indexes_answers_the_names_that_the_driver_gave() {
    let names = vec!["a_1".to_string()];
    let args = CommandArgs::new("create-indexes", Some(2), Some(0)).unwrap();
    let reply = decode(&async_reply(&args, Ok(serde_json::to_string(&names).unwrap())));
    assert_eq!(reply["data"], json("[\"a_1\"]"));
    assert_eq!(reply["data"].as_array().unwrap().len(), 1);
    assert!(reply["data"][0].is_string());
}

#[test]
fn malformed_head_is_answered_with_a_failure_for_every_command() {
    for tag in [
        "connect-with-options", "connect-with-uri", "close", "list-database-names",
        "list-collection-names", "find", "find-one", "insert-one", "insert-many", "delete",
        "update", "aggregate", "count", "distinct", "create-indexes", "drop-collection",
    ] {
        for text in [
            format!("{{\"commandType\":\"{}\",\"commandId\":", tag),
            format!("{{\"commandType\":\"{}\" \"commandId\":1}}", tag),
            format!("{{commandType:\"{}\"}}", tag),
            format!("{{\"commandType\":\"{}\",\"commandId\":\"one\"}}", tag),
            format!("[\"{}\"", tag),
        ] {
            match request(&text, vec![b"{}".to_vec()]) {
                Dispatch::Rejected(buffer) => {
                    let reply = decode(&buffer);
                    assert_eq!(reply["data"], serde_json::Value::Null);
                    assert!(reply["error"].is_string());
                    assert_eq!(reply.as_object().unwrap().len(), 2);
                }
                other => panic!("unexpected dispatch {:?}", other),
            }
        }
    }
}

#[test]
fn malformed_head_reports_the_decoders_message() {
    let text = "{\"commandType\":";
    let message = serde_json::from_str::<serde_json::Value>(text).unwrap_err().to_string();
    match request(text, vec![]) {
        Dispatch::Rejected(buffer) => {
            assert_eq!(decode(&buffer)["error"], serde_json::Value::String(message));
        }
        other => panic!("unexpected dispatch {:?}", other),
    }
}

#[test]
fn head_without_command_type_is_answered_with_a_failure() {
    for text in ["{}", "null", "[]", "7", "{\"commandId\":1}", "{\"commandType\":5}"] {
        assert!(matches!(request(text, vec![]), Dispatch::Rejected(_)));
    }
}

#[test]
fn unknown_command_is_answered_with_a_failure() {
    match request("{\"commandType\":\"shutdown\",\"commandId\":1,\"clientId\":0}", vec![]) {
        Dispatch::Rejected(buffer) => assert_eq!(
            buffer,
            b"{\"data\":null,\"error\":\"Unknown command type: shutdown\"}".to_vec()
        ),
        other => panic!("unexpected dispatch {:?}", other),
    }
}
