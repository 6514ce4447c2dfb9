use mongo_bridge::command::close::CloseResult;
use mongo_bridge::command::connect::ConnectResult;
use mongo_bridge::command::update::UpdateResultArgs;
use mongo_bridge::util::{
    async_error, async_op, async_reply, async_result, pad_to_boundary, sync_error, sync_op,
    sync_reply, sync_result, SuccessResult,
};
use mongo_bridge::{AsyncResult, Command, CommandArgs, CommandType, SyncResult};

fn head(command_id: Option<usize>) -> CommandArgs {
    CommandArgs { command_type: CommandType::Find, command_id, client_id: Some(0) }
}

fn decode(buffer: &[u8]) -> serde_json::Value {
    serde_json::from_slice(buffer).unwrap()
}

fn json(text: &str) -> serde_json::Value {
    serde_json::from_str(text).unwrap()
}

#[test]
fn sync_result_exact_bytes() {
    assert_eq!(sync_result("0".to_string()), b"{\"data\":0,\"error\":null}".to_vec());
    assert_eq!(
        sync_result("{\"success\":true}".to_string()),
        b"{\"data\":{\"success\":true},\"error\":null}".to_vec()
    );
    assert_eq!(sync_result("[]".to_string()), b"{\"data\":[],\"error\":null}".to_vec());
}

#[test]
fn sync_error_exact_bytes() {
    assert_eq!(
        sync_error("Client not found".to_string()),
        b"{\"data\":null,\"error\":\"Client not found\"}".to_vec()
    );
}

#[test]
fn sync_error_escapes_what_json_does_not_allow_in_a_string() {
    assert_eq!(
        sync_error("a \"quoted\" \\ line\nnext\ttab".to_string()),
        b"{\"data\":null,\"error\":\"a \\\"quoted\\\" \\\\ line\\nnext\\ttab\"}".to_vec()
    );
    assert_eq!(
        sync_error("\u{1}".to_string()),
        b"{\"data\":null,\"error\":\"\\u0001\"}".to_vec()
    );
}

#[test]
fn sync_error_with_empty_message() {
    assert_eq!(sync_error(String::new()), b"{\"data\":null,\"error\":\"\"}".to_vec());
}

#[test]
fn sync_error_keeps_text_outside_ascii() {
    let buffer = sync_error("Verbindung verloren: größer".to_string());
    assert_eq!(buffer, "{\"data\":null,\"error\":\"Verbindung verloren: größer\"}".as_bytes().to_vec());
}

#[test]
fn success_round_trip() {
    for payload in ["0", "17", "true", "null", "\"text\"", "[1,2,3]", "{\"a\":{\"b\":[]}}", "[]"] {
        let decoded = decode(&sync_result(payload.to_string()));
        assert_eq!(decoded["data"], json(payload));
        assert_eq!(decoded["error"], serde_json::Value::Null);
        assert_eq!(decoded.as_object().unwrap().len(), 2);
    }
}

#[test]
fn failure_round_trip() {
    for message in [
        "",
        "plain",
        "with \"quotes\" and \\ backslash",
        "line\nbreak\r\n\ttab",
        "control \u{0} \u{1f} \u{7f}",
        "unicode ü 漢字 🎉",
        "{\"data\":1,\"error\":null}",
    ] {
        let decoded = decode(&sync_error(message.to_string()));
        assert_eq!(decoded["data"], serde_json::Value::Null);
        assert_eq!(decoded["error"], serde_json::Value::String(message.to_string()));
        assert_eq!(decoded.as_object().unwrap().len(), 2);
    }
}

#[test]
fn sync_reply_follows_the_outcome() {
    assert_eq!(sync_reply(Ok("5".to_string())), sync_result("5".to_string()));
    assert_eq!(sync_reply(Err("bad".to_string())), sync_error("bad".to_string()));
}

#[test]
fn sync_op_frames_what_the_handler_returns() {
    let command = Command::new(head(None), vec![b"x".to_vec()]);
    let buffer = sync_op(|command: Command| Ok(command.data.len().to_string()), command);
    assert_eq!(buffer, b"{\"data\":1,\"error\":null}".to_vec());
    let command = Command::new(head(None), vec![]);
    let buffer = sync_op(|_command: Command| Err("nope".to_string()), command);
    assert_eq!(buffer, b"{\"data\":null,\"error\":\"nope\"}".to_vec());
}

#[test]
fn async_result_exact_bytes() {
    assert_eq!(
        async_result(&head(Some(7)), "[]".to_string()),
        b"{\"commandId\":7,\"data\":[],\"error\":null}".to_vec()
    );
    assert_eq!(
        async_result(&head(Some(0)), "3".to_string()),
        b"{\"commandId\":0,\"data\":3,\"error\":null}".to_vec()
    );
}

#[test]
fn async_error_exact_bytes() {
    assert_eq!(
        async_error(&head(Some(120)), "query can not be null".to_string()),
        b"{\"commandId\":120,\"data\":null,\"error\":\"query can not be null\"}".to_vec()
    );
}

#[test]
fn async_replies_carry_the_correlation_id() {
    for id in [0usize, 1, 9, 10, 99, 100, 4096, usize::MAX] {
        let ok = decode(&async_result(&head(Some(id)), "{\"n\":1}".to_string()));
        assert_eq!(ok["commandId"], serde_json::Value::from(id as u64));
        assert_eq!(ok["data"], json("{\"n\":1}"));
        assert_eq!(ok["error"], serde_json::Value::Null);
        let failed = decode(&async_error(&head(Some(id)), "boom".to_string()));
        assert_eq!(failed["commandId"], serde_json::Value::from(id as u64));
        assert_eq!(failed["data"], serde_json::Value::Null);
        assert_eq!(failed["error"], serde_json::Value::String("boom".to_string()));
        assert_eq!(failed.as_object().unwrap().len(), 3);
    }
}

#[test]
fn async_reply_follows_the_outcome() {
    let args = head(Some(4));
    assert_eq!(async_reply(&args, Ok("1".to_string())), async_result(&args, "1".to_string()));
    assert_eq!(async_reply(&args, Err("e".to_string())), async_error(&args, "e".to_string()));
}

#[test]
fn async_op_hands_back_the_head_as_it_came_in() {
    let command = Command::new(head(Some(31)), vec![b"seg".to_vec()]);
    let (args, pending) = async_op(|command: Command| command.data, command);
    assert_eq!(args, head(Some(31)));
    assert_eq!(pending, vec![b"seg".to_vec()]);
}

#[test]
fn replies_of_interleaved_commands_keep_their_own_ids() {
    let first = Command::new(head(Some(1)), vec![]);
    let second = Command::new(head(Some(2)), vec![]);
    let (first_args, first_pending) = async_op(|_c: Command| "first", first);
    let (second_args, second_pending) = async_op(|_c: Command| "second", second);
    // the second command completes before the first
    let second_reply = decode(&async_reply(&second_args, Ok(format!("\"{}\"", second_pending))));
    let first_reply = decode(&async_reply(&first_args, Ok(format!("\"{}\"", first_pending))));
    assert_eq!(second_reply["commandId"], serde_json::Value::from(2u64));
    assert_eq!(second_reply["data"], serde_json::Value::String("second".to_string()));
    assert_eq!(first_reply["commandId"], serde_json::Value::from(1u64));
    assert_eq!(first_reply["data"], serde_json::Value::String("first".to_string()));
}

#[test]
fn sync_result_struct_encodes_both_members() {
    let reply = SyncResult { data: Some("1".to_string()), error: None };
    assert_eq!(reply.encode(), b"{\"data\":1,\"error\":null}".to_vec());
    let reply = SyncResult { data: None, error: None };
    assert_eq!(reply.encode(), b"{\"data\":null,\"error\":null}".to_vec());
}

#[test]
fn async_result_struct_encodes_three_members() {
    let reply = AsyncResult { command_id: 5, data: None, error: Some("x".to_string()) };
    assert_eq!(reply.encode(), b"{\"commandId\":5,\"data\":null,\"error\":\"x\"}".to_vec());
}

#[test]
fn padding_fills_up_to_the_boundary_with_spaces() {
    assert_eq!(pad_to_boundary(b"abcde".to_vec(), 4), b"abcde   ".to_vec());
    assert_eq!(pad_to_boundary(b"abcdef".to_vec(), 4), b"abcdef  ".to_vec());
    assert_eq!(pad_to_boundary(b"abcdefg".to_vec(), 4), b"abcdefg ".to_vec());
}

#[test]
fn padding_leaves_an_aligned_buffer_alone() {
    assert_eq!(pad_to_boundary(b"abcd".to_vec(), 4), b"abcd".to_vec());
    assert_eq!(pad_to_boundary(Vec::new(), 4), Vec::<u8>::new());
    assert_eq!(pad_to_boundary(b"abc".to_vec(), 1), b"abc".to_vec());
}

#[test]
fn padded_reply_still_decodes_to_the_same_value() {
    for boundary in 1..9usize {
        let plain = sync_result("{\"success\":true}".to_string());
        let padded = pad_to_boundary(plain.clone(), boundary);
        assert_eq!(padded.len() % boundary, 0);
        assert!(padded.len() < plain.len() + boundary);
        assert_eq!(decode(&padded), decode(&plain));
    }
}

#[test]
fn acknowledgements_as_json() {
    assert_eq!(SuccessResult::new().to_json(), "{\"success\":true}");
    assert_eq!(SuccessResult { success: false }.to_json(), "{\"success\":false}");
    assert_eq!(CloseResult { success: true }.to_json(), "{\"success\":true}");
    assert_eq!(CloseResult { success: false }.to_json(), "{\"success\":false}");
}

#[test]
fn success_result_new_is_a_success() {
    assert!(SuccessResult::new().success);
}

#[test]
fn connect_result_as_json_is_the_handle() {
    assert_eq!(ConnectResult { client_id: 0 }.to_json(), "0");
    assert_eq!(ConnectResult { client_id: 12 }.to_json(), "12");
}

#[test]
fn update_result_as_json() {
    let result = UpdateResultArgs { matched_count: 3, modified_count: 2, upserted_id: None };
    assert_eq!(result.to_json(), "{\"matchedCount\":3,\"modifiedCount\":2,\"upsertedId\":null}");
    let result = UpdateResultArgs {
        matched_count: 0,
        modified_count: -1,
        upserted_id: Some("{\"$oid\":\"5e8f8f8f8f8f8f8f8f8f8f8f\"}".to_string()),
    };
    assert_eq!(
        result.to_json(),
        "{\"matchedCount\":0,\"modifiedCount\":-1,\"upsertedId\":{\"$oid\":\"5e8f8f8f8f8f8f8f8f8f8f8f\"}}"
    );
    let decoded = json(&result.to_json());
    assert_eq!(decoded["upsertedId"]["$oid"], serde_json::Value::String("5e8f8f8f8f8f8f8f8f8f8f8f".to_string()));
}
