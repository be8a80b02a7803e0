//! Validation of message sizes and structure.

use contextvm_sdk::protocol::constants::MAX_MESSAGE_SIZE;
use contextvm_sdk::protocol::json::Json;
use contextvm_sdk::protocol::types::{
    JsonRpcError, JsonRpcErrorResponse, JsonRpcMessage, JsonRpcRequest,
};
use contextvm_sdk::protocol::validation::{
    validate_and_parse, validate_message, validate_message_size,
};
use contextvm_sdk::protocol::wire::write_message;

fn json(text: &str) -> Json {
    Json::from_text(text).expect("valid JSON")
}

#[test]
fn test_valid_request() {
    let msg = json(r#"{"jsonrpc": "2.0", "id": 1, "method": "tools/list"}"#);
    let parsed = validate_message(&msg).unwrap();
    assert!(parsed.is_request());
}

#[test]
fn test_valid_notification() {
    let msg = json(r#"{"jsonrpc": "2.0", "method": "notifications/initialized"}"#);
    let parsed = validate_message(&msg).unwrap();
    assert!(parsed.is_notification());
}

#[test]
fn test_valid_response() {
    let msg = json(r#"{"jsonrpc": "2.0", "id": 1, "result": {"tools": []}}"#);
    let parsed = validate_message(&msg).unwrap();
    assert!(parsed.is_response());
}

#[test]
fn test_invalid_version() {
    let msg = json(r#"{"jsonrpc": "1.0", "id": 1, "method": "test"}"#);
    assert!(validate_message(&msg).is_none());
}

#[test]
fn test_size_validation() {
    assert!(validate_message_size("hello"));
    let big = "x".repeat(MAX_MESSAGE_SIZE + 1);
    assert!(!validate_message_size(&big));
}

#[test]
fn size_is_counted_in_bytes() {
    assert!(validate_message_size(&"x".repeat(MAX_MESSAGE_SIZE)));
    // Two bytes each.
    assert!(validate_message_size(&"ä".repeat(MAX_MESSAGE_SIZE / 2)));
    assert!(!validate_message_size(&"ä".repeat(MAX_MESSAGE_SIZE / 2 + 1)));
}

#[test]
fn test_validate_and_parse_valid_request() {
    let content = r#"{"jsonrpc":"2.0","id":1,"method":"tools/list"}"#;
    let msg = validate_and_parse(content).unwrap();
    assert!(msg.is_request());
    assert_eq!(msg.method(), Some("tools/list"));
}

#[test]
fn test_validate_and_parse_rejects_oversized() {
    let padding = "x".repeat(MAX_MESSAGE_SIZE);
    let content = format!(r#"{{"jsonrpc":"2.0","id":1,"method":"{}"}}"#, padding);
    assert!(validate_and_parse(&content).is_none());
}

#[test]
fn test_validate_and_parse_rejects_invalid_version() {
    let content = r#"{"jsonrpc":"1.0","id":1,"method":"test"}"#;
    assert!(validate_and_parse(content).is_none());
}

#[test]
fn test_validate_and_parse_rejects_invalid_json() {
    assert!(validate_and_parse("not json").is_none());
}

#[test]
fn version_has_to_be_a_text_member() {
    assert!(validate_message(&json(r#"{"id":1,"method":"x"}"#)).is_none());
    assert!(validate_message(&json(r#"{"jsonrpc":2.0,"id":1,"method":"x"}"#)).is_none());
    assert!(validate_message(&json(r#"["2.0",1,"x"]"#)).is_none());
    assert!(validate_message(&json("null")).is_none());
}

#[test]
fn first_reading_that_fits_counts() {
    // Request before response, response before error.
    let both = json(r#"{"jsonrpc":"2.0","id":1,"method":"m","result":{}}"#);
    assert!(validate_message(&both).unwrap().is_request());
    let answer = json(r#"{"jsonrpc":"2.0","id":1,"result":null,"error":{"code":1,"message":"m"}}"#);
    assert!(validate_message(&answer).unwrap().is_response());
    // A null id is an id.
    let null_id = json(r#"{"jsonrpc":"2.0","id":null,"method":"m"}"#);
    assert!(validate_message(&null_id).unwrap().is_request());
    // An error whose code is no integer is none.
    let broken = json(r#"{"jsonrpc":"2.0","id":1,"error":{"code":1.5,"message":"m"}}"#);
    assert!(validate_message(&broken).is_none());
    let huge = json(r#"{"jsonrpc":"2.0","id":1,"error":{"code":9223372036854775808,"message":"m"}}"#);
    assert!(validate_message(&huge).is_none());
}

#[test]
fn written_messages_are_valid() {
    let message = JsonRpcMessage::ErrorResponse(JsonRpcErrorResponse {
        jsonrpc: "2.0".to_string(),
        id: json("\"a\""),
        error: JsonRpcError {
            code: -32601,
            message: "no \"such\" method".to_string(),
            data: Some(json(r#"{"z":1,"a":[true,null,-3]}"#)),
        },
    });
    let content = write_message(&message);
    let JsonRpcMessage::ErrorResponse(read) = validate_and_parse(&content).unwrap() else {
        panic!("expected an error response");
    };
    assert_eq!(read.id, json("\"a\""));
    assert_eq!(read.error.code, -32601);
    assert_eq!(read.error.message, "no \"such\" method");
    assert_eq!(read.error.data, Some(json(r#"{"a":[true,null,-3],"z":1}"#)));
}

#[test]
fn null_params_are_read_as_left_out() {
    let message = JsonRpcMessage::Request(JsonRpcRequest {
        jsonrpc: "2.0".to_string(),
        id: json("7"),
        method: "m".to_string(),
        params: Some(Json::Null),
    });
    let content = write_message(&message);
    assert_eq!(content, r#"{"jsonrpc":"2.0","id":7,"method":"m","params":null}"#);
    let JsonRpcMessage::Request(read) = validate_and_parse(&content).unwrap() else {
        panic!("expected a request");
    };
    assert!(read.params.is_none());
}
