//! Messages as JSON text and as events.

use contextvm_sdk::protocol::json::{Json, JsonNumber};
use contextvm_sdk::protocol::members::{
    find_value_text, is_any_repeated, is_repeated, read_members,
};
use contextvm_sdk::protocol::nostr::{push_tag, EventId, PublicKey, Tag};
use contextvm_sdk::protocol::serializers::{
    get_tag_value, get_tag_value_from_slice, mcp_to_nostr_event, nostr_event_to_mcp_message,
};
use contextvm_sdk::protocol::types::{
    JsonRpcError, JsonRpcErrorResponse, JsonRpcMessage, JsonRpcNotification, JsonRpcRequest,
    JsonRpcResponse,
};
use contextvm_sdk::protocol::wire::{
    message_to_value, read_members_message, read_message, write_message,
};

fn json(text: &str) -> Json {
    Json::from_text(text).expect("valid JSON")
}

fn words(items: &[&str]) -> Tag {
    Tag::from_items(items.iter().map(|item| item.to_string()).collect())
}

#[test]
fn test_roundtrip() {
    let msg = JsonRpcMessage::Request(JsonRpcRequest {
        jsonrpc: "2.0".to_string(),
        id: json("1"),
        method: "tools/list".to_string(),
        params: None,
    });

    let content = write_message(&msg);
    let parsed = nostr_event_to_mcp_message(&content).unwrap();
    assert!(parsed.is_request());
    assert_eq!(parsed.method(), Some("tools/list"));
}

#[test]
fn test_invalid_json() {
    assert!(nostr_event_to_mcp_message("not json").is_none());
}

#[test]
fn text_of_each_kind_of_message() {
    let request = JsonRpcMessage::Request(JsonRpcRequest {
        jsonrpc: "2.0".to_string(),
        id: json("1"),
        method: "tools/list".to_string(),
        params: Some(json(r#"{"b":1,"a":2}"#)),
    });
    assert_eq!(
        write_message(&request),
        r#"{"jsonrpc":"2.0","id":1,"method":"tools/list","params":{"a":2,"b":1}}"#
    );
    let response = JsonRpcMessage::Response(JsonRpcResponse {
        jsonrpc: "2.0".to_string(),
        id: json("\"x\""),
        result: json("[]"),
    });
    assert_eq!(write_message(&response), r#"{"jsonrpc":"2.0","id":"x","result":[]}"#);
    let error = JsonRpcMessage::ErrorResponse(JsonRpcErrorResponse {
        jsonrpc: "2.0".to_string(),
        id: json("null"),
        error: JsonRpcError { code: 5, message: "m".to_string(), data: Some(json("0")) },
    });
    assert_eq!(
        write_message(&error),
        r#"{"jsonrpc":"2.0","id":null,"error":{"code":5,"message":"m","data":0}}"#
    );
    let notification = JsonRpcMessage::Notification(JsonRpcNotification {
        jsonrpc: "2.0".to_string(),
        method: "m\n".to_string(),
        params: None,
    });
    assert_eq!(write_message(&notification), r#"{"jsonrpc":"2.0","method":"m\n"}"#);
}

#[test]
fn messages_are_read_from_arrays_too() {
    let request = read_message(&json(r#"["2.0",1,"m"]"#)).unwrap();
    assert!(request.is_request());
    assert_eq!(request.id(), Some(&json("1")));
    assert!(read_message(&json(r#"["2.0",1,"m",{},0]"#)).is_none());
    assert!(read_message(&json(r#"["2.0",1,{}]"#)).unwrap().is_response());
    assert!(read_message(&json(r#"["2.0","m"]"#)).unwrap().is_notification());
    // Three items of which the last is an object are a response.
    assert!(read_message(&json(r#"["2.0","m",{"code":1}]"#)).unwrap().is_response());
    assert!(read_message(&json("7")).is_none());
}

#[test]
fn value_of_a_message_is_read_back() {
    let error = JsonRpcMessage::ErrorResponse(JsonRpcErrorResponse {
        jsonrpc: "2.0".to_string(),
        id: json("3"),
        error: JsonRpcError { code: -1, message: "m".to_string(), data: None },
    });
    let value = message_to_value(&error);
    assert_eq!(value.get("error").unwrap().get("code").unwrap().as_i64(), Some(-1));
    assert!(read_message(&value).unwrap().is_error());
}

#[test]
fn last_member_of_a_name_counts() {
    let object = Json::Object(vec![
        ("a".to_string(), Json::Bool(false)),
        ("a".to_string(), Json::Bool(true)),
    ]);
    assert_eq!(object.get("a").and_then(|found| found.as_bool()), Some(true));
    assert_eq!(object.to_text(), r#"{"a":true}"#);
    assert!(object.get("b").is_none());
    assert!(Json::Null.get("a").is_none());
}

#[test]
fn repeated_fields_make_no_message() {
    for text in [
        r#"{"jsonrpc":"2.0","method":"a","method":"b"}"#,
        r#"{"jsonrpc":"2.0","jsonrpc":"2.0","method":"a"}"#,
        r#"{"jsonrpc":"2.0","jsonrpc":"2.0","id":1,"method":"a"}"#,
        r#"{"jsonrpc":"2.0","id":1,"method":"a","params":{},"params":{}}"#,
        r#"{"jsonrpc":"2.0","id":1,"result":1,"result":2}"#,
        r#"{"jsonrpc":"2.0","id":1,"id":1,"result":1}"#,
        r#"{"jsonrpc":"2.0","id":1,"error":{"code":1,"message":"m"},"error":{"code":1,"message":"m"}}"#,
        r#"{"jsonrpc":"2.0","id":1,"error":{"code":1,"code":2,"message":"m"}}"#,
        r#"{"jsonrpc":"2.0","id":1,"error":{"code":1,"message":"m","message":"n"}}"#,
        r#"{"jsonrpc":"2.0","id":1,"error":{"code":1,"message":"m","data":1,"data":1}}"#,
        " \n{\t\"jsonrpc\" : \"2.0\" ,\r\n \"method\" : \"a\" , \"method\" : \"b\" } ",
        r#"{"jsonrpc":"2.0","method":"a","m\u0065thod":"b"}"#,
    ] {
        assert!(nostr_event_to_mcp_message(text).is_none(), "{text}");
    }
}

#[test]
fn what_a_message_has_no_use_for_may_be_repeated() {
    let read = |text: &str| nostr_event_to_mcp_message(text).expect("a message");
    let note = read(r#"{"jsonrpc":"2.0","x":1,"x":{"y":"}"},"method":"a"}"#);
    assert!(note.is_notification());
    // The id makes no request where it is repeated, and is none of a notification's fields.
    let note = read(r#"{"jsonrpc":"2.0","id":1,"id":2,"method":"a"}"#);
    assert!(note.is_notification());
    assert_eq!(note.method(), Some("a"));
    let answer = read(r#"{"jsonrpc":"2.0","id":1,"result":0,"method":"a","method":"b"}"#);
    assert!(answer.is_response());
    let error = read(r#"{"jsonrpc":"2.0","id":1,"error":{"code":1,"message":"m","x":1,"x":2},"method":"a","method":"b"}"#);
    assert!(error.is_error());
    // Inside a value the last member of a name counts.
    let request = read(r#"{"jsonrpc":"2.0","id":1,"method":"a","params":{"k":1,"k":2}}"#);
    assert!(request.is_request());
    assert!(write_message(&request).ends_with(r#""params":{"k":2}}"#));
    // Checked content is read by the last member of a name.
    let text = r#"{"jsonrpc":"2.0","method":"a","method":"b"}"#;
    let checked = contextvm_sdk::protocol::validation::validate_and_parse(text).unwrap();
    assert_eq!(checked.method(), Some("b"));
}

#[test]
fn members_come_in_their_order_and_each_time() {
    let text = " {\"a\" : [1, {\"a\":2}] ,\"b\":\"}\\\",\",\n\"\\u0061\":-1.5e3 , \"c\":{}}";
    let members = read_members(text);
    let names: Vec<&str> = members.iter().map(|member| member.0.as_str()).collect();
    assert_eq!(names, ["a", "b", "a", "c"]);
    let texts: Vec<&str> = members.iter().map(|member| member.1.trim()).collect();
    assert_eq!(texts, ["[1, {\"a\":2}]", "\"}\\\",\"", "-1.5e3", "{}"]);
    assert!(is_repeated(&members, "a"));
    assert!(!is_repeated(&members, "b"));
    assert!(is_any_repeated(&members, &["b", "a"]));
    assert!(!is_any_repeated(&members, &["b", "c", "d"]));
    assert_eq!(find_value_text(&members, "a"), "-1.5e3");
    assert_eq!(find_value_text(&members, "d"), "");
    assert!(read_members("[1]").is_empty());
    assert!(read_members("{}").is_empty());
}

#[test]
fn members_decide_how_a_value_is_read() {
    let value = json(r#"{"jsonrpc":"2.0","id":1,"method":"m"}"#);
    let member = |name: &str| (name.to_string(), "0");
    let once = vec![member("jsonrpc"), member("id"), member("method"), member("x"), member("x")];
    assert!(read_members_message(&value, &once, &Vec::new()).unwrap().is_request());
    let twice = vec![member("id"), member("id")];
    assert!(read_members_message(&value, &twice, &Vec::new()).unwrap().is_notification());
    let twice = vec![member("method"), member("x"), member("method")];
    assert!(read_members_message(&value, &twice, &Vec::new()).is_none());
    let value = json(r#"{"jsonrpc":"2.0","id":1,"error":{"code":1,"message":"m"}}"#);
    let twice = vec![member("data"), member("data")];
    assert!(read_members_message(&value, &Vec::new(), &Vec::new()).unwrap().is_error());
    assert!(read_members_message(&value, &Vec::new(), &twice).is_none());
}

#[test]
fn blanks_between_the_parts_make_no_difference() {
    let spaced = "\r\n{ \"jsonrpc\"\t: \"2.0\" ,\n\"id\" :7 , \"error\": { \"code\" : -1 , \"message\" : \"m\" } }\n";
    let message = nostr_event_to_mcp_message(spaced).unwrap();
    assert_eq!(
        write_message(&message),
        r#"{"jsonrpc":"2.0","id":7,"error":{"code":-1,"message":"m"}}"#
    );
    assert!(nostr_event_to_mcp_message("{ }").is_none());
    assert!(nostr_event_to_mcp_message(r#"{"jsonrpc":"2.0","method":"m",}"#).is_none());
}

#[test]
fn numbers_keep_their_value() {
    assert_eq!(json("18446744073709551615"), Json::Number(JsonNumber::Unsigned(u64::MAX)));
    assert_eq!(json("-9223372036854775808").as_i64(), Some(i64::MIN));
    assert_eq!(json("18446744073709551615").as_i64(), None);
    assert_eq!(json("1.5"), Json::Number(JsonNumber::Float("1.5".to_string())));
    assert_eq!(json("1.5").to_text(), "1.5");
    assert_eq!(json("1.5").as_i64(), None);
}

#[test]
fn deep_text_is_read_up_to_a_limit() {
    let nested = |depth: usize| format!("{}{}", "[".repeat(depth), "]".repeat(depth));
    assert!(Json::from_text(&nested(127)).is_some());
    assert!(Json::from_text(&nested(128)).is_none());
}

#[test]
fn event_carries_the_message() {
    let msg = JsonRpcMessage::Notification(JsonRpcNotification {
        jsonrpc: "2.0".to_string(),
        method: "notifications/initialized".to_string(),
        params: None,
    });
    let template = mcp_to_nostr_event(&msg, 25910, vec![words(&["p", "key"])]);
    assert_eq!(template.kind, 25910);
    assert_eq!(template.content, r#"{"jsonrpc":"2.0","method":"notifications/initialized"}"#);
    assert_eq!(get_tag_value(&template.tags, "p").as_deref(), Some("key"));
}

#[test]
fn first_tag_with_a_value_counts() {
    let tags = vec![
        words(&["e"]),
        words(&["p", "a"]),
        words(&["e", "first", "more"]),
        words(&["e", "second"]),
        words(&[]),
    ];
    assert_eq!(get_tag_value(&tags, "e").as_deref(), Some("first"));
    assert_eq!(get_tag_value_from_slice(&tags[3..], "e").as_deref(), Some("second"));
    assert!(get_tag_value(&tags, "cap").is_none());
    assert!(get_tag_value_from_slice(&[], "e").is_none());
}

#[test]
fn keys_and_ids_are_read_in_either_case() {
    let upper = "AB".repeat(32);
    let key = PublicKey::from_hex(&upper).unwrap();
    assert_eq!(key.to_hex(), "ab".repeat(32));
    assert!(key.same(&PublicKey::from_hex(&key.to_hex()).unwrap()));
    let id = EventId::from_hex(&upper).unwrap();
    assert_eq!(id.to_hex(), "ab".repeat(32));
    let mut tags = Vec::new();
    push_tag(&mut tags, Tag::public_key(&key));
    push_tag(&mut tags, Tag::event(&id));
    assert_eq!(tags[0].to_vec(), vec!["p".to_string(), "ab".repeat(32)]);
    assert_eq!(tags[1].to_vec(), vec!["e".to_string(), "ab".repeat(32)]);
}

#[test]
fn other_texts_are_no_keys_and_no_ids() {
    for text in ["", "ab", &"a".repeat(63), &"g".repeat(64), &"a".repeat(66), &"ä".repeat(32)] {
        let of_nostr = nostr_sdk::PublicKey::from_hex(text).unwrap_err().to_string();
        assert_eq!(PublicKey::from_hex(text).unwrap_err().reason(), of_nostr);
        let of_nostr = nostr_sdk::EventId::from_hex(text).unwrap_err().to_string();
        assert_eq!(EventId::from_hex(text).unwrap_err().reason(), of_nostr);
    }
}
