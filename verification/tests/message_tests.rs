use serde_json::Value;
use socket_gateway::message::{assemble_envelope, quote, Command, SocketResponse};

fn parse(text: &str) -> Value {
    serde_json::from_str::<Value>(text).unwrap()
}

#[test]
fn decode_reads_every_member_of_an_envelope() {
    let command = Command::decode(
        "{\"op\":\"echo\",\"channel\":\"news\",\"args\":{\"x\":1},\"requestId\":\"r-7\"}",
    )
    .unwrap();
    assert_eq!(command.op, "echo");
    assert_eq!(command.channel, Some("news".to_string()));
    assert_eq!(command.args, Some(parse("{\"x\":1}")));
    assert_eq!(command.request_id, Some("r-7".to_string()));
}

#[test]
fn decode_leaves_absent_members_unset() {
    let command = Command::decode("{\"op\":\"subscribe\"}").unwrap();
    assert_eq!(command.op, "subscribe");
    assert_eq!(command.channel, None);
    assert_eq!(command.args, None);
    assert_eq!(command.request_id, None);
}

#[test]
fn decode_treats_null_members_as_absent() {
    let command =
        Command::decode("{\"op\":\"x\",\"channel\":null,\"args\":null,\"requestId\":null}")
            .unwrap();
    assert_eq!(command.channel, None);
    assert_eq!(command.args, None);
    assert_eq!(command.request_id, None);
}

#[test]
fn decode_keeps_arguments_of_any_shape() {
    assert_eq!(Command::decode("{\"op\":\"x\",\"args\":7}").unwrap().args, Some(parse("7")));
    assert_eq!(
        Command::decode("{\"op\":\"x\",\"args\":\"s\"}").unwrap().args,
        Some(Value::String("s".to_string()))
    );
    assert_eq!(
        Command::decode("{\"op\":\"x\",\"args\":[1,[2],{}]}").unwrap().args,
        Some(parse("[1,[2],{}]"))
    );
    assert_eq!(
        Command::decode("{\"op\":\"x\",\"args\":false}").unwrap().args,
        Some(Value::Bool(false))
    );
}

#[test]
fn decode_ignores_unknown_members_and_white_space() {
    let command = Command::decode("  {\"extra\": [1, 2], \"op\": \"x\"}\n").unwrap();
    assert_eq!(command.op, "x");
    assert_eq!(command.args, None);
}

#[test]
fn decode_takes_the_last_of_a_repeated_member() {
    let command = Command::decode("{\"op\":\"a\",\"op\":\"b\"}").unwrap();
    assert_eq!(command.op, "b");
}

#[test]
fn decode_rejects_text_that_is_not_json() {
    assert!(Command::decode("").is_none());
    assert!(Command::decode("hello").is_none());
    assert!(Command::decode("{\"op\":\"x\"").is_none());
    assert!(Command::decode("{\"op\":\"x\"} trailing").is_none());
}

#[test]
fn decode_rejects_documents_that_are_not_objects() {
    assert!(Command::decode("null").is_none());
    assert!(Command::decode("42").is_none());
    assert!(Command::decode("\"echo\"").is_none());
    assert!(Command::decode("[\"echo\",null,null,null]").is_none());
}

#[test]
fn decode_rejects_a_missing_or_empty_or_mistyped_op() {
    assert!(Command::decode("{}").is_none());
    assert!(Command::decode("{\"channel\":\"c\"}").is_none());
    assert!(Command::decode("{\"op\":\"\"}").is_none());
    assert!(Command::decode("{\"op\":null}").is_none());
    assert!(Command::decode("{\"op\":5}").is_none());
    assert!(Command::decode("{\"op\":[\"echo\"]}").is_none());
}

#[test]
fn decode_rejects_mistyped_channel_or_request_id() {
    assert!(Command::decode("{\"op\":\"x\",\"channel\":5}").is_none());
    assert!(Command::decode("{\"op\":\"x\",\"channel\":{}}").is_none());
    assert!(Command::decode("{\"op\":\"x\",\"requestId\":17}").is_none());
    assert!(Command::decode("{\"op\":\"x\",\"requestId\":true}").is_none());
    assert!(Command::decode("{\"op\":\"x\",\"requestId\":\"\"}").is_some());
}

#[test]
fn from_value_reads_a_parsed_document() {
    let command = Command::from_value(&parse("{\"op\":\"echo\",\"args\":{\"x\":1}}")).unwrap();
    assert_eq!(command.op, "echo");
    assert_eq!(command.args, Some(parse("{\"x\":1}")));
    assert!(Command::from_value(&parse("[1]")).is_none());
    assert!(Command::from_value(&Value::Null).is_none());
}

#[test]
fn default_response_is_plain_success() {
    let response = SocketResponse::default();
    assert_eq!(response.request_id, None);
    assert_eq!(
        response.as_json(),
        Ok("{\"code\":\"200\",\"message\":\"success\"}".to_string())
    );
}

#[test]
fn presets_set_code_and_message() {
    assert_eq!(
        SocketResponse::default().with_server_error().as_json(),
        Ok("{\"code\":\"500\",\"message\":\"server error\"}".to_string())
    );
    assert_eq!(
        SocketResponse::default().with_bad_command().as_json(),
        Ok("{\"code\":\"4001\",\"message\":\"bad command\"}".to_string())
    );
    assert_eq!(
        SocketResponse::default().with_invalid_params().as_json(),
        Ok("{\"code\":\"4006\",\"message\":\"invalid params\"}".to_string())
    );
    assert_eq!(
        SocketResponse::default().with_server_error().with_success().as_json(),
        Ok("{\"code\":\"200\",\"message\":\"success\"}".to_string())
    );
}

#[test]
fn response_from_a_command_copies_the_correlation_fields() {
    let command = Command {
        op: "join".to_string(),
        channel: Some("lobby".to_string()),
        args: Some(parse("[1]")),
        request_id: Some("abc".to_string()),
    };
    let response = SocketResponse::from(&command);
    assert_eq!(response.request_id, Some("abc".to_string()));
    assert_eq!(
        response.as_json(),
        Ok("{\"code\":\"200\",\"message\":\"success\",\"op\":\"join\",\"channel\":\"lobby\",\"requestId\":\"abc\"}"
            .to_string())
    );
}

#[test]
fn presets_keep_the_correlation_fields_and_the_payload() {
    let command = Command {
        op: "join".to_string(),
        channel: None,
        args: None,
        request_id: Some("abc".to_string()),
    };
    let response = SocketResponse::from(&command).set_data(parse("{\"k\":[true,null]}"));
    assert_eq!(
        response.with_invalid_params().as_json(),
        Ok("{\"code\":\"4006\",\"message\":\"invalid params\",\"op\":\"join\",\"data\":{\"k\":[true,null]},\"requestId\":\"abc\"}"
            .to_string())
    );
}

#[test]
fn a_null_payload_is_written_and_an_absent_one_is_not() {
    assert_eq!(
        SocketResponse::default().set_data(Value::Null).as_json(),
        Ok("{\"code\":\"200\",\"message\":\"success\",\"data\":null}".to_string())
    );
    let text = SocketResponse::default().as_json().unwrap();
    assert!(!text.contains("null"));
    assert!(!text.contains("data"));
}

#[test]
fn strings_are_escaped_on_the_wire() {
    let command = Command {
        op: "say \"hi\"\n".to_string(),
        channel: Some("a\\b".to_string()),
        args: None,
        request_id: Some("\u{1}".to_string()),
    };
    let text = SocketResponse::from(&command).as_json().unwrap();
    assert_eq!(
        text,
        "{\"code\":\"200\",\"message\":\"success\",\"op\":\"say \\\"hi\\\"\\n\",\"channel\":\"a\\\\b\",\"requestId\":\"\\u0001\"}"
    );
    let back = parse(text.as_str());
    assert_eq!(back.get("op").and_then(|v| v.as_str()), Some("say \"hi\"\n"));
    assert_eq!(back.get("channel").and_then(|v| v.as_str()), Some("a\\b"));
}

#[test]
fn quote_writes_a_json_string_literal() {
    assert_eq!(quote("abc"), Ok("\"abc\"".to_string()));
    assert_eq!(quote(""), Ok("\"\"".to_string()));
    assert_eq!(quote("a\"b"), Ok("\"a\\\"b\"".to_string()));
    assert_eq!(quote("é"), Ok("\"é\"".to_string()));
}

#[test]
fn assemble_envelope_lays_out_the_members_in_order() {
    let none: Option<String> = None;
    assert_eq!(
        assemble_envelope("1", "2", &none, &none, &none, &none),
        "{\"code\":1,\"message\":2}"
    );
    assert_eq!(
        assemble_envelope(
            "\"200\"",
            "\"success\"",
            &Some("\"o\"".to_string()),
            &Some("\"c\"".to_string()),
            &Some("{\"x\":1}".to_string()),
            &Some("\"r\"".to_string()),
        ),
        "{\"code\":\"200\",\"message\":\"success\",\"op\":\"o\",\"channel\":\"c\",\"data\":{\"x\":1},\"requestId\":\"r\"}"
    );
    assert_eq!(
        assemble_envelope("\"200\"", "\"success\"", &none, &none, &Some("[]".to_string()), &none),
        "{\"code\":\"200\",\"message\":\"success\",\"data\":[]}"
    );
}
