use kiro_acp::json::JsonValue;
use kiro_acp::protocol::messages::{JsonRpcMessage, JsonRpcRequest, JsonRpcResponse};
use kiro_acp::protocol::{AcpConnection, LineRead, TransportError};

fn line_doc(entries: Vec<(&str, JsonValue)>) -> JsonValue {
    JsonValue::Object(entries.into_iter().map(|(k, v)| (k.to_string(), v)).collect())
}

#[test]
fn a_read_of_no_bytes_is_the_end_of_the_stream() {
    assert_eq!(AcpConnection::receive(LineRead::Read { bytes: 0, document: None }), Ok(None));
    assert_eq!(
        AcpConnection::receive(LineRead::Read { bytes: 0, document: Some(JsonValue::Null) }),
        Ok(None)
    );
}

#[test]
fn a_failed_read_is_a_failure() {
    assert_eq!(AcpConnection::receive(LineRead::Failed), Err(TransportError::ReadFailed));
}

#[test]
fn a_line_that_is_no_json_is_malformed() {
    assert_eq!(
        AcpConnection::receive(LineRead::Read { bytes: 9, document: None }),
        Err(TransportError::Malformed)
    );
    assert_eq!(
        AcpConnection::receive(LineRead::Read { bytes: 1, document: None }),
        Err(TransportError::Malformed)
    );
}

#[test]
fn a_json_line_that_is_no_envelope_is_unrecognized() {
    assert_eq!(
        AcpConnection::receive(LineRead::Read {
            bytes: 3,
            document: Some(JsonValue::empty_object())
        }),
        Err(TransportError::Unrecognized)
    );
}

#[test]
fn a_line_with_an_envelope_is_received() {
    let doc = line_doc(vec![
        ("jsonrpc", JsonValue::text("2.0")),
        ("id", JsonValue::integer(2)),
        ("method", JsonValue::text("newSession")),
        ("params", line_doc(vec![("cwd", JsonValue::text("/tmp"))])),
    ]);
    assert_eq!(
        AcpConnection::receive(LineRead::Read { bytes: 74, document: Some(doc) }),
        Ok(Some(JsonRpcMessage::Request(JsonRpcRequest {
            jsonrpc: "2.0".to_string(),
            id: JsonValue::integer(2),
            method: "newSession".to_string(),
            params: Some(line_doc(vec![("cwd", JsonValue::text("/tmp"))])),
        })))
    );
}

#[test]
fn a_message_is_sent_as_its_document() {
    let response = JsonRpcResponse::success(JsonValue::integer(2), JsonValue::empty_object());
    assert_eq!(
        AcpConnection::send(JsonRpcMessage::Response(response)),
        line_doc(vec![
            ("jsonrpc", JsonValue::text("2.0")),
            ("id", JsonValue::integer(2)),
            ("result", JsonValue::empty_object()),
        ])
    );
}

#[test]
fn a_line_is_the_document_and_one_newline() {
    assert_eq!(AcpConnection::frame("{\"id\":1}"), Some("{\"id\":1}\n".to_string()));
    assert_eq!(AcpConnection::frame(""), Some("\n".to_string()));
    assert_eq!(
        AcpConnection::frame("{\"text\":\"a\\nb\"}"),
        Some("{\"text\":\"a\\nb\"}\n".to_string())
    );
}

#[test]
fn a_text_that_holds_a_newline_fits_on_no_line() {
    assert_eq!(AcpConnection::frame("{\n}"), None);
    assert_eq!(AcpConnection::frame("\n"), None);
    assert_eq!(AcpConnection::frame("{}\n"), None);
}
