use kiro_acp::json::{JsonNumber, JsonValue};
use kiro_acp::protocol::messages::{
    DecodeError, JsonRpcError, JsonRpcMessage, JsonRpcNotification, JsonRpcRequest,
    JsonRpcResponse, INTERNAL_ERROR, JSONRPC_VERSION,
};

fn doc_of(entries: Vec<(&str, JsonValue)>) -> JsonValue {
    JsonValue::Object(entries.into_iter().map(|(k, v)| (k.to_string(), v)).collect())
}

#[test]
fn success_carries_the_result_and_no_error() {
    let response = JsonRpcResponse::success(JsonValue::integer(1), JsonValue::text("ok"));
    assert_eq!(response.jsonrpc, "2.0");
    assert_eq!(response.id, JsonValue::integer(1));
    assert_eq!(response.result, Some(JsonValue::text("ok")));
    assert_eq!(response.error, None);
}

#[test]
fn error_carries_the_error_and_no_result() {
    let response = JsonRpcResponse::error(JsonValue::text("abc"), -32603, "boom".to_string());
    assert_eq!(response.jsonrpc, "2.0");
    assert_eq!(response.id, JsonValue::text("abc"));
    assert_eq!(response.result, None);
    assert_eq!(
        response.error,
        Some(JsonRpcError { code: -32603, message: "boom".to_string(), data: None })
    );
}

#[test]
fn the_constants_are_those_of_json_rpc() {
    assert_eq!(JSONRPC_VERSION, "2.0");
    assert_eq!(INTERNAL_ERROR, -32603);
}

#[test]
fn a_document_with_version_id_and_method_is_a_request() {
    let doc = doc_of(vec![
        ("jsonrpc", JsonValue::text("2.0")),
        ("id", JsonValue::integer(1)),
        ("method", JsonValue::text("initialize")),
        ("params", JsonValue::empty_object()),
    ]);
    assert_eq!(
        JsonRpcMessage::from_json(&doc),
        Ok(JsonRpcMessage::Request(JsonRpcRequest {
            jsonrpc: "2.0".to_string(),
            id: JsonValue::integer(1),
            method: "initialize".to_string(),
            params: Some(JsonValue::empty_object()),
        }))
    );
}

#[test]
fn a_request_may_have_a_string_id_and_no_params() {
    let doc = doc_of(vec![
        ("method", JsonValue::text("destroy")),
        ("id", JsonValue::text("req-7")),
        ("jsonrpc", JsonValue::text("2.0")),
    ]);
    assert_eq!(
        JsonRpcMessage::from_json(&doc),
        Ok(JsonRpcMessage::Request(JsonRpcRequest {
            jsonrpc: "2.0".to_string(),
            id: JsonValue::text("req-7"),
            method: "destroy".to_string(),
            params: None,
        }))
    );
}

#[test]
fn null_params_are_no_params_and_a_null_id_is_an_id() {
    let doc = doc_of(vec![
        ("jsonrpc", JsonValue::text("2.0")),
        ("id", JsonValue::Null),
        ("method", JsonValue::text("cancelTurn")),
        ("params", JsonValue::Null),
        ("extra", JsonValue::Bool(true)),
    ]);
    assert_eq!(
        JsonRpcMessage::from_json(&doc),
        Ok(JsonRpcMessage::Request(JsonRpcRequest {
            jsonrpc: "2.0".to_string(),
            id: JsonValue::Null,
            method: "cancelTurn".to_string(),
            params: None,
        }))
    );
}

#[test]
fn a_document_with_version_and_id_is_a_response() {
    let doc = doc_of(vec![
        ("jsonrpc", JsonValue::text("2.0")),
        ("id", JsonValue::integer(4)),
        ("result", JsonValue::text("fine")),
    ]);
    assert_eq!(
        JsonRpcMessage::from_json(&doc),
        Ok(JsonRpcMessage::Response(JsonRpcResponse {
            jsonrpc: "2.0".to_string(),
            id: JsonValue::integer(4),
            result: Some(JsonValue::text("fine")),
            error: None,
        }))
    );
}

#[test]
fn a_response_may_carry_an_error_payload() {
    let doc = doc_of(vec![
        ("jsonrpc", JsonValue::text("2.0")),
        ("id", JsonValue::integer(4)),
        (
            "error",
            doc_of(vec![
                ("code", JsonValue::integer(-32603)),
                ("message", JsonValue::text("bad")),
                ("data", JsonValue::Array(vec![JsonValue::integer(1)])),
            ]),
        ),
    ]);
    assert_eq!(
        JsonRpcMessage::from_json(&doc),
        Ok(JsonRpcMessage::Response(JsonRpcResponse {
            jsonrpc: "2.0".to_string(),
            id: JsonValue::integer(4),
            result: None,
            error: Some(JsonRpcError {
                code: -32603,
                message: "bad".to_string(),
                data: Some(JsonValue::Array(vec![JsonValue::integer(1)])),
            }),
        }))
    );
}

#[test]
fn an_error_code_has_to_fit_in_32_bits() {
    let with_code = |code: JsonValue| {
        doc_of(vec![
            ("jsonrpc", JsonValue::text("2.0")),
            ("id", JsonValue::integer(4)),
            ("error", doc_of(vec![("code", code), ("message", JsonValue::text("bad"))])),
        ])
    };
    let too_big = with_code(JsonValue::Number(JsonNumber::PosInt(2147483648)));
    assert_eq!(JsonRpcMessage::from_json(&too_big), Err(DecodeError::NoEnvelopeMatches));
    let too_small = with_code(JsonValue::Number(JsonNumber::NegInt(-2147483649)));
    assert_eq!(JsonRpcMessage::from_json(&too_small), Err(DecodeError::NoEnvelopeMatches));
    let fraction = with_code(JsonValue::Number(JsonNumber::Float(1.5f64.to_bits())));
    assert_eq!(JsonRpcMessage::from_json(&fraction), Err(DecodeError::NoEnvelopeMatches));
    let largest = with_code(JsonValue::Number(JsonNumber::PosInt(2147483647)));
    match JsonRpcMessage::from_json(&largest) {
        Ok(JsonRpcMessage::Response(response)) => {
            assert_eq!(response.error.map(|e| e.code), Some(i32::MAX));
        }
        other => panic!("not a response: {:?}", other),
    }
    let smallest = with_code(JsonValue::Number(JsonNumber::NegInt(-2147483648)));
    match JsonRpcMessage::from_json(&smallest) {
        Ok(JsonRpcMessage::Response(response)) => {
            assert_eq!(response.error.map(|e| e.code), Some(i32::MIN));
        }
        other => panic!("not a response: {:?}", other),
    }
}

#[test]
fn a_document_with_version_and_method_is_a_notification() {
    let doc = doc_of(vec![
        ("jsonrpc", JsonValue::text("2.0")),
        ("method", JsonValue::text("initialized")),
        ("params", JsonValue::Array(vec![])),
    ]);
    assert_eq!(
        JsonRpcMessage::from_json(&doc),
        Ok(JsonRpcMessage::Notification(JsonRpcNotification {
            jsonrpc: "2.0".to_string(),
            method: "initialized".to_string(),
            params: Some(JsonValue::Array(vec![])),
        }))
    );
}

#[test]
fn a_bad_error_payload_with_a_method_falls_through_to_a_notification() {
    let doc = doc_of(vec![
        ("jsonrpc", JsonValue::text("2.0")),
        ("method", JsonValue::text("note")),
        ("error", JsonValue::text("not a payload")),
    ]);
    assert_eq!(
        JsonRpcMessage::from_json(&doc),
        Ok(JsonRpcMessage::Notification(JsonRpcNotification {
            jsonrpc: "2.0".to_string(),
            method: "note".to_string(),
            params: None,
        }))
    );
}

#[test]
fn a_method_that_is_no_string_makes_a_response_of_a_document_with_an_id() {
    let doc = doc_of(vec![
        ("jsonrpc", JsonValue::text("2.0")),
        ("id", JsonValue::integer(9)),
        ("method", JsonValue::integer(5)),
    ]);
    assert_eq!(
        JsonRpcMessage::from_json(&doc),
        Ok(JsonRpcMessage::Response(JsonRpcResponse {
            jsonrpc: "2.0".to_string(),
            id: JsonValue::integer(9),
            result: None,
            error: None,
        }))
    );
}

#[test]
fn documents_that_are_no_envelope_are_refused() {
    let refused = vec![
        JsonValue::Null,
        JsonValue::text("initialize"),
        JsonValue::Array(vec![JsonValue::text("2.0"), JsonValue::integer(1)]),
        JsonValue::empty_object(),
        doc_of(vec![("id", JsonValue::integer(1)), ("method", JsonValue::text("initialize"))]),
        doc_of(vec![("jsonrpc", JsonValue::text("2.0"))]),
        doc_of(vec![("jsonrpc", JsonValue::integer(2)), ("method", JsonValue::text("m"))]),
        doc_of(vec![
            ("jsonrpc", JsonValue::text("2.0")),
            ("id", JsonValue::integer(1)),
            ("error", JsonValue::text("no payload")),
        ]),
    ];
    for doc in refused {
        assert_eq!(JsonRpcMessage::from_json(&doc), Err(DecodeError::NoEnvelopeMatches));
    }
}

#[test]
fn a_request_is_written_with_its_members_in_order() {
    let request = JsonRpcRequest {
        jsonrpc: "2.0".to_string(),
        id: JsonValue::integer(3),
        method: "newSession".to_string(),
        params: Some(doc_of(vec![("cwd", JsonValue::text("/tmp"))])),
    };
    assert_eq!(
        request.into_json(),
        doc_of(vec![
            ("jsonrpc", JsonValue::text("2.0")),
            ("id", JsonValue::integer(3)),
            ("method", JsonValue::text("newSession")),
            ("params", doc_of(vec![("cwd", JsonValue::text("/tmp"))])),
        ])
    );
}

#[test]
fn absent_members_are_left_out_when_writing() {
    let request = JsonRpcRequest {
        jsonrpc: "2.0".to_string(),
        id: JsonValue::integer(3),
        method: "destroy".to_string(),
        params: None,
    };
    assert_eq!(
        request.into_json(),
        doc_of(vec![
            ("jsonrpc", JsonValue::text("2.0")),
            ("id", JsonValue::integer(3)),
            ("method", JsonValue::text("destroy")),
        ])
    );
    let notification =
        JsonRpcNotification { jsonrpc: "2.0".to_string(), method: "n".to_string(), params: None };
    assert_eq!(
        notification.into_json(),
        doc_of(vec![("jsonrpc", JsonValue::text("2.0")), ("method", JsonValue::text("n"))])
    );
}

#[test]
fn a_success_is_written_without_an_error_member() {
    let response = JsonRpcResponse::success(JsonValue::integer(1), JsonValue::empty_object());
    assert_eq!(
        response.into_json(),
        doc_of(vec![
            ("jsonrpc", JsonValue::text("2.0")),
            ("id", JsonValue::integer(1)),
            ("result", JsonValue::empty_object()),
        ])
    );
}

#[test]
fn a_failure_is_written_without_a_result_member() {
    let response = JsonRpcResponse::error(JsonValue::integer(1), INTERNAL_ERROR, "no".to_string());
    assert_eq!(
        response.into_json(),
        doc_of(vec![
            ("jsonrpc", JsonValue::text("2.0")),
            ("id", JsonValue::integer(1)),
            (
                "error",
                doc_of(vec![
                    ("code", JsonValue::Number(JsonNumber::NegInt(-32603))),
                    ("message", JsonValue::text("no")),
                ])
            ),
        ])
    );
}

#[test]
fn an_error_with_data_is_written_with_it() {
    let error = JsonRpcError {
        code: 12,
        message: "m".to_string(),
        data: Some(JsonValue::Bool(true)),
    };
    assert_eq!(
        error.into_json(),
        doc_of(vec![
            ("code", JsonValue::Number(JsonNumber::PosInt(12))),
            ("message", JsonValue::text("m")),
            ("data", JsonValue::Bool(true)),
        ])
    );
}

#[test]
fn what_is_written_reads_back_as_the_same_message() {
    let messages = vec![
        JsonRpcMessage::Request(JsonRpcRequest {
            jsonrpc: "2.0".to_string(),
            id: JsonValue::text("a"),
            method: "conversationTurn".to_string(),
            params: Some(doc_of(vec![("message", JsonValue::text("hi"))])),
        }),
        JsonRpcMessage::Response(JsonRpcResponse::success(
            JsonValue::integer(1),
            JsonValue::text("r"),
        )),
        JsonRpcMessage::Response(JsonRpcResponse::error(
            JsonValue::integer(2),
            INTERNAL_ERROR,
            "bad".to_string(),
        )),
        JsonRpcMessage::Notification(JsonRpcNotification {
            jsonrpc: "2.0".to_string(),
            method: "note".to_string(),
            params: None,
        }),
    ];
    for message in messages {
        let expected = match &message {
            JsonRpcMessage::Request(r) => JsonRpcMessage::Request(JsonRpcRequest {
                jsonrpc: r.jsonrpc.clone(),
                id: r.id.deep_clone(),
                method: r.method.clone(),
                params: r.params.as_ref().map(|p| p.deep_clone()),
            }),
            JsonRpcMessage::Response(r) => JsonRpcMessage::Response(JsonRpcResponse {
                jsonrpc: r.jsonrpc.clone(),
                id: r.id.deep_clone(),
                result: r.result.as_ref().map(|p| p.deep_clone()),
                error: r.error.as_ref().map(|e| JsonRpcError {
                    code: e.code,
                    message: e.message.clone(),
                    data: e.data.as_ref().map(|d| d.deep_clone()),
                }),
            }),
            JsonRpcMessage::Notification(n) => JsonRpcMessage::Notification(JsonRpcNotification {
                jsonrpc: n.jsonrpc.clone(),
                method: n.method.clone(),
                params: n.params.as_ref().map(|p| p.deep_clone()),
            }),
        };
        let doc = message.into_json();
        assert_eq!(JsonRpcMessage::from_json(&doc), Ok(expected));
    }
}
