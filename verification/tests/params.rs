use kiro_acp::agent::AgentCapabilities;
use kiro_acp::json::JsonValue;
use kiro_acp::protocol::messages::{
    ClientInfo, ConversationTurnRequest, ConversationTurnResponse, InitializeRequest,
    InitializeResponse, NewSessionRequest, NewSessionResponse, ParamError, ParamField,
};

fn params_of(entries: Vec<(&str, JsonValue)>) -> JsonValue {
    JsonValue::Object(entries.into_iter().map(|(k, v)| (k.to_string(), v)).collect())
}

#[test]
fn field_names_are_those_of_the_wire() {
    assert_eq!(ParamField::ProtocolVersion.name(), "protocolVersion");
    assert_eq!(ParamField::ClientInfo.name(), "clientInfo");
    assert_eq!(ParamField::ClientName.name(), "name");
    assert_eq!(ParamField::ClientVersion.name(), "version");
    assert_eq!(ParamField::Cwd.name(), "cwd");
    assert_eq!(ParamField::SessionId.name(), "sessionId");
    assert_eq!(ParamField::Message.name(), "message");
}

#[test]
fn param_errors_describe_themselves() {
    assert_eq!(ParamError::MissingParams.message(), "Missing params");
    assert_eq!(ParamError::NotAnObject.message(), "Invalid params: expected an object");
    assert_eq!(
        ParamError::MissingField(ParamField::Message).message(),
        "Invalid params: missing field `message`"
    );
    assert_eq!(
        ParamError::InvalidField(ParamField::SessionId).message(),
        "Invalid params: invalid value for field `sessionId`"
    );
}

#[test]
fn default_params_say_nothing() {
    assert_eq!(
        InitializeRequest::default(),
        InitializeRequest { protocol_version: None, client_info: None }
    );
    assert_eq!(NewSessionRequest::default(), NewSessionRequest { cwd: None });
}

#[test]
fn initialize_takes_no_params_and_empty_params() {
    let nothing = InitializeRequest { protocol_version: None, client_info: None };
    assert_eq!(InitializeRequest::from_params(&None), Ok(nothing.clone()));
    assert_eq!(InitializeRequest::from_params(&Some(JsonValue::empty_object())), Ok(nothing));
}

#[test]
fn initialize_reads_version_and_client() {
    let params = params_of(vec![
        ("protocolVersion", JsonValue::text("2025-01-01")),
        (
            "clientInfo",
            params_of(vec![("name", JsonValue::text("zed")), ("version", JsonValue::text("1.2"))]),
        ),
        ("other", JsonValue::Bool(true)),
    ]);
    assert_eq!(
        InitializeRequest::from_params(&Some(params)),
        Ok(InitializeRequest {
            protocol_version: Some("2025-01-01".to_string()),
            client_info: Some(ClientInfo { name: "zed".to_string(), version: "1.2".to_string() }),
        })
    );
}

#[test]
fn initialize_takes_null_members_as_missing() {
    let params = params_of(vec![
        ("protocolVersion", JsonValue::Null),
        ("clientInfo", JsonValue::Null),
    ]);
    assert_eq!(
        InitializeRequest::from_params(&Some(params)),
        Ok(InitializeRequest { protocol_version: None, client_info: None })
    );
}

#[test]
fn initialize_refuses_params_of_the_wrong_kind() {
    assert_eq!(
        InitializeRequest::from_params(&Some(JsonValue::text("x"))),
        Err(ParamError::NotAnObject)
    );
    assert_eq!(
        InitializeRequest::from_params(&Some(JsonValue::Null)),
        Err(ParamError::NotAnObject)
    );
    assert_eq!(
        InitializeRequest::from_params(&Some(params_of(vec![(
            "protocolVersion",
            JsonValue::integer(1)
        )]))),
        Err(ParamError::InvalidField(ParamField::ProtocolVersion))
    );
    assert_eq!(
        InitializeRequest::from_params(&Some(params_of(vec![(
            "clientInfo",
            JsonValue::text("zed")
        )]))),
        Err(ParamError::InvalidField(ParamField::ClientInfo))
    );
    assert_eq!(
        InitializeRequest::from_params(&Some(params_of(vec![(
            "clientInfo",
            params_of(vec![("version", JsonValue::text("1"))])
        )]))),
        Err(ParamError::MissingField(ParamField::ClientName))
    );
    assert_eq!(
        InitializeRequest::from_params(&Some(params_of(vec![(
            "clientInfo",
            params_of(vec![("name", JsonValue::text("zed")), ("version", JsonValue::Null)])
        )]))),
        Err(ParamError::InvalidField(ParamField::ClientVersion))
    );
}

#[test]
fn client_info_wants_name_and_version() {
    assert_eq!(
        ClientInfo::from_json(&params_of(vec![
            ("name", JsonValue::text("n")),
            ("version", JsonValue::text("v")),
        ])),
        Ok(ClientInfo { name: "n".to_string(), version: "v".to_string() })
    );
    assert_eq!(
        ClientInfo::from_json(&params_of(vec![("name", JsonValue::text("n"))])),
        Err(ParamError::MissingField(ParamField::ClientVersion))
    );
    assert_eq!(
        ClientInfo::from_json(&JsonValue::Array(vec![])),
        Err(ParamError::InvalidField(ParamField::ClientInfo))
    );
}

#[test]
fn new_session_reads_the_directory() {
    assert_eq!(NewSessionRequest::from_params(&None), Ok(NewSessionRequest { cwd: None }));
    assert_eq!(
        NewSessionRequest::from_params(&Some(JsonValue::empty_object())),
        Ok(NewSessionRequest { cwd: None })
    );
    assert_eq!(
        NewSessionRequest::from_params(&Some(params_of(vec![("cwd", JsonValue::Null)]))),
        Ok(NewSessionRequest { cwd: None })
    );
    assert_eq!(
        NewSessionRequest::from_params(&Some(params_of(vec![("cwd", JsonValue::text("/tmp"))]))),
        Ok(NewSessionRequest { cwd: Some("/tmp".to_string()) })
    );
}

#[test]
fn new_session_refuses_params_of_the_wrong_kind() {
    assert_eq!(
        NewSessionRequest::from_params(&Some(JsonValue::Array(vec![]))),
        Err(ParamError::NotAnObject)
    );
    assert_eq!(
        NewSessionRequest::from_params(&Some(params_of(vec![("cwd", JsonValue::Bool(true))]))),
        Err(ParamError::InvalidField(ParamField::Cwd))
    );
}

#[test]
fn conversation_turn_reads_session_and_message() {
    let params = params_of(vec![
        ("sessionId", JsonValue::text("s-1")),
        ("message", JsonValue::text("hello")),
    ]);
    assert_eq!(
        ConversationTurnRequest::from_params(&Some(params)),
        Ok(ConversationTurnRequest { session_id: "s-1".to_string(), message: "hello".to_string() })
    );
}

#[test]
fn conversation_turn_without_params_is_refused() {
    assert_eq!(ConversationTurnRequest::from_params(&None), Err(ParamError::MissingParams));
}

#[test]
fn conversation_turn_without_message_is_refused() {
    let params = params_of(vec![("sessionId", JsonValue::text("s-1"))]);
    assert_eq!(
        ConversationTurnRequest::from_params(&Some(params)),
        Err(ParamError::MissingField(ParamField::Message))
    );
}

#[test]
fn conversation_turn_refuses_what_is_missing_or_of_the_wrong_kind() {
    assert_eq!(
        ConversationTurnRequest::from_params(&Some(JsonValue::text("hello"))),
        Err(ParamError::NotAnObject)
    );
    assert_eq!(
        ConversationTurnRequest::from_params(&Some(params_of(vec![(
            "message",
            JsonValue::text("hello")
        )]))),
        Err(ParamError::MissingField(ParamField::SessionId))
    );
    assert_eq!(
        ConversationTurnRequest::from_params(&Some(params_of(vec![
            ("sessionId", JsonValue::integer(1)),
            ("message", JsonValue::text("hello")),
        ]))),
        Err(ParamError::InvalidField(ParamField::SessionId))
    );
    assert_eq!(
        ConversationTurnRequest::from_params(&Some(params_of(vec![
            ("sessionId", JsonValue::text("s")),
            ("message", JsonValue::Null),
        ]))),
        Err(ParamError::InvalidField(ParamField::Message))
    );
}

#[test]
fn results_are_written_under_their_wire_names() {
    let initialize = InitializeResponse {
        protocol_version: "2025-01-01".to_string(),
        name: "Kiro".to_string(),
        version: "9.9".to_string(),
        capabilities: AgentCapabilities { streaming: true, tools: false },
    };
    assert_eq!(
        initialize.into_json(),
        params_of(vec![
            ("protocolVersion", JsonValue::text("2025-01-01")),
            ("name", JsonValue::text("Kiro")),
            ("version", JsonValue::text("9.9")),
            (
                "capabilities",
                params_of(vec![
                    ("streaming", JsonValue::Bool(true)),
                    ("tools", JsonValue::Bool(false)),
                ])
            ),
        ])
    );
    assert_eq!(
        NewSessionResponse { session_id: "abc".to_string() }.into_json(),
        params_of(vec![("sessionId", JsonValue::text("abc"))])
    );
    assert_eq!(
        ConversationTurnResponse { content: "text".to_string() }.into_json(),
        params_of(vec![("content", JsonValue::text("text"))])
    );
}
