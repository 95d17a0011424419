//! The message shapes of the protocol: the three JSON-RPC envelopes and the
//! typed parameters and results of the methods.

use crate::agent::AgentCapabilities;
use crate::json::{entries_view, lookup, push_member, Json, JsonNumber, JsonValue};
use crate::text::optional_text;
use vstd::prelude::*;
use vstd::string::StringExecFns;

verus! {

/// The protocol version that every envelope written by this crate carries.
pub const JSONRPC_VERSION: &'static str = "2.0";

/// The one error code in use: the reserved JSON-RPC code for internal errors.
pub const INTERNAL_ERROR: i32 = -32603;

/// The view of an optional document.
pub open spec fn optional_json(value: Option<JsonValue>) -> Option<Json> {
    match value {
        Some(v) => Some(v@),
        None => None,
    }
}

/// A call that expects an answer.
#[derive(Debug, PartialEq, Eq)]
pub struct JsonRpcRequest {
    pub jsonrpc: String,
    pub id: JsonValue,
    pub method: String,
    pub params: Option<JsonValue>,
}

/// The error half of a response.
#[derive(Debug, PartialEq, Eq)]
pub struct JsonRpcError {
    pub code: i32,
    pub message: String,
    pub data: Option<JsonValue>,
}

/// The answer to a request.
#[derive(Debug, PartialEq, Eq)]
pub struct JsonRpcResponse {
    pub jsonrpc: String,
    pub id: JsonValue,
    pub result: Option<JsonValue>,
    pub error: Option<JsonRpcError>,
}

/// A call that expects no answer.
#[derive(Debug, PartialEq, Eq)]
pub struct JsonRpcNotification {
    pub jsonrpc: String,
    pub method: String,
    pub params: Option<JsonValue>,
}

/// Any of the three envelopes.
#[derive(Debug, PartialEq, Eq)]
pub enum JsonRpcMessage {
    Request(JsonRpcRequest),
    Response(JsonRpcResponse),
    Notification(JsonRpcNotification),
}

/// The view of a [`JsonRpcRequest`].
pub struct RequestView {
    pub jsonrpc: Seq<char>,
    pub id: Json,
    pub method: Seq<char>,
    pub params: Option<Json>,
}

/// The view of a [`JsonRpcError`].
pub struct ErrorView {
    pub code: i32,
    pub message: Seq<char>,
    pub data: Option<Json>,
}

/// The view of a [`JsonRpcResponse`].
pub struct ResponseView {
    pub jsonrpc: Seq<char>,
    pub id: Json,
    pub result: Option<Json>,
    pub error: Option<ErrorView>,
}

/// The view of a [`JsonRpcNotification`].
pub struct NotificationView {
    pub jsonrpc: Seq<char>,
    pub method: Seq<char>,
    pub params: Option<Json>,
}

/// The view of a [`JsonRpcMessage`].
pub enum MessageView {
    Request(RequestView),
    Response(ResponseView),
    Notification(NotificationView),
}

impl View for JsonRpcRequest {
    type V = RequestView;

    open spec fn view(&self) -> RequestView {
        RequestView {
            jsonrpc: self.jsonrpc@,
            id: self.id@,
            method: self.method@,
            params: optional_json(self.params),
        }
    }
}

impl View for JsonRpcError {
    type V = ErrorView;

    open spec fn view(&self) -> ErrorView {
        ErrorView { code: self.code, message: self.message@, data: optional_json(self.data) }
    }
}

/// The view of an optional error.
pub open spec fn optional_error(error: Option<JsonRpcError>) -> Option<ErrorView> {
    match error {
        Some(e) => Some(e@),
        None => None,
    }
}

impl View for JsonRpcResponse {
    type V = ResponseView;

    open spec fn view(&self) -> ResponseView {
        ResponseView {
            jsonrpc: self.jsonrpc@,
            id: self.id@,
            result: optional_json(self.result),
            error: optional_error(self.error),
        }
    }
}

impl View for JsonRpcNotification {
    type V = NotificationView;

    open spec fn view(&self) -> NotificationView {
        NotificationView {
            jsonrpc: self.jsonrpc@,
            method: self.method@,
            params: optional_json(self.params),
        }
    }
}

impl View for JsonRpcMessage {
    type V = MessageView;

    open spec fn view(&self) -> MessageView {
        match self {
            JsonRpcMessage::Request(request) => MessageView::Request(request@),
            JsonRpcMessage::Response(response) => MessageView::Response(response@),
            JsonRpcMessage::Notification(notification) => MessageView::Notification(
                notification@,
            ),
        }
    }
}

/// Why a document is none of the three envelopes.
#[derive(Clone, Copy, Debug, PartialEq, Eq, Structural)]
pub enum DecodeError {
    /// The document has the members of no envelope.
    NoEnvelopeMatches,
}

impl ResponseView {
    /// A response carries a result or an error, never both and never neither.
    pub open spec fn well_formed(self) -> bool {
        (self.result is Some) != (self.error is Some)
    }

    /// The successful answer to request `id`, with `result`.
    pub open spec fn success(id: Json, result: Json) -> ResponseView {
        ResponseView { jsonrpc: JSONRPC_VERSION@, id, result: Some(result), error: None }
    }

    /// The failed answer to request `id`, with `code` and `message` and no
    /// further data.
    pub open spec fn failure(id: Json, code: i32, message: Seq<char>) -> ResponseView {
        ResponseView {
            jsonrpc: JSONRPC_VERSION@,
            id,
            result: None,
            error: Some(ErrorView { code, message, data: None }),
        }
    }
}

impl JsonRpcResponse {
    /// The successful answer to request `id`.
    pub fn success(id: JsonValue, result: JsonValue) -> (response: Self)
        ensures
            response@ == ResponseView::success(id@, result@),
            response.id == id,
            response.result == Some(result),
    {
        Self { jsonrpc: JSONRPC_VERSION.to_owned(), id, result: Some(result), error: None }
    }

    /// The failed answer to request `id`.
    pub fn error(id: JsonValue, code: i32, message: String) -> (response: Self)
        ensures
            response@ == ResponseView::failure(id@, code, message@),
            response.id == id,
    {
        Self {
            jsonrpc: JSONRPC_VERSION.to_owned(),
            id,
            result: None,
            error: Some(JsonRpcError { code, message, data: None }),
        }
    }
}

/// The members of `entries`, followed by `key: value` where there is a value.
pub open spec fn with_optional(
    entries: Seq<(Seq<char>, Json)>,
    key: Seq<char>,
    value: Option<Json>,
) -> Seq<(Seq<char>, Json)> {
    match value {
        Some(v) => entries.push((key, v)),
        None => entries,
    }
}

/// The error code that a JSON number holds: an integer within 32 bits.
pub open spec fn error_code(n: JsonNumber) -> Option<i32> {
    match n {
        JsonNumber::PosInt(u) => if u <= i32::MAX {
            Some(u as i32)
        } else {
            None
        },
        JsonNumber::NegInt(i) => if i32::MIN <= i <= i32::MAX {
            Some(i as i32)
        } else {
            None
        },
        JsonNumber::Float(_) => None,
    }
}

impl RequestView {
    /// `doc` read as a request: it has to have a version and a method, both
    /// strings, and an id of any kind; `params` that are missing or `null`
    /// are no parameters.
    pub open spec fn decode(doc: Json) -> Option<RequestView> {
        match (doc.text_member("jsonrpc"@), doc.member("id"@), doc.text_member("method"@)) {
            (Some(jsonrpc), Some(id), Some(method)) => Some(
                RequestView { jsonrpc, id, method, params: doc.present_member("params"@) },
            ),
            _ => None,
        }
    }

    /// The document that the request is written as.
    pub open spec fn json(self) -> Json {
        Json::Object(
            with_optional(
                seq![
                    ("jsonrpc"@, Json::Text(self.jsonrpc)),
                    ("id"@, self.id),
                    ("method"@, Json::Text(self.method)),
                ],
                "params"@,
                self.params,
            ),
        )
    }
}

impl ErrorView {
    /// `doc` read as an error payload: it has to have an integer code within
    /// 32 bits and a message that is a string; `data` that is missing or
    /// `null` is no data.
    pub open spec fn decode(doc: Json) -> Option<ErrorView> {
        match (doc.member("code"@), doc.text_member("message"@)) {
            (Some(Json::Number(n)), Some(message)) => match error_code(n) {
                Some(code) => Some(
                    ErrorView { code, message, data: doc.present_member("data"@) },
                ),
                None => None,
            },
            _ => None,
        }
    }

    /// The document that the error is written as.
    pub open spec fn json(self) -> Json {
        Json::Object(
            with_optional(
                seq![
                    ("code"@, Json::integer(self.code)),
                    ("message"@, Json::Text(self.message)),
                ],
                "data"@,
                self.data,
            ),
        )
    }
}

/// The document that an optional error is written as.
pub open spec fn optional_error_json(error: Option<ErrorView>) -> Option<Json> {
    match error {
        Some(e) => Some(e.json()),
        None => None,
    }
}

impl ResponseView {
    /// `doc` read as a response: it has to have a version that is a string
    /// and an id; a `result` or `error` that is missing or `null` is none,
    /// and an error that is there has to be a well-shaped payload.
    pub open spec fn decode(doc: Json) -> Option<ResponseView> {
        match (doc.text_member("jsonrpc"@), doc.member("id"@)) {
            (Some(jsonrpc), Some(id)) => match doc.present_member("error"@) {
                None => Some(
                    ResponseView {
                        jsonrpc,
                        id,
                        result: doc.present_member("result"@),
                        error: None,
                    },
                ),
                Some(payload) => match ErrorView::decode(payload) {
                    Some(error) => Some(
                        ResponseView {
                            jsonrpc,
                            id,
                            result: doc.present_member("result"@),
                            error: Some(error),
                        },
                    ),
                    None => None,
                },
            },
            _ => None,
        }
    }

    /// The document that the response is written as: a result or an error
    /// that is absent is left out.
    pub open spec fn json(self) -> Json {
        Json::Object(
            with_optional(
                with_optional(
                    seq![("jsonrpc"@, Json::Text(self.jsonrpc)), ("id"@, self.id)],
                    "result"@,
                    self.result,
                ),
                "error"@,
                optional_error_json(self.error),
            ),
        )
    }
}

impl NotificationView {
    /// `doc` read as a notification: it has to have a version and a method,
    /// both strings; `params` that are missing or `null` are no parameters.
    pub open spec fn decode(doc: Json) -> Option<NotificationView> {
        match (doc.text_member("jsonrpc"@), doc.text_member("method"@)) {
            (Some(jsonrpc), Some(method)) => Some(
                NotificationView { jsonrpc, method, params: doc.present_member("params"@) },
            ),
            _ => None,
        }
    }

    /// The document that the notification is written as.
    pub open spec fn json(self) -> Json {
        Json::Object(
            with_optional(
                seq![("jsonrpc"@, Json::Text(self.jsonrpc)), ("method"@, Json::Text(self.method))],
                "params"@,
                self.params,
            ),
        )
    }
}

impl MessageView {
    /// `doc` read as an envelope.  The three shapes are tried in the order
    /// request, response, notification, and the first that fits is taken;
    /// members that the shape does not name are ignored.
    pub open spec fn decode(doc: Json) -> Option<MessageView> {
        match RequestView::decode(doc) {
            Some(request) => Some(MessageView::Request(request)),
            None => match ResponseView::decode(doc) {
                Some(response) => Some(MessageView::Response(response)),
                None => match NotificationView::decode(doc) {
                    Some(notification) => Some(MessageView::Notification(notification)),
                    None => None,
                },
            },
        }
    }

    /// The document that the message is written as.
    pub open spec fn json(self) -> Json {
        match self {
            MessageView::Request(request) => request.json(),
            MessageView::Response(response) => response.json(),
            MessageView::Notification(notification) => notification.json(),
        }
    }
}

/// The view of an optional message.
pub open spec fn optional_message(message: Option<JsonRpcMessage>) -> Option<MessageView> {
    match message {
        Some(m) => Some(m@),
        None => None,
    }
}

impl JsonRpcRequest {
    fn from_json(doc: &JsonValue) -> (decoded: Option<Self>)
        ensures
            match decoded {
                Some(request) => RequestView::decode(doc@) == Some(request@),
                None => RequestView::decode(doc@) is None,
            },
    {
        let jsonrpc = match doc.text_member("jsonrpc") {
            Some(text) => text,
            None => {
                return None;
            },
        };
        let id = match doc.member("id") {
            Some(value) => value,
            None => {
                return None;
            },
        };
        let method = match doc.text_member("method") {
            Some(text) => text,
            None => {
                return None;
            },
        };
        let params = match doc.present_member("params") {
            Some(value) => Some(value.deep_clone()),
            None => None,
        };
        Some(
            JsonRpcRequest {
                jsonrpc: jsonrpc.to_owned(),
                id: id.deep_clone(),
                method: method.to_owned(),
                params,
            },
        )
    }

    /// Writes this request as a document.
    pub fn into_json(self) -> (doc: JsonValue)
        ensures
            doc@ == self@.json(),
    {
        let mut entries: Vec<(String, JsonValue)> = Vec::new();
        assert(entries_view(entries@) =~= Seq::empty());
        push_member(&mut entries, "jsonrpc", JsonValue::Text(self.jsonrpc));
        push_member(&mut entries, "id", self.id);
        push_member(&mut entries, "method", JsonValue::Text(self.method));
        match self.params {
            Some(params) => {
                push_member(&mut entries, "params", params);
            },
            None => {},
        }
        assert(entries_view(entries@) =~= self@.json()->Object_0);
        JsonValue::Object(entries)
    }
}

impl JsonRpcError {
    fn from_json(doc: &JsonValue) -> (decoded: Option<Self>)
        ensures
            match decoded {
                Some(error) => ErrorView::decode(doc@) == Some(error@),
                None => ErrorView::decode(doc@) is None,
            },
    {
        let code: i32 = match doc.member("code") {
            Some(JsonValue::Number(JsonNumber::PosInt(u))) => {
                if *u <= 0x7fff_ffff {
                    *u as i32
                } else {
                    return None;
                }
            },
            Some(JsonValue::Number(JsonNumber::NegInt(i))) => {
                if -0x8000_0000 <= *i && *i <= 0x7fff_ffff {
                    *i as i32
                } else {
                    return None;
                }
            },
            _ => {
                return None;
            },
        };
        let message = match doc.text_member("message") {
            Some(text) => text,
            None => {
                return None;
            },
        };
        let data = match doc.present_member("data") {
            Some(value) => Some(value.deep_clone()),
            None => None,
        };
        Some(JsonRpcError { code, message: message.to_owned(), data })
    }

    /// Writes this error as a document.
    pub fn into_json(self) -> (doc: JsonValue)
        ensures
            doc@ == self@.json(),
    {
        let mut entries: Vec<(String, JsonValue)> = Vec::new();
        assert(entries_view(entries@) =~= Seq::empty());
        push_member(&mut entries, "code", JsonValue::integer(self.code));
        push_member(&mut entries, "message", JsonValue::Text(self.message));
        match self.data {
            Some(data) => {
                push_member(&mut entries, "data", data);
            },
            None => {},
        }
        assert(entries_view(entries@) =~= self@.json()->Object_0);
        JsonValue::Object(entries)
    }
}

impl JsonRpcResponse {
    fn from_json(doc: &JsonValue) -> (decoded: Option<Self>)
        ensures
            match decoded {
                Some(response) => ResponseView::decode(doc@) == Some(response@),
                None => ResponseView::decode(doc@) is None,
            },
    {
        let jsonrpc = match doc.text_member("jsonrpc") {
            Some(text) => text,
            None => {
                return None;
            },
        };
        let id = match doc.member("id") {
            Some(value) => value,
            None => {
                return None;
            },
        };
        let result = match doc.present_member("result") {
            Some(value) => Some(value.deep_clone()),
            None => None,
        };
        let error = match doc.present_member("error") {
            Some(value) => match JsonRpcError::from_json(value) {
                Some(error) => Some(error),
                None => {
                    return None;
                },
            },
            None => None,
        };
        Some(JsonRpcResponse { jsonrpc: jsonrpc.to_owned(), id: id.deep_clone(), result, error })
    }

    /// Writes this response as a document.
    pub fn into_json(self) -> (doc: JsonValue)
        ensures
            doc@ == self@.json(),
    {
        let mut entries: Vec<(String, JsonValue)> = Vec::new();
        assert(entries_view(entries@) =~= Seq::empty());
        push_member(&mut entries, "jsonrpc", JsonValue::Text(self.jsonrpc));
        push_member(&mut entries, "id", self.id);
        match self.result {
            Some(result) => {
                push_member(&mut entries, "result", result);
            },
            None => {},
        }
        match self.error {
            Some(error) => {
                let payload = error.into_json();
                push_member(&mut entries, "error", payload);
            },
            None => {},
        }
        assert(entries_view(entries@) =~= self@.json()->Object_0);
        JsonValue::Object(entries)
    }
}

impl JsonRpcNotification {
    fn from_json(doc: &JsonValue) -> (decoded: Option<Self>)
        ensures
            match decoded {
                Some(notification) => NotificationView::decode(doc@) == Some(notification@),
                None => NotificationView::decode(doc@) is None,
            },
    {
        let jsonrpc = match doc.text_member("jsonrpc") {
            Some(text) => text,
            None => {
                return None;
            },
        };
        let method = match doc.text_member("method") {
            Some(text) => text,
            None => {
                return None;
            },
        };
        let params = match doc.present_member("params") {
            Some(value) => Some(value.deep_clone()),
            None => None,
        };
        Some(JsonRpcNotification { jsonrpc: jsonrpc.to_owned(), method: method.to_owned(), params })
    }

    /// Writes this notification as a document.
    pub fn into_json(self) -> (doc: JsonValue)
        ensures
            doc@ == self@.json(),
    {
        let mut entries: Vec<(String, JsonValue)> = Vec::new();
        assert(entries_view(entries@) =~= Seq::empty());
        push_member(&mut entries, "jsonrpc", JsonValue::Text(self.jsonrpc));
        push_member(&mut entries, "method", JsonValue::Text(self.method));
        match self.params {
            Some(params) => {
                push_member(&mut entries, "params", params);
            },
            None => {},
        }
        assert(entries_view(entries@) =~= self@.json()->Object_0);
        JsonValue::Object(entries)
    }
}

impl JsonRpcMessage {
    /// Reads a document as an envelope, or says that it is none.
    pub fn from_json(doc: &JsonValue) -> (decoded: Result<JsonRpcMessage, DecodeError>)
        ensures
            match decoded {
                Ok(message) => MessageView::decode(doc@) == Some(message@),
                Err(_) => MessageView::decode(doc@) is None,
            },
    {
        match JsonRpcRequest::from_json(doc) {
            Some(request) => {
                return Ok(JsonRpcMessage::Request(request));
            },
            None => {},
        }
        match JsonRpcResponse::from_json(doc) {
            Some(response) => {
                return Ok(JsonRpcMessage::Response(response));
            },
            None => {},
        }
        match JsonRpcNotification::from_json(doc) {
            Some(notification) => Ok(JsonRpcMessage::Notification(notification)),
            None => Err(DecodeError::NoEnvelopeMatches),
        }
    }

    /// Writes this message as a document.
    pub fn into_json(self) -> (doc: JsonValue)
        ensures
            doc@ == self@.json(),
    {
        match self {
            JsonRpcMessage::Request(request) => request.into_json(),
            JsonRpcMessage::Response(response) => response.into_json(),
            JsonRpcMessage::Notification(notification) => notification.into_json(),
        }
    }
}

/// The keys of the members of an envelope and of an error payload are
/// different from one another.
proof fn lemma_envelope_keys()
    ensures
        "jsonrpc"@.len() == 7,
        "id"@.len() == 2,
        "method"@.len() == 6 && "method"@[0] == 'm',
        "params"@.len() == 6 && "params"@[0] == 'p',
        "result"@.len() == 6 && "result"@[0] == 'r',
        "error"@.len() == 5,
        "code"@.len() == 4 && "code"@[0] == 'c',
        "message"@.len() == 7,
        "data"@.len() == 4 && "data"@[0] == 'd',
{
    reveal_strlit("jsonrpc");
    reveal_strlit("id");
    reveal_strlit("method");
    reveal_strlit("params");
    reveal_strlit("result");
    reveal_strlit("error");
    reveal_strlit("code");
    reveal_strlit("message");
    reveal_strlit("data");
}

impl RequestView {
    /// No optional member holds `null`, which would be read back as a
    /// missing member.
    pub open spec fn writable(self) -> bool {
        !(self.params matches Some(Json::Null))
    }
}

impl ErrorView {
    /// No optional member holds `null`.
    pub open spec fn writable(self) -> bool {
        !(self.data matches Some(Json::Null))
    }
}

impl ResponseView {
    /// No optional member holds `null`, in the response or in its error.
    pub open spec fn writable(self) -> bool {
        &&& !(self.result matches Some(Json::Null))
        &&& self.error matches Some(e) ==> e.writable()
    }
}

impl NotificationView {
    /// No optional member holds `null`.
    pub open spec fn writable(self) -> bool {
        !(self.params matches Some(Json::Null))
    }
}

impl MessageView {
    /// No optional member holds `null`.
    pub open spec fn writable(self) -> bool {
        match self {
            MessageView::Request(request) => request.writable(),
            MessageView::Response(response) => response.writable(),
            MessageView::Notification(notification) => notification.writable(),
        }
    }
}

/// A request that is written reads back as the same request.
pub proof fn lemma_written_request_reads_back(request: RequestView)
    requires
        request.writable(),
    ensures
        RequestView::decode(request.json()) == Some(request),
{
    lemma_envelope_keys();
    reveal_with_fuel(lookup, 5);
}

/// An error that is written reads back as the same error.
pub proof fn lemma_written_error_reads_back(error: ErrorView)
    requires
        error.writable(),
    ensures
        ErrorView::decode(error.json()) == Some(error),
{
    lemma_envelope_keys();
    reveal_with_fuel(lookup, 4);
}

/// A response that is written reads back as the same response, and not as a
/// request.
pub proof fn lemma_written_response_reads_back(response: ResponseView)
    requires
        response.writable(),
    ensures
        RequestView::decode(response.json()) is None,
        ResponseView::decode(response.json()) == Some(response),
{
    lemma_envelope_keys();
    reveal_with_fuel(lookup, 5);
    match response.error {
        Some(e) => {
            lemma_written_error_reads_back(e);
        },
        None => {},
    }
}

/// A notification that is written reads back as the same notification, and
/// not as a request or a response.
pub proof fn lemma_written_notification_reads_back(notification: NotificationView)
    requires
        notification.writable(),
    ensures
        RequestView::decode(notification.json()) is None,
        ResponseView::decode(notification.json()) is None,
        NotificationView::decode(notification.json()) == Some(notification),
{
    lemma_envelope_keys();
    reveal_with_fuel(lookup, 4);
}

/// What is written reads back as what it was: writing a message and reading
/// the document gives the message again, as long as no optional member holds
/// `null`.
pub proof fn lemma_written_message_reads_back(message: MessageView)
    requires
        message.writable(),
    ensures
        MessageView::decode(message.json()) == Some(message),
{
    match message {
        MessageView::Request(request) => lemma_written_request_reads_back(request),
        MessageView::Response(response) => lemma_written_response_reads_back(response),
        MessageView::Notification(notification) => lemma_written_notification_reads_back(
            notification,
        ),
    }
}

/// A member of the parameters of a method.
#[derive(Clone, Copy, Debug, PartialEq, Eq, Structural)]
pub enum ParamField {
    ProtocolVersion,
    ClientInfo,
    ClientName,
    ClientVersion,
    Cwd,
    SessionId,
    Message,
}

impl ParamField {
    /// The key under which the member is written.
    pub open spec fn key(self) -> Seq<char> {
        match self {
            ParamField::ProtocolVersion => "protocolVersion"@,
            ParamField::ClientInfo => "clientInfo"@,
            ParamField::ClientName => "name"@,
            ParamField::ClientVersion => "version"@,
            ParamField::Cwd => "cwd"@,
            ParamField::SessionId => "sessionId"@,
            ParamField::Message => "message"@,
        }
    }

    /// The key under which the member is written.
    pub fn name(self) -> (name: &'static str)
        ensures
            name@ == self.key(),
    {
        match self {
            ParamField::ProtocolVersion => "protocolVersion",
            ParamField::ClientInfo => "clientInfo",
            ParamField::ClientName => "name",
            ParamField::ClientVersion => "version",
            ParamField::Cwd => "cwd",
            ParamField::SessionId => "sessionId",
            ParamField::Message => "message",
        }
    }
}

/// Why the parameters of a request were refused.
#[derive(Clone, Copy, Debug, PartialEq, Eq, Structural)]
pub enum ParamError {
    /// The method needs parameters and the request has none.
    MissingParams,
    /// The parameters are not an object.
    NotAnObject,
    /// A member that the method needs is missing.
    MissingField(ParamField),
    /// A member holds a value of the wrong kind.
    InvalidField(ParamField),
}

impl ParamError {
    /// The text that describes this error to the client.
    pub open spec fn text(self) -> Seq<char> {
        match self {
            ParamError::MissingParams => "Missing params"@,
            ParamError::NotAnObject => "Invalid params: expected an object"@,
            ParamError::MissingField(field) => "Invalid params: missing field `"@ + field.key()
                + "`"@,
            ParamError::InvalidField(field) => "Invalid params: invalid value for field `"@
                + field.key() + "`"@,
        }
    }

    /// The text that describes this error to the client.
    pub fn message(&self) -> (message: String)
        ensures
            message@ == self.text(),
    {
        match self {
            ParamError::MissingParams => "Missing params".to_owned(),
            ParamError::NotAnObject => "Invalid params: expected an object".to_owned(),
            ParamError::MissingField(field) => {
                let mut message = "Invalid params: missing field `".to_owned();
                message.append(field.name());
                message.append("`");
                message
            },
            ParamError::InvalidField(field) => {
                let mut message = "Invalid params: invalid value for field `".to_owned();
                message.append(field.name());
                message.append("`");
                message
            },
        }
    }
}

/// The member `field` of `doc`, which has to be there and has to be a string.
pub open spec fn required_text(doc: Json, field: ParamField) -> Result<Seq<char>, ParamError> {
    match doc.member(field.key()) {
        None => Err(ParamError::MissingField(field)),
        Some(Json::Text(text)) => Ok(text),
        Some(_) => Err(ParamError::InvalidField(field)),
    }
}

/// The member `field` of `doc`, which may be missing or `null` and has to be
/// a string otherwise.
pub open spec fn permitted_text(doc: Json, field: ParamField) -> Result<
    Option<Seq<char>>,
    ParamError,
> {
    match doc.present_member(field.key()) {
        None => Ok(None),
        Some(Json::Text(text)) => Ok(Some(text)),
        Some(_) => Err(ParamError::InvalidField(field)),
    }
}

fn read_required_text(doc: &JsonValue, field: ParamField) -> (text: Result<String, ParamError>)
    ensures
        match text {
            Ok(s) => required_text(doc@, field) == Ok::<Seq<char>, ParamError>(s@),
            Err(e) => required_text(doc@, field) == Err::<Seq<char>, ParamError>(e),
        },
{
    match doc.member(field.name()) {
        None => Err(ParamError::MissingField(field)),
        Some(value) => match value.as_text() {
            Some(s) => Ok(s.to_owned()),
            None => Err(ParamError::InvalidField(field)),
        },
    }
}

fn read_permitted_text(doc: &JsonValue, field: ParamField) -> (text: Result<
    Option<String>,
    ParamError,
>)
    ensures
        match text {
            Ok(s) => permitted_text(doc@, field) == Ok::<Option<Seq<char>>, ParamError>(
                optional_text(s),
            ),
            Err(e) => permitted_text(doc@, field) == Err::<Option<Seq<char>>, ParamError>(e),
        },
{
    match doc.present_member(field.name()) {
        None => Ok(None),
        Some(value) => match value.as_text() {
            Some(s) => Ok(Some(s.to_owned())),
            None => Err(ParamError::InvalidField(field)),
        },
    }
}

/// Who the client says it is.
#[derive(Clone, Debug, PartialEq, Eq)]
pub struct ClientInfo {
    pub name: String,
    pub version: String,
}

/// The view of a [`ClientInfo`].
pub struct ClientInfoView {
    pub name: Seq<char>,
    pub version: Seq<char>,
}

impl View for ClientInfo {
    type V = ClientInfoView;

    open spec fn view(&self) -> ClientInfoView {
        ClientInfoView { name: self.name@, version: self.version@ }
    }
}

impl ClientInfoView {
    /// `doc` read as a client description: it has to be an object with a name
    /// and a version, both strings.
    pub open spec fn decode(doc: Json) -> Result<ClientInfoView, ParamError> {
        if !(doc is Object) {
            Err(ParamError::InvalidField(ParamField::ClientInfo))
        } else {
            match required_text(doc, ParamField::ClientName) {
                Err(e) => Err(e),
                Ok(name) => match required_text(doc, ParamField::ClientVersion) {
                    Err(e) => Err(e),
                    Ok(version) => Ok(ClientInfoView { name, version }),
                },
            }
        }
    }
}

impl ClientInfo {
    /// Reads a client description.
    pub fn from_json(doc: &JsonValue) -> (decoded: Result<Self, ParamError>)
        ensures
            match decoded {
                Ok(info) => ClientInfoView::decode(doc@) == Ok::<ClientInfoView, ParamError>(
                    info@,
                ),
                Err(e) => ClientInfoView::decode(doc@) == Err::<ClientInfoView, ParamError>(e),
            },
    {
        if !doc.is_object() {
            return Err(ParamError::InvalidField(ParamField::ClientInfo));
        }
        let name = match read_required_text(doc, ParamField::ClientName) {
            Ok(text) => text,
            Err(e) => {
                return Err(e);
            },
        };
        let version = match read_required_text(doc, ParamField::ClientVersion) {
            Ok(text) => text,
            Err(e) => {
                return Err(e);
            },
        };
        Ok(ClientInfo { name, version })
    }
}

/// The parameters of `initialize`.
#[derive(Clone, Debug, PartialEq, Eq)]
pub struct InitializeRequest {
    pub protocol_version: Option<String>,
    pub client_info: Option<ClientInfo>,
}

/// The view of an [`InitializeRequest`].
pub struct InitializeRequestView {
    pub protocol_version: Option<Seq<char>>,
    pub client_info: Option<ClientInfoView>,
}

/// The view of an optional client description.
pub open spec fn optional_client(info: Option<ClientInfo>) -> Option<ClientInfoView> {
    match info {
        Some(i) => Some(i@),
        None => None,
    }
}

impl View for InitializeRequest {
    type V = InitializeRequestView;

    open spec fn view(&self) -> InitializeRequestView {
        InitializeRequestView {
            protocol_version: optional_text(self.protocol_version),
            client_info: optional_client(self.client_info),
        }
    }
}

impl InitializeRequestView {
    /// `params` read as the parameters of `initialize`.  Missing parameters
    /// are in order and say nothing; given ones have to be an object, in
    /// which `protocolVersion`, if there, is a string and `clientInfo`, if
    /// there, a client description.
    pub open spec fn decode(params: Option<Json>) -> Result<InitializeRequestView, ParamError> {
        match params {
            None => Ok(InitializeRequestView { protocol_version: None, client_info: None }),
            Some(doc) => if !(doc is Object) {
                Err(ParamError::NotAnObject)
            } else {
                match permitted_text(doc, ParamField::ProtocolVersion) {
                    Err(e) => Err(e),
                    Ok(protocol_version) => match doc.present_member(
                        ParamField::ClientInfo.key(),
                    ) {
                        None => Ok(InitializeRequestView { protocol_version, client_info: None }),
                        Some(info) => match ClientInfoView::decode(info) {
                            Err(e) => Err(e),
                            Ok(client) => Ok(
                                InitializeRequestView {
                                    protocol_version,
                                    client_info: Some(client),
                                },
                            ),
                        },
                    },
                }
            },
        }
    }
}

impl Default for InitializeRequest {
    /// The parameters that say nothing.
    fn default() -> (request: Self)
        ensures
            request@ == (InitializeRequestView { protocol_version: None, client_info: None }),
    {
        InitializeRequest { protocol_version: None, client_info: None }
    }
}

impl InitializeRequest {
    /// Reads the parameters of `initialize`.
    pub fn from_params(params: &Option<JsonValue>) -> (decoded: Result<Self, ParamError>)
        ensures
            match decoded {
                Ok(request) => InitializeRequestView::decode(optional_json(*params)) == Ok::<
                    InitializeRequestView,
                    ParamError,
                >(request@),
                Err(e) => InitializeRequestView::decode(optional_json(*params)) == Err::<
                    InitializeRequestView,
                    ParamError,
                >(e),
            },
    {
        match params {
            None => Ok(InitializeRequest::default()),
            Some(doc) => {
                if !doc.is_object() {
                    return Err(ParamError::NotAnObject);
                }
                let protocol_version = match read_permitted_text(
                    doc,
                    ParamField::ProtocolVersion,
                ) {
                    Ok(text) => text,
                    Err(e) => {
                        return Err(e);
                    },
                };
                let client_info = match doc.present_member(ParamField::ClientInfo.name()) {
                    Some(info) => match ClientInfo::from_json(info) {
                        Ok(client) => Some(client),
                        Err(e) => {
                            return Err(e);
                        },
                    },
                    None => None,
                };
                Ok(InitializeRequest { protocol_version, client_info })
            },
        }
    }
}

/// The result of `initialize`.
#[derive(Clone, Debug, PartialEq, Eq)]
pub struct InitializeResponse {
    pub protocol_version: String,
    pub name: String,
    pub version: String,
    pub capabilities: AgentCapabilities,
}

/// The view of an [`InitializeResponse`].
pub struct InitializeResponseView {
    pub protocol_version: Seq<char>,
    pub name: Seq<char>,
    pub version: Seq<char>,
    pub capabilities: AgentCapabilities,
}

impl View for InitializeResponse {
    type V = InitializeResponseView;

    open spec fn view(&self) -> InitializeResponseView {
        InitializeResponseView {
            protocol_version: self.protocol_version@,
            name: self.name@,
            version: self.version@,
            capabilities: self.capabilities,
        }
    }
}

impl InitializeResponseView {
    /// The document that the result is written as.
    pub open spec fn json(self) -> Json {
        Json::Object(
            seq![
                ("protocolVersion"@, Json::Text(self.protocol_version)),
                ("name"@, Json::Text(self.name)),
                ("version"@, Json::Text(self.version)),
                (
                    "capabilities"@,
                    Json::Object(
                        seq![
                            ("streaming"@, Json::Bool(self.capabilities.streaming)),
                            ("tools"@, Json::Bool(self.capabilities.tools)),
                        ],
                    ),
                ),
            ],
        )
    }
}

impl InitializeResponse {
    /// Writes this result as a document.
    pub fn into_json(self) -> (doc: JsonValue)
        ensures
            doc@ == self@.json(),
    {
        let mut capabilities: Vec<(String, JsonValue)> = Vec::new();
        assert(entries_view(capabilities@) =~= Seq::empty());
        push_member(&mut capabilities, "streaming", JsonValue::Bool(self.capabilities.streaming));
        push_member(&mut capabilities, "tools", JsonValue::Bool(self.capabilities.tools));
        assert(entries_view(capabilities@) =~= self@.json()->Object_0[3].1->Object_0);
        let mut entries: Vec<(String, JsonValue)> = Vec::new();
        assert(entries_view(entries@) =~= Seq::empty());
        push_member(&mut entries, "protocolVersion", JsonValue::Text(self.protocol_version));
        push_member(&mut entries, "name", JsonValue::Text(self.name));
        push_member(&mut entries, "version", JsonValue::Text(self.version));
        push_member(&mut entries, "capabilities", JsonValue::Object(capabilities));
        assert(entries_view(entries@) =~= self@.json()->Object_0);
        JsonValue::Object(entries)
    }
}

/// The parameters of `newSession`.
#[derive(Clone, Debug, PartialEq, Eq)]
pub struct NewSessionRequest {
    pub cwd: Option<String>,
}

/// The view of a [`NewSessionRequest`].
pub struct NewSessionRequestView {
    pub cwd: Option<Seq<char>>,
}

impl View for NewSessionRequest {
    type V = NewSessionRequestView;

    open spec fn view(&self) -> NewSessionRequestView {
        NewSessionRequestView { cwd: optional_text(self.cwd) }
    }
}

impl NewSessionRequestView {
    /// `params` read as the parameters of `newSession`.  Missing parameters
    /// are in order and name no directory; given ones have to be an object,
    /// in which `cwd`, if there, is a string.
    pub open spec fn decode(params: Option<Json>) -> Result<NewSessionRequestView, ParamError> {
        match params {
            None => Ok(NewSessionRequestView { cwd: None }),
            Some(doc) => if !(doc is Object) {
                Err(ParamError::NotAnObject)
            } else {
                match permitted_text(doc, ParamField::Cwd) {
                    Err(e) => Err(e),
                    Ok(cwd) => Ok(NewSessionRequestView { cwd }),
                }
            },
        }
    }
}

impl Default for NewSessionRequest {
    /// The parameters that name no directory.
    fn default() -> (request: Self)
        ensures
            request@ == (NewSessionRequestView { cwd: None }),
    {
        NewSessionRequest { cwd: None }
    }
}

impl NewSessionRequest {
    /// Reads the parameters of `newSession`.
    pub fn from_params(params: &Option<JsonValue>) -> (decoded: Result<Self, ParamError>)
        ensures
            match decoded {
                Ok(request) => NewSessionRequestView::decode(optional_json(*params)) == Ok::<
                    NewSessionRequestView,
                    ParamError,
                >(request@),
                Err(e) => NewSessionRequestView::decode(optional_json(*params)) == Err::<
                    NewSessionRequestView,
                    ParamError,
                >(e),
            },
    {
        match params {
            None => Ok(NewSessionRequest::default()),
            Some(doc) => {
                if !doc.is_object() {
                    return Err(ParamError::NotAnObject);
                }
                match read_permitted_text(doc, ParamField::Cwd) {
                    Ok(cwd) => Ok(NewSessionRequest { cwd }),
                    Err(e) => Err(e),
                }
            },
        }
    }
}

/// The result of `newSession`.
#[derive(Clone, Debug, PartialEq, Eq)]
pub struct NewSessionResponse {
    pub session_id: String,
}

/// The view of a [`NewSessionResponse`].
pub struct NewSessionResponseView {
    pub session_id: Seq<char>,
}

impl View for NewSessionResponse {
    type V = NewSessionResponseView;

    open spec fn view(&self) -> NewSessionResponseView {
        NewSessionResponseView { session_id: self.session_id@ }
    }
}

impl NewSessionResponseView {
    /// The document that the result is written as.
    pub open spec fn json(self) -> Json {
        Json::Object(seq![("sessionId"@, Json::Text(self.session_id))])
    }
}

impl NewSessionResponse {
    /// Writes this result as a document.
    pub fn into_json(self) -> (doc: JsonValue)
        ensures
            doc@ == self@.json(),
    {
        let mut entries: Vec<(String, JsonValue)> = Vec::new();
        assert(entries_view(entries@) =~= Seq::empty());
        push_member(&mut entries, "sessionId", JsonValue::Text(self.session_id));
        assert(entries_view(entries@) =~= self@.json()->Object_0);
        JsonValue::Object(entries)
    }
}

/// The parameters of `conversationTurn`.
#[derive(Clone, Debug, PartialEq, Eq)]
pub struct ConversationTurnRequest {
    pub session_id: String,
    pub message: String,
}

/// The view of a [`ConversationTurnRequest`].
pub struct ConversationTurnRequestView {
    pub session_id: Seq<char>,
    pub message: Seq<char>,
}

impl View for ConversationTurnRequest {
    type V = ConversationTurnRequestView;

    open spec fn view(&self) -> ConversationTurnRequestView {
        ConversationTurnRequestView { session_id: self.session_id@, message: self.message@ }
    }
}

impl ConversationTurnRequestView {
    /// `params` read as the parameters of `conversationTurn`: they have to be
    /// there and be an object with `sessionId` and `message`, both strings.
    pub open spec fn decode(params: Option<Json>) -> Result<
        ConversationTurnRequestView,
        ParamError,
    > {
        match params {
            None => Err(ParamError::MissingParams),
            Some(doc) => if !(doc is Object) {
                Err(ParamError::NotAnObject)
            } else {
                match required_text(doc, ParamField::SessionId) {
                    Err(e) => Err(e),
                    Ok(session_id) => match required_text(doc, ParamField::Message) {
                        Err(e) => Err(e),
                        Ok(message) => Ok(ConversationTurnRequestView { session_id, message }),
                    },
                }
            },
        }
    }
}

impl ConversationTurnRequest {
    /// Reads the parameters of `conversationTurn`.
    pub fn from_params(params: &Option<JsonValue>) -> (decoded: Result<Self, ParamError>)
        ensures
            match decoded {
                Ok(request) => ConversationTurnRequestView::decode(optional_json(*params))
                    == Ok::<ConversationTurnRequestView, ParamError>(request@),
                Err(e) => ConversationTurnRequestView::decode(optional_json(*params)) == Err::<
                    ConversationTurnRequestView,
                    ParamError,
                >(e),
            },
    {
        match params {
            None => Err(ParamError::MissingParams),
            Some(doc) => {
                if !doc.is_object() {
                    return Err(ParamError::NotAnObject);
                }
                let session_id = match read_required_text(doc, ParamField::SessionId) {
                    Ok(text) => text,
                    Err(e) => {
                        return Err(e);
                    },
                };
                let message = match read_required_text(doc, ParamField::Message) {
                    Ok(text) => text,
                    Err(e) => {
                        return Err(e);
                    },
                };
                Ok(ConversationTurnRequest { session_id, message })
            },
        }
    }
}

/// The result of `conversationTurn`.
#[derive(Clone, Debug, PartialEq, Eq)]
pub struct ConversationTurnResponse {
    pub content: String,
}

/// The view of a [`ConversationTurnResponse`].
pub struct ConversationTurnResponseView {
    pub content: Seq<char>,
}

impl View for ConversationTurnResponse {
    type V = ConversationTurnResponseView;

    open spec fn view(&self) -> ConversationTurnResponseView {
        ConversationTurnResponseView { content: self.content@ }
    }
}

impl ConversationTurnResponseView {
    /// The document that the result is written as.
    pub open spec fn json(self) -> Json {
        Json::Object(seq![("content"@, Json::Text(self.content))])
    }
}

impl ConversationTurnResponse {
    /// Writes this result as a document.
    pub fn into_json(self) -> (doc: JsonValue)
        ensures
            doc@ == self@.json(),
    {
        let mut entries: Vec<(String, JsonValue)> = Vec::new();
        assert(entries_view(entries@) =~= Seq::empty());
        push_member(&mut entries, "content", JsonValue::Text(self.content));
        assert(entries_view(entries@) =~= self@.json()->Object_0);
        JsonValue::Object(entries)
    }
}

} // verus!
