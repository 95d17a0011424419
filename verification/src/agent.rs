//! The agent: method dispatch and the order of a request's life.
//!
//! The agent reads and writes nothing itself.  [`KiroAgent::step`] takes the
//! outcome of what was done last and answers with the one [`Action`] that is
//! to be done next: receive a message, send a response, do something for the
//! bridge, or stop.  Whoever drives the agent starts by receiving.

use crate::bridge::process::{
    CompletionRuleView, ProcessView, SpawnPlanView, OUTPUT_QUEUE_CAPACITY,
};
use crate::bridge::{
    BridgeAction, BridgeActionView, BridgeEvent, BridgeEventView, BridgeOutput, BridgeOutputView,
    BridgeStep, BridgeStepView, BridgeView, ExecutableProbeView, KiroBridge,
    DEFAULT_RESPONSE_TIMEOUT_MS,
};
use crate::json::{Json, JsonValue};
use crate::protocol::messages::{
    ConversationTurnRequest, ConversationTurnRequestView, ConversationTurnResponse,
    ConversationTurnResponseView, InitializeRequest, InitializeRequestView, InitializeResponse,
    InitializeResponseView, JsonRpcMessage, JsonRpcNotification, JsonRpcRequest, JsonRpcResponse,
    MessageView, NewSessionRequest, NewSessionRequestView, NewSessionResponse,
    NewSessionResponseView, ParamError, RequestView, ResponseView, optional_json,
    optional_message, INTERNAL_ERROR, JSONRPC_VERSION,
};
use crate::protocol::TransportError;
use crate::session::{fresh_session_id, is_session_token, AgentState, AgentStateView};
use crate::text::same_text;
use vstd::prelude::*;
use vstd::string::StringExecFns;

verus! {

/// The version of the protocol that the agent speaks.
pub const PROTOCOL_VERSION: &'static str = "2025-01-01";

/// The name under which the agent announces itself.
pub const AGENT_NAME: &'static str = "Kiro";

/// The version under which the agent announces itself.
pub const AGENT_VERSION: &'static str = "0.1.0";

/// What the agent announces that it can do.
#[derive(Clone, Copy, Debug, PartialEq, Eq, Structural)]
pub struct AgentCapabilities {
    pub streaming: bool,
    pub tools: bool,
}

/// The methods that the agent knows, and `Unknown` for every other name.
#[derive(Clone, Copy, Debug, PartialEq, Eq, Structural)]
pub enum Route {
    Initialize,
    NewSession,
    ConversationTurn,
    CancelTurn,
    Destroy,
    Unknown,
}

/// The method that `method` names: the name has to match letter for letter.
pub open spec fn route(method: Seq<char>) -> Route {
    if method == "initialize"@ {
        Route::Initialize
    } else if method == "newSession"@ {
        Route::NewSession
    } else if method == "conversationTurn"@ {
        Route::ConversationTurn
    } else if method == "cancelTurn"@ {
        Route::CancelTurn
    } else if method == "destroy"@ {
        Route::Destroy
    } else {
        Route::Unknown
    }
}

impl Route {
    /// The method that `method` names.
    pub fn of(method: &str) -> (found: Route)
        ensures
            found == route(method@),
    {
        if same_text(method, "initialize") {
            Route::Initialize
        } else if same_text(method, "newSession") {
            Route::NewSession
        } else if same_text(method, "conversationTurn") {
            Route::ConversationTurn
        } else if same_text(method, "cancelTurn") {
            Route::CancelTurn
        } else if same_text(method, "destroy") {
            Route::Destroy
        } else {
            Route::Unknown
        }
    }
}

/// What a request waits for while the bridge works on it.
#[derive(Clone, Debug, PartialEq, Eq)]
pub enum Pending {
    /// `newSession`, for the session with this token.
    NewSession { session_id: String },
    /// `conversationTurn`.
    Turn,
    /// `cancelTurn`.
    Cancel,
    /// `destroy`.
    Destroy,
}

/// The view of a [`Pending`].
pub enum PendingView {
    NewSession { session_id: Seq<char> },
    Turn,
    Cancel,
    Destroy,
}

impl View for Pending {
    type V = PendingView;

    open spec fn view(&self) -> PendingView {
        match self {
            Pending::NewSession { session_id } => PendingView::NewSession {
                session_id: session_id@,
            },
            Pending::Turn => PendingView::Turn,
            Pending::Cancel => PendingView::Cancel,
            Pending::Destroy => PendingView::Destroy,
        }
    }
}

/// Where the agent stands between two steps.
#[derive(Debug, PartialEq, Eq)]
pub enum Phase {
    /// No request is open: the next message is awaited.
    Idle,
    /// The request `id` is open and the bridge works on it.
    Busy { id: JsonValue, pending: Pending },
    /// The response to the open request is being sent.
    Replying,
    /// The agent has stopped for good.
    Stopped,
}

/// The view of a [`Phase`].
pub enum PhaseView {
    Idle,
    Busy { id: Json, pending: PendingView },
    Replying,
    Stopped,
}

impl View for Phase {
    type V = PhaseView;

    open spec fn view(&self) -> PhaseView {
        match self {
            Phase::Idle => PhaseView::Idle,
            Phase::Busy { id, pending } => PhaseView::Busy { id: id@, pending: pending@ },
            Phase::Replying => PhaseView::Replying,
            Phase::Stopped => PhaseView::Stopped,
        }
    }
}

/// The one thing that the agent wants done next.
#[derive(Debug, PartialEq, Eq)]
pub enum Action {
    /// Receive the next message from the client.
    Receive,
    /// Send the response to the client.
    Send(JsonRpcResponse),
    /// Do this for the bridge.
    Bridge(BridgeAction),
    /// Stop: the client has gone.
    Stop,
    /// Stop with a failure, which the text describes.
    Abort(String),
}

/// The view of an [`Action`].
pub enum ActionView {
    Receive,
    Send(ResponseView),
    Bridge(BridgeActionView),
    Stop,
    Abort(Seq<char>),
}

impl View for Action {
    type V = ActionView;

    open spec fn view(&self) -> ActionView {
        match self {
            Action::Receive => ActionView::Receive,
            Action::Send(response) => ActionView::Send(response@),
            Action::Bridge(action) => ActionView::Bridge(action@),
            Action::Stop => ActionView::Stop,
            Action::Abort(text) => ActionView::Abort(text@),
        }
    }
}

/// The outcome of an [`Action`].
#[derive(Debug, PartialEq, Eq)]
pub enum Event {
    /// What was received: a message, the end of the stream, or a failure.
    Received(Result<Option<JsonRpcMessage>, TransportError>),
    /// The response was written; or it was not, and the text says why.
    Sent(Result<(), String>),
    /// The outcome of what was done for the bridge.
    Bridge(BridgeEvent),
}

/// The view of an [`Event`].
pub enum EventView {
    Received(Result<Option<MessageView>, TransportError>),
    Sent(Result<(), Seq<char>>),
    Bridge(BridgeEventView),
}

impl View for Event {
    type V = EventView;

    open spec fn view(&self) -> EventView {
        match self {
            Event::Received(Ok(message)) => EventView::Received(Ok(optional_message(*message))),
            Event::Received(Err(e)) => EventView::Received(Err(*e)),
            Event::Sent(Ok(())) => EventView::Sent(Ok(())),
            Event::Sent(Err(text)) => EventView::Sent(Err(text@)),
            Event::Bridge(outcome) => EventView::Bridge(outcome@),
        }
    }
}

/// The agent: the bridge, what it remembers, and where it stands.
#[derive(Debug, PartialEq, Eq)]
pub struct KiroAgent {
    pub bridge: KiroBridge,
    pub state: AgentState,
    pub phase: Phase,
}

/// The view of a [`KiroAgent`].
pub struct AgentView {
    pub bridge: BridgeView,
    pub state: AgentStateView,
    pub phase: PhaseView,
}

impl View for KiroAgent {
    type V = AgentView;

    open spec fn view(&self) -> AgentView {
        AgentView { bridge: self.bridge@, state: self.state@, phase: self.phase@ }
    }
}

/// What `initialize` answers.
pub open spec fn initialize_result() -> Json {
    InitializeResponseView {
        protocol_version: PROTOCOL_VERSION@,
        name: AGENT_NAME@,
        version: AGENT_VERSION@,
        capabilities: AgentCapabilities { streaming: true, tools: true },
    }.json()
}

/// The result that is written for a request of kind `pending` when the
/// bridge has brought about `output`.
pub open spec fn result_json(pending: PendingView, output: BridgeOutputView) -> Json {
    match output {
        BridgeOutputView::Reply(content) => ConversationTurnResponseView { content }.json(),
        BridgeOutputView::SessionStarted => match pending {
            PendingView::NewSession { session_id } => NewSessionResponseView { session_id }.json(),
            _ => Json::empty_object(),
        },
        BridgeOutputView::Cancelled => Json::empty_object(),
        BridgeOutputView::ShutDown => Json::empty_object(),
    }
}

/// The text of the failure that an unknown method is answered with.
pub open spec fn unknown_method_text(method: Seq<char>) -> Seq<char> {
    "Unknown method: "@ + method
}

/// The text of the failure that a session token already in use is answered
/// with.
pub open spec fn token_in_use_text() -> Seq<char> {
    "Session id already in use"@
}

/// The text of the failure that ends the agent when an outcome is handed in
/// that answers nothing that it asked for.
pub open spec fn unexpected_event_text() -> Seq<char> {
    "Unexpected event"@
}

impl AgentView {
    /// An agent that has seen nothing yet.
    pub open spec fn new(bridge: BridgeView) -> AgentView {
        AgentView { bridge, state: AgentStateView::new(), phase: PhaseView::Idle }
    }

    /// This agent, stopped.
    pub open spec fn stopped(self) -> AgentView {
        AgentView { phase: PhaseView::Stopped, ..self }
    }

    /// The request that is open, if one is.
    pub open spec fn open_request(self) -> Option<Json> {
        match self.phase {
            PhaseView::Busy { id, .. } => Some(id),
            _ => None,
        }
    }

    /// The open request is answered with `response`.
    pub open spec fn reply(self, response: ResponseView) -> (AgentView, ActionView) {
        (AgentView { phase: PhaseView::Replying, ..self }, ActionView::Send(response))
    }

    /// The open request `id` fails with `message`, under the one error code
    /// there is.
    pub open spec fn fail(self, id: Json, message: Seq<char>) -> (AgentView, ActionView) {
        self.reply(ResponseView::failure(id, INTERNAL_ERROR, message))
    }

    /// What follows from a step of the bridge for the request `id`: the
    /// request stays open while the bridge wants something done, and is
    /// answered when the bridge is done.
    pub open spec fn settle(self, id: Json, pending: PendingView, step: BridgeStepView) -> (
        AgentView,
        ActionView,
    ) {
        match step {
            BridgeStepView::Perform(action) => (
                AgentView { phase: PhaseView::Busy { id, pending }, ..self },
                ActionView::Bridge(action),
            ),
            BridgeStepView::Done(Ok(output)) => self.reply(
                ResponseView::success(id, result_json(pending, output)),
            ),
            BridgeStepView::Done(Err(error)) => self.fail(id, error.text()),
        }
    }

    /// `initialize`: the agent is initialized from now on, and says who it
    /// is.  Sessions and bridge stay as they are.
    pub open spec fn handle_initialize(self, id: Json, params: Option<Json>) -> (
        AgentView,
        ActionView,
    ) {
        match InitializeRequestView::decode(params) {
            Err(e) => self.fail(id, e.text()),
            Ok(_) => AgentView {
                state: AgentStateView { initialized: true, ..self.state },
                ..self
            }.reply(ResponseView::success(id, initialize_result())),
        }
    }

    /// `newSession`: the session `token` is remembered with its directory,
    /// `.` where the request names none, and the bridge starts a session
    /// there.  A token under which a session is remembered already opens no
    /// second one: the request fails.
    pub open spec fn handle_new_session(
        self,
        id: Json,
        params: Option<Json>,
        token: Seq<char>,
    ) -> (AgentView, ActionView) {
        match NewSessionRequestView::decode(params) {
            Err(e) => self.fail(id, e.text()),
            Ok(request) => if self.state.sessions.contains_key(token) {
                self.fail(id, token_in_use_text())
            } else {
                let cwd = match request.cwd {
                    Some(dir) => dir,
                    None => "."@,
                };
                let (bridge, step) = self.bridge.start_session(cwd);
                AgentView {
                    bridge,
                    state: AgentStateView {
                        sessions: self.state.sessions.insert(token, cwd),
                        ..self.state
                    },
                    ..self
                }.settle(id, PendingView::NewSession { session_id: token }, step)
            },
        }
    }

    /// `conversationTurn`: the bridge sends the message to the child.
    pub open spec fn handle_conversation_turn(self, id: Json, params: Option<Json>) -> (
        AgentView,
        ActionView,
    ) {
        match ConversationTurnRequestView::decode(params) {
            Err(e) => self.fail(id, e.text()),
            Ok(request) => {
                let (bridge, step) = self.bridge.send_message(request.message);
                AgentView { bridge, ..self }.settle(id, PendingView::Turn, step)
            },
        }
    }

    /// `cancelTurn`: the bridge cancels, whatever the parameters.
    pub open spec fn handle_cancel_turn(self, id: Json) -> (AgentView, ActionView) {
        let (bridge, step) = self.bridge.cancel();
        AgentView { bridge, ..self }.settle(id, PendingView::Cancel, step)
    }

    /// `destroy`: the bridge shuts down, whatever the parameters.
    pub open spec fn handle_destroy(self, id: Json) -> (AgentView, ActionView) {
        let (bridge, step) = self.bridge.shutdown();
        AgentView { bridge, ..self }.settle(id, PendingView::Destroy, step)
    }

    /// A request goes to the handler of its method; a method that is not
    /// known fails.
    pub open spec fn handle_request(self, request: RequestView, token: Seq<char>) -> (
        AgentView,
        ActionView,
    ) {
        match route(request.method) {
            Route::Initialize => self.handle_initialize(request.id, request.params),
            Route::NewSession => self.handle_new_session(request.id, request.params, token),
            Route::ConversationTurn => self.handle_conversation_turn(request.id, request.params),
            Route::CancelTurn => self.handle_cancel_turn(request.id),
            Route::Destroy => self.handle_destroy(request.id),
            Route::Unknown => self.fail(request.id, unknown_method_text(request.method)),
        }
    }

    /// A request is handled; a notification and a response change nothing
    /// and are not answered.
    pub open spec fn handle_message(self, message: MessageView, token: Seq<char>) -> (
        AgentView,
        ActionView,
    ) {
        match message {
            MessageView::Request(request) => self.handle_request(request, token),
            MessageView::Notification(_) => (self, ActionView::Receive),
            MessageView::Response(_) => (self, ActionView::Receive),
        }
    }

    /// Whether a step on `event` opens a session, and so needs a token.
    pub open spec fn wants_token(self, event: EventView) -> bool {
        &&& self.phase is Idle
        &&& event matches EventView::Received(Ok(Some(MessageView::Request(request))))
        &&& route(request.method) == Route::NewSession
    }

    /// One step of the agent.  `token` is the token of the session that the
    /// step opens, if it opens one.
    ///
    /// With no request open, a message is handled; a line that is no message
    /// is passed over and the next one awaited; the end of the stream and a
    /// failed read stop the agent.  With a request open, the bridge goes on.
    /// While a response is being sent, its having been written lets the next
    /// message in, and its not having been written stops the agent with that
    /// failure.  An outcome that answers nothing that was asked for stops the
    /// agent with a failure; once stopped, it stays so.
    pub open spec fn step(self, event: EventView, token: Seq<char>) -> (AgentView, ActionView) {
        match (self.phase, event) {
            (PhaseView::Idle, EventView::Received(Ok(Some(message)))) => self.handle_message(
                message,
                token,
            ),
            (PhaseView::Idle, EventView::Received(Err(TransportError::Malformed))) => (
                self,
                ActionView::Receive,
            ),
            (PhaseView::Idle, EventView::Received(Err(TransportError::Unrecognized))) => (
                self,
                ActionView::Receive,
            ),
            (PhaseView::Idle, EventView::Received(_)) => (self.stopped(), ActionView::Stop),
            (PhaseView::Busy { id, pending }, EventView::Bridge(outcome)) => {
                let (bridge, step) = self.bridge.resume(outcome);
                AgentView { bridge, ..self }.settle(id, pending, step)
            },
            (PhaseView::Replying, EventView::Sent(Ok(_))) => (
                AgentView { phase: PhaseView::Idle, ..self },
                ActionView::Receive,
            ),
            (PhaseView::Replying, EventView::Sent(Err(text))) => (
                self.stopped(),
                ActionView::Abort(text),
            ),
            (PhaseView::Stopped, _) => (self, ActionView::Stop),
            _ => (self.stopped(), ActionView::Abort(unexpected_event_text())),
        }
    }
}

impl KiroAgent {
    /// An agent that has seen nothing yet, with a bridge of the standard
    /// kind.
    pub fn new() -> (agent: Self)
        ensures
            agent@ == AgentView::new(
                BridgeView::new(CompletionRuleView::standard(), DEFAULT_RESPONSE_TIMEOUT_MS),
            ),
    {
        Self::with_bridge(KiroBridge::new())
    }

    /// An agent that has seen nothing yet, with `bridge`.
    pub fn with_bridge(bridge: KiroBridge) -> (agent: Self)
        ensures
            agent@ == AgentView::new(bridge@),
    {
        KiroAgent { bridge, state: AgentState::new(), phase: Phase::Idle }
    }

    fn reply(&mut self, response: JsonRpcResponse) -> (action: Action)
        ensures
            (final(self)@, action@) == old(self)@.reply(response@),
    {
        self.phase = Phase::Replying;
        Action::Send(response)
    }

    fn fail(&mut self, id: JsonValue, message: String) -> (action: Action)
        ensures
            (final(self)@, action@) == old(self)@.fail(id@, message@),
    {
        self.reply(JsonRpcResponse::error(id, INTERNAL_ERROR, message))
    }

    fn settle(&mut self, id: JsonValue, pending: Pending, step: BridgeStep) -> (action: Action)
        ensures
            (final(self)@, action@) == old(self)@.settle(id@, pending@, step@),
    {
        match step {
            BridgeStep::Perform(action) => {
                self.phase = Phase::Busy { id, pending };
                Action::Bridge(action)
            },
            BridgeStep::Done(Ok(output)) => {
                let result = match output {
                    BridgeOutput::Reply(content) => ConversationTurnResponse {
                        content,
                    }.into_json(),
                    BridgeOutput::SessionStarted => match pending {
                        Pending::NewSession { session_id } => NewSessionResponse {
                            session_id,
                        }.into_json(),
                        _ => JsonValue::empty_object(),
                    },
                    BridgeOutput::Cancelled => JsonValue::empty_object(),
                    BridgeOutput::ShutDown => JsonValue::empty_object(),
                };
                self.reply(JsonRpcResponse::success(id, result))
            },
            BridgeStep::Done(Err(error)) => {
                let message = error.message();
                self.fail(id, message)
            },
        }
    }

    fn handle_initialize(&mut self, id: JsonValue, params: Option<JsonValue>) -> (action: Action)
        ensures
            (final(self)@, action@) == old(self)@.handle_initialize(id@, optional_json(params)),
    {
        match InitializeRequest::from_params(&params) {
            Err(e) => self.fail(id, e.message()),
            Ok(_) => {
                self.state.initialized = true;
                let response = InitializeResponse {
                    protocol_version: PROTOCOL_VERSION.to_owned(),
                    name: AGENT_NAME.to_owned(),
                    version: AGENT_VERSION.to_owned(),
                    capabilities: AgentCapabilities { streaming: true, tools: true },
                };
                self.reply(JsonRpcResponse::success(id, response.into_json()))
            },
        }
    }

    fn handle_new_session(
        &mut self,
        id: JsonValue,
        params: Option<JsonValue>,
        token: String,
    ) -> (action: Action)
        ensures
            (final(self)@, action@) == old(self)@.handle_new_session(
                id@,
                optional_json(params),
                token@,
            ),
    {
        match NewSessionRequest::from_params(&params) {
            Err(e) => self.fail(id, e.message()),
            Ok(request) => {
                if self.state.session_cwd(token.as_str()).is_some() {
                    return self.fail(id, "Session id already in use".to_owned());
                }
                let cwd = match request.cwd {
                    Some(dir) => dir,
                    None => ".".to_owned(),
                };
                let step = self.bridge.start_session(cwd.as_str());
                self.state.insert_session(token.clone(), cwd);
                self.settle(id, Pending::NewSession { session_id: token }, step)
            },
        }
    }

    fn handle_conversation_turn(&mut self, id: JsonValue, params: Option<JsonValue>) -> (action:
        Action)
        ensures
            (final(self)@, action@) == old(self)@.handle_conversation_turn(
                id@,
                optional_json(params),
            ),
    {
        match ConversationTurnRequest::from_params(&params) {
            Err(e) => self.fail(id, e.message()),
            Ok(request) => {
                let step = self.bridge.send_message(
                    request.session_id.as_str(),
                    request.message.as_str(),
                );
                self.settle(id, Pending::Turn, step)
            },
        }
    }

    fn handle_cancel_turn(&mut self, id: JsonValue) -> (action: Action)
        ensures
            (final(self)@, action@) == old(self)@.handle_cancel_turn(id@),
    {
        let step = self.bridge.cancel();
        self.settle(id, Pending::Cancel, step)
    }

    fn handle_destroy(&mut self, id: JsonValue) -> (action: Action)
        ensures
            (final(self)@, action@) == old(self)@.handle_destroy(id@),
    {
        let step = self.bridge.shutdown();
        self.settle(id, Pending::Destroy, step)
    }

    fn handle_request(&mut self, request: JsonRpcRequest, token: String) -> (action: Action)
        ensures
            (final(self)@, action@) == old(self)@.handle_request(request@, token@),
    {
        let JsonRpcRequest { jsonrpc: _, id, method, params } = request;
        match Route::of(method.as_str()) {
            Route::Initialize => self.handle_initialize(id, params),
            Route::NewSession => self.handle_new_session(id, params, token),
            Route::ConversationTurn => self.handle_conversation_turn(id, params),
            Route::CancelTurn => self.handle_cancel_turn(id),
            Route::Destroy => self.handle_destroy(id),
            Route::Unknown => {
                let mut message = "Unknown method: ".to_owned();
                message.append(method.as_str());
                self.fail(id, message)
            },
        }
    }

    fn handle_notification(&mut self, _notification: JsonRpcNotification) -> (action: Action)
        ensures
            (final(self)@, action@) == (old(self)@, ActionView::Receive),
    {
        Action::Receive
    }

    fn handle_message(&mut self, message: JsonRpcMessage, token: String) -> (action: Action)
        ensures
            (final(self)@, action@) == old(self)@.handle_message(message@, token@),
    {
        match message {
            JsonRpcMessage::Request(request) => self.handle_request(request, token),
            JsonRpcMessage::Notification(notification) => self.handle_notification(notification),
            JsonRpcMessage::Response(_) => Action::Receive,
        }
    }

    /// Whether a step on `event` opens a session, and so needs a token.
    pub fn wants_token(&self, event: &Event) -> (wanted: bool)
        ensures
            wanted == self@.wants_token(event@),
    {
        match (&self.phase, event) {
            (Phase::Idle, Event::Received(Ok(Some(JsonRpcMessage::Request(request))))) => {
                match Route::of(request.method.as_str()) {
                    Route::NewSession => true,
                    _ => false,
                }
            },
            _ => false,
        }
    }

    /// One step of the agent, for which the token of the session that it
    /// opens, if it opens one, is given.
    pub fn advance(&mut self, event: Event, token: String) -> (action: Action)
        ensures
            (final(self)@, action@) == old(self)@.step(event@, token@),
    {
        let mut phase = Phase::Stopped;
        core::mem::swap(&mut self.phase, &mut phase);
        match (phase, event) {
            (Phase::Idle, Event::Received(Ok(Some(message)))) => {
                self.phase = Phase::Idle;
                self.handle_message(message, token)
            },
            (Phase::Idle, Event::Received(Err(TransportError::Malformed))) => {
                self.phase = Phase::Idle;
                Action::Receive
            },
            (Phase::Idle, Event::Received(Err(TransportError::Unrecognized))) => {
                self.phase = Phase::Idle;
                Action::Receive
            },
            (Phase::Idle, Event::Received(_)) => Action::Stop,
            (Phase::Busy { id, pending }, Event::Bridge(outcome)) => {
                let step = self.bridge.resume(outcome);
                self.settle(id, pending, step)
            },
            (Phase::Replying, Event::Sent(Ok(_))) => {
                self.phase = Phase::Idle;
                Action::Receive
            },
            (Phase::Replying, Event::Sent(Err(text))) => Action::Abort(text),
            (Phase::Stopped, _) => Action::Stop,
            _ => Action::Abort("Unexpected event".to_owned()),
        }
    }

    /// One step of the agent: takes the outcome of what was done last and
    /// says what is to be done next.  Where the step opens a session, its
    /// token is made up here.
    pub fn step(&mut self, event: Event) -> (action: Action)
        ensures
            exists|token: Seq<char>|
                (old(self)@.wants_token(event@) ==> is_session_token(token)) && (
                    final(self)@,
                    action@,
                ) == #[trigger] old(self)@.step(event@, token),
    {
        let token = if self.wants_token(&event) {
            fresh_session_id()
        } else {
            String::new()
        };
        self.advance(event, token)
    }
}

/// The event of receiving a request for `method`.
pub open spec fn request_event(method: Seq<char>, id: Json, params: Option<Json>) -> EventView {
    EventView::Received(
        Ok(
            Some(
                MessageView::Request(RequestView { jsonrpc: JSONRPC_VERSION@, id, method, params }),
            ),
        ),
    )
}

/// Each of the five method names leads to its own method.
pub proof fn lemma_routes()
    ensures
        route("initialize"@) == Route::Initialize,
        route("newSession"@) == Route::NewSession,
        route("conversationTurn"@) == Route::ConversationTurn,
        route("cancelTurn"@) == Route::CancelTurn,
        route("destroy"@) == Route::Destroy,
{
    reveal_strlit("initialize");
    reveal_strlit("newSession");
    reveal_strlit("conversationTurn");
    reveal_strlit("cancelTurn");
    reveal_strlit("destroy");
    assert("initialize"@[0] == 'i');
    assert("newSession"@[0] == 'n');
    assert("conversationTurn"@[1] == 'o');
    assert("cancelTurn"@[1] == 'a');
    assert("destroy"@[0] == 'd');
    assert("initialize"@.len() == 10 && "newSession"@.len() == 10);
    assert("conversationTurn"@.len() == 16 && "cancelTurn"@.len() == 10);
}

/// A request is answered once, under its own id, with a result or an error
/// and never both.
///
/// Whatever the agent is handed: a response is sent only for the request
/// that has just come in or is open, it carries the id of that request and
/// exactly one of result and error, and with it the request is closed.  While
/// the bridge is asked to do something, the request stays open under its id.
/// In every other case no request is open afterwards.
pub proof fn lemma_one_response_per_request(agent: AgentView, event: EventView, token: Seq<char>)
    ensures
        ({
            let (next, action) = agent.step(event, token);
            let asked = match (agent.phase, event) {
                (
                    PhaseView::Idle,
                    EventView::Received(Ok(Some(MessageView::Request(request)))),
                ) => Some(request.id),
                _ => agent.open_request(),
            };
            match action {
                ActionView::Send(response) => asked == Some(response.id) && response.well_formed()
                    && next.phase is Replying,
                ActionView::Bridge(_) => asked is Some && next.open_request() == asked,
                _ => next.open_request() is None,
            }
        }),
{
}

/// `initialize` may be called again: both calls succeed with the same
/// answer, and the second leaves the sessions and the bridge as they were.
pub proof fn lemma_initialize_twice(
    agent: AgentView,
    first_id: Json,
    first_params: Option<Json>,
    second_id: Json,
    second_params: Option<Json>,
    token: Seq<char>,
)
    requires
        agent.phase is Idle,
        InitializeRequestView::decode(first_params) is Ok,
        InitializeRequestView::decode(second_params) is Ok,
    ensures
        ({
            let (first, first_action) = agent.step(
                request_event("initialize"@, first_id, first_params),
                token,
            );
            let (sent, sent_action) = first.step(EventView::Sent(Ok(())), token);
            let (second, second_action) = sent.step(
                request_event("initialize"@, second_id, second_params),
                token,
            );
            &&& first_action == ActionView::Send(
                ResponseView::success(first_id, initialize_result()),
            )
            &&& sent_action == ActionView::Receive
            &&& second_action == ActionView::Send(
                ResponseView::success(second_id, initialize_result()),
            )
            &&& first.state.initialized && second.state.initialized
            &&& second.state.sessions == agent.state.sessions
            &&& second.bridge == agent.bridge
        }),
{
    lemma_routes();
}

/// What the agent remembers only grows: once initialized it stays so, and a
/// session that is remembered stays remembered, with its directory.  Only a
/// successful `initialize` initializes it.
pub proof fn lemma_nothing_is_forgotten(agent: AgentView, event: EventView, token: Seq<char>)
    ensures
        ({
            let (next, action) = agent.step(event, token);
            &&& agent.state.initialized ==> next.state.initialized
            &&& agent.state.sessions.submap_of(next.state.sessions)
            &&& !agent.state.initialized && next.state.initialized ==> {
                &&& agent.phase is Idle
                &&& event matches EventView::Received(Ok(Some(MessageView::Request(request))))
                &&& route(request.method) == Route::Initialize
                &&& action == ActionView::Send(
                    ResponseView::success(request.id, initialize_result()),
                )
            }
        }),
{
}

/// The token of a new session is none under which a session was remembered
/// before: where a step changes the sessions at all, it adds the one session
/// `token`, which was not there.
pub proof fn lemma_session_tokens_are_new(agent: AgentView, event: EventView, token: Seq<char>)
    ensures
        ({
            let (next, _) = agent.step(event, token);
            next.state.sessions != agent.state.sessions ==> {
                &&& !agent.state.sessions.contains_key(token)
                &&& next.state.sessions.dom() == agent.state.sessions.dom().insert(token)
                &&& next.open_request() is Some
            }
        }),
{
    let (next, _) = agent.step(event, token);
    if next.state.sessions != agent.state.sessions {
        assert(next.state.sessions.dom() =~= agent.state.sessions.dom().insert(token));
    }
}

/// `newSession` without a directory opens the session in `.`: the session
/// is remembered under its token with that directory, the bridge starts
/// there, and once the child runs the answer names the token.
pub proof fn lemma_new_session_defaults(
    agent: AgentView,
    id: Json,
    params: Option<Json>,
    token: Seq<char>,
    probe: ExecutableProbeView,
    pid: Option<u32>,
)
    requires
        agent.phase is Idle,
        NewSessionRequestView::decode(params) == Ok::<NewSessionRequestView, ParamError>(
            NewSessionRequestView { cwd: None },
        ),
        !agent.state.sessions.contains_key(token),
        probe.resolved() is Some,
    ensures
        ({
            let (opened, first) = agent.step(request_event("newSession"@, id, params), token);
            let (located, second) = opened.step(
                EventView::Bridge(BridgeEventView::Located(probe)),
                token,
            );
            let (started, third) = located.step(
                EventView::Bridge(BridgeEventView::Spawned(Ok(pid))),
                token,
            );
            &&& first == ActionView::Bridge(BridgeActionView::Locate)
            &&& opened.state.sessions == agent.state.sessions.insert(token, "."@)
            &&& opened.bridge.working_dir == "."@
            &&& second == ActionView::Bridge(
                BridgeActionView::Spawn(
                    SpawnPlanView {
                        program: probe.resolved()->0,
                        working_dir: "."@,
                        queue_capacity: OUTPUT_QUEUE_CAPACITY,
                    },
                ),
            )
            &&& third == ActionView::Send(
                ResponseView::success(id, NewSessionResponseView { session_id: token }.json()),
            )
            &&& started.bridge.process == Some(ProcessView::started(pid))
            &&& started.state.sessions == agent.state.sessions.insert(token, "."@)
        }),
{
    lemma_routes();
}

/// `conversationTurn` without a `message` is refused: the answer is an
/// error, and nothing is sent to the child.
pub proof fn lemma_turn_without_message_fails(
    agent: AgentView,
    id: Json,
    params: Option<Json>,
    token: Seq<char>,
)
    requires
        agent.phase is Idle,
        params matches Some(doc) ==> doc.member("message"@) is None,
    ensures
        ({
            let (next, action) = agent.step(request_event("conversationTurn"@, id, params), token);
            &&& ConversationTurnRequestView::decode(params) is Err
            &&& action == ActionView::Send(
                ResponseView::failure(
                    id,
                    INTERNAL_ERROR,
                    ConversationTurnRequestView::decode(params)->Err_0.text(),
                ),
            )
            &&& next.bridge == agent.bridge
            &&& next.state == agent.state
        }),
{
    lemma_routes();
}

/// `cancelTurn` without a child does nothing and succeeds with `{}`.
pub proof fn lemma_cancel_without_process(
    agent: AgentView,
    id: Json,
    params: Option<Json>,
    token: Seq<char>,
)
    requires
        agent.phase is Idle,
        agent.bridge.process is None,
    ensures
        agent.step(request_event("cancelTurn"@, id, params), token) == (
            AgentView { bridge: agent.bridge.ready(), phase: PhaseView::Replying, ..agent },
            ActionView::Send(ResponseView::success(id, Json::empty_object())),
        ),
{
    lemma_routes();
}

/// `destroy` may be called again: with or without a child, the first call
/// succeeds with `{}` and leaves no child, and so does the second, which
/// has nothing to kill.
pub proof fn lemma_destroy_is_idempotent(
    agent: AgentView,
    first_id: Json,
    first_params: Option<Json>,
    second_id: Json,
    second_params: Option<Json>,
    token: Seq<char>,
)
    requires
        agent.phase is Idle,
    ensures
        ({
            let (first, first_action) = agent.step(
                request_event("destroy"@, first_id, first_params),
                token,
            );
            let (killed, answer) = if agent.bridge.process is Some {
                first.step(EventView::Bridge(BridgeEventView::Killed), token)
            } else {
                (first, first_action)
            };
            let (sent, _) = killed.step(EventView::Sent(Ok(())), token);
            let (second, second_action) = sent.step(
                request_event("destroy"@, second_id, second_params),
                token,
            );
            &&& agent.bridge.process is Some ==> first_action == ActionView::Bridge(
                BridgeActionView::Kill,
            )
            &&& answer == ActionView::Send(ResponseView::success(first_id, Json::empty_object()))
            &&& killed.bridge.process is None
            &&& second_action == ActionView::Send(
                ResponseView::success(second_id, Json::empty_object()),
            )
            &&& second.bridge == killed.bridge
            &&& second.state == agent.state
        }),
{
    lemma_routes();
}

} // verus!
