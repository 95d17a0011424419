//! The bridge to the command-line tool: where its executable is looked for,
//! and the order in which a child process is started, written to, read from,
//! interrupted and ended.
//!
//! The bridge does none of this itself.  Each operation answers with a
//! [`BridgeStep`]: either the one thing that has to be done next, or the end
//! of the operation.  Whoever drives the bridge does that thing and hands its
//! outcome to [`KiroBridge::resume`].

pub mod process;

use crate::bridge::process::{
    CompletionRule, CompletionRuleView, KiroProcess, OutputEvent, OutputEventView, ProcessView,
    ReadStep, ReadStepView, SpawnPlan, SpawnPlanView, OUTPUT_QUEUE_CAPACITY,
};
use crate::text::{has_infix, lemma_middle_occurs, optional_text};
use vstd::prelude::*;
use vstd::string::StringExecFns;

verus! {

/// The environment variable that names the executable directly.
pub const EXECUTABLE_VARIABLE: &'static str = "KIRO_PATH";

/// The command that is looked up on the search path.
pub const EXECUTABLE_NAME: &'static str = "kiro";

/// The time allowed for one reply unless another is given, in milliseconds.
pub const DEFAULT_RESPONSE_TIMEOUT_MS: u64 = 120_000;

/// The fixed places where the executable is looked for last, in this order.
#[derive(Clone, Copy, Debug, PartialEq, Eq, Structural)]
pub enum Candidate {
    /// `.kiro/bin/kiro` below the home directory.
    HomeKiroBin,
    /// `.local/bin/kiro` below the home directory.
    HomeLocalBin,
    /// `/usr/local/bin/kiro`.
    UsrLocalBin,
}

impl Candidate {
    /// The path of the place: below the home directory where
    /// [`Candidate::under_home`] says so, absolute otherwise.
    pub open spec fn location(self) -> Seq<char> {
        match self {
            Candidate::HomeKiroBin => ".kiro/bin/kiro"@,
            Candidate::HomeLocalBin => ".local/bin/kiro"@,
            Candidate::UsrLocalBin => "/usr/local/bin/kiro"@,
        }
    }

    /// The path of the place.
    pub fn path(self) -> (path: &'static str)
        ensures
            path@ == self.location(),
    {
        match self {
            Candidate::HomeKiroBin => ".kiro/bin/kiro",
            Candidate::HomeLocalBin => ".local/bin/kiro",
            Candidate::UsrLocalBin => "/usr/local/bin/kiro",
        }
    }

    /// Whether the path is meant below the home directory.
    pub fn under_home(self) -> (relative: bool)
        ensures
            relative == !(self is UsrLocalBin),
    {
        match self {
            Candidate::HomeKiroBin => true,
            Candidate::HomeLocalBin => true,
            Candidate::UsrLocalBin => false,
        }
    }

    /// The places in the order in which they are tried.
    pub fn all() -> (places: Vec<Candidate>)
        ensures
            places@ == seq![
                Candidate::HomeKiroBin,
                Candidate::HomeLocalBin,
                Candidate::UsrLocalBin,
            ],
    {
        let mut places: Vec<Candidate> = Vec::new();
        places.push(Candidate::HomeKiroBin);
        places.push(Candidate::HomeLocalBin);
        places.push(Candidate::UsrLocalBin);
        assert(places@ =~= seq![
            Candidate::HomeKiroBin,
            Candidate::HomeLocalBin,
            Candidate::UsrLocalBin,
        ]);
        places
    }
}

/// What the search for the executable found.
#[derive(Clone, Debug, PartialEq, Eq)]
pub struct ExecutableProbe {
    /// The value of [`EXECUTABLE_VARIABLE`], where it is set.
    pub env_override: Option<String>,
    /// Where [`EXECUTABLE_NAME`] was found on the search path, if it was.
    pub on_path: Option<String>,
    /// The paths of the [`Candidate`]s that exist, in the order of
    /// [`Candidate::all`].
    pub candidates: Vec<String>,
}

/// The view of an [`ExecutableProbe`].
pub struct ExecutableProbeView {
    pub env_override: Option<Seq<char>>,
    pub on_path: Option<Seq<char>>,
    pub candidates: Seq<Seq<char>>,
}

impl View for ExecutableProbe {
    type V = ExecutableProbeView;

    open spec fn view(&self) -> ExecutableProbeView {
        ExecutableProbeView {
            env_override: optional_text(self.env_override),
            on_path: optional_text(self.on_path),
            candidates: self.candidates.deep_view(),
        }
    }
}

impl ExecutableProbeView {
    /// The executable that the search settles on: the one that the variable
    /// names, before the one on the search path, before the first candidate
    /// that exists.
    pub open spec fn resolved(self) -> Option<Seq<char>> {
        if self.env_override is Some {
            self.env_override
        } else if self.on_path is Some {
            self.on_path
        } else if self.candidates.len() > 0 {
            Some(self.candidates[0])
        } else {
            None
        }
    }
}

/// Why an operation of the bridge failed.
#[derive(Clone, Debug, PartialEq, Eq)]
pub enum BridgeError {
    /// There is no child to talk to.
    ProcessNotStarted,
    /// The executable is in none of the places searched.
    ExecutableNotFound,
    /// The child could not be started; the text says why.
    SpawnFailed(String),
    /// The child's input could not be written; the text says why.
    WriteFailed(String),
    /// No complete reply came in the time allowed.
    ResponseTimeout,
    /// An outcome was handed in that answers nothing that was asked for.
    UnexpectedEvent,
}

/// The view of a [`BridgeError`].
pub enum BridgeErrorView {
    ProcessNotStarted,
    ExecutableNotFound,
    SpawnFailed(Seq<char>),
    WriteFailed(Seq<char>),
    ResponseTimeout,
    UnexpectedEvent,
}

impl View for BridgeError {
    type V = BridgeErrorView;

    open spec fn view(&self) -> BridgeErrorView {
        match self {
            BridgeError::ProcessNotStarted => BridgeErrorView::ProcessNotStarted,
            BridgeError::ExecutableNotFound => BridgeErrorView::ExecutableNotFound,
            BridgeError::SpawnFailed(text) => BridgeErrorView::SpawnFailed(text@),
            BridgeError::WriteFailed(text) => BridgeErrorView::WriteFailed(text@),
            BridgeError::ResponseTimeout => BridgeErrorView::ResponseTimeout,
            BridgeError::UnexpectedEvent => BridgeErrorView::UnexpectedEvent,
        }
    }
}

/// The text that tells of a failed search, with every place that was tried.
pub open spec fn not_found_text() -> Seq<char> {
    "Kiro CLI not found. Please install Kiro or set "@ + EXECUTABLE_VARIABLE@
        + " environment variable. Searched: $"@ + EXECUTABLE_VARIABLE@ + ", `"@ + EXECUTABLE_NAME@
        + "` on PATH, ~/"@ + Candidate::HomeKiroBin.location() + ", ~/"@
        + Candidate::HomeLocalBin.location() + ", "@ + Candidate::UsrLocalBin.location()
}

/// The text that tells of a failed search names every place that is
/// searched: the variable, the command, and each of the candidates.
pub proof fn lemma_failed_search_names_every_place(place: Candidate)
    ensures
        has_infix(not_found_text(), EXECUTABLE_VARIABLE@),
        has_infix(not_found_text(), EXECUTABLE_NAME@),
        has_infix(not_found_text(), place.location()),
{
    let variable = EXECUTABLE_VARIABLE@;
    let name = EXECUTABLE_NAME@;
    let first = Candidate::HomeKiroBin.location();
    let second = Candidate::HomeLocalBin.location();
    let third = Candidate::UsrLocalBin.location();
    let a = "Kiro CLI not found. Please install Kiro or set "@;
    let b = " environment variable. Searched: $"@;
    let c = ", `"@;
    let d = "` on PATH, ~/"@;
    let e = ", ~/"@;
    let f = ", "@;
    let text = not_found_text();
    lemma_middle_occurs(a, variable, b + variable + c + name + d + first + e + second + f + third);
    assert(text =~= a + variable + (b + variable + c + name + d + first + e + second + f + third));
    lemma_middle_occurs(a + variable + b + variable + c, name, d + first + e + second + f + third);
    assert(text =~= (a + variable + b + variable + c) + name + (d + first + e + second + f
        + third));
    lemma_middle_occurs(a + variable + b + variable + c + name + d, first, e + second + f + third);
    assert(text =~= (a + variable + b + variable + c + name + d) + first + (e + second + f
        + third));
    lemma_middle_occurs(a + variable + b + variable + c + name + d + first + e, second, f + third);
    assert(text =~= (a + variable + b + variable + c + name + d + first + e) + second + (f
        + third));
    lemma_middle_occurs(
        a + variable + b + variable + c + name + d + first + e + second + f,
        third,
        Seq::empty(),
    );
    assert(text =~= (a + variable + b + variable + c + name + d + first + e + second + f) + third
        + Seq::<char>::empty());
}

impl BridgeErrorView {
    /// The text that describes this error to the client.
    pub open spec fn text(self) -> Seq<char> {
        match self {
            BridgeErrorView::ProcessNotStarted => "Kiro process not started"@,
            BridgeErrorView::ExecutableNotFound => not_found_text(),
            BridgeErrorView::SpawnFailed(text) => text,
            BridgeErrorView::WriteFailed(text) => text,
            BridgeErrorView::ResponseTimeout => "Timed out waiting for the reply of Kiro"@,
            BridgeErrorView::UnexpectedEvent => "Unexpected event while talking to Kiro"@,
        }
    }
}

impl BridgeError {
    /// The text that describes this error to the client.
    pub fn message(&self) -> (message: String)
        ensures
            message@ == self@.text(),
    {
        match self {
            BridgeError::ProcessNotStarted => "Kiro process not started".to_owned(),
            BridgeError::ExecutableNotFound => {
                let mut message = "Kiro CLI not found. Please install Kiro or set ".to_owned();
                message.append(EXECUTABLE_VARIABLE);
                message.append(" environment variable. Searched: $");
                message.append(EXECUTABLE_VARIABLE);
                message.append(", `");
                message.append(EXECUTABLE_NAME);
                message.append("` on PATH, ~/");
                message.append(Candidate::HomeKiroBin.path());
                message.append(", ~/");
                message.append(Candidate::HomeLocalBin.path());
                message.append(", ");
                message.append(Candidate::UsrLocalBin.path());
                message
            },
            BridgeError::SpawnFailed(text) => text.clone(),
            BridgeError::WriteFailed(text) => text.clone(),
            BridgeError::ResponseTimeout => "Timed out waiting for the reply of Kiro".to_owned(),
            BridgeError::UnexpectedEvent => "Unexpected event while talking to Kiro".to_owned(),
        }
    }
}

/// The one thing that the bridge wants done next.
#[derive(Clone, Debug, PartialEq, Eq)]
pub enum BridgeAction {
    /// Search for the executable and hand in an [`ExecutableProbe`].
    Locate,
    /// Start the child as the plan says, in place of any earlier one.
    Spawn(SpawnPlan),
    /// Write the text to the child's input and flush.
    Write(String),
    /// Wait for the next printed line, for this many milliseconds at most.
    AwaitOutput { timeout_ms: u64 },
    /// Send the interrupt signal to the process, whatever comes of it.
    Interrupt(u32),
    /// Kill the child, whatever comes of it.
    Kill,
}

/// The view of a [`BridgeAction`].
pub enum BridgeActionView {
    Locate,
    Spawn(SpawnPlanView),
    Write(Seq<char>),
    AwaitOutput { timeout_ms: u64 },
    Interrupt(u32),
    Kill,
}

impl View for BridgeAction {
    type V = BridgeActionView;

    open spec fn view(&self) -> BridgeActionView {
        match self {
            BridgeAction::Locate => BridgeActionView::Locate,
            BridgeAction::Spawn(plan) => BridgeActionView::Spawn(plan@),
            BridgeAction::Write(text) => BridgeActionView::Write(text@),
            BridgeAction::AwaitOutput { timeout_ms } => BridgeActionView::AwaitOutput {
                timeout_ms: *timeout_ms,
            },
            BridgeAction::Interrupt(pid) => BridgeActionView::Interrupt(*pid),
            BridgeAction::Kill => BridgeActionView::Kill,
        }
    }
}

/// The outcome of a [`BridgeAction`].
#[derive(Debug, PartialEq, Eq)]
pub enum BridgeEvent {
    /// What the search found.
    Located(ExecutableProbe),
    /// The child runs, with this process identifier as far as the system gave
    /// one; or it could not be started, and the text says why.
    Spawned(Result<Option<u32>, String>),
    /// The text was written and flushed; or it was not, and the text says why.
    Written(Result<(), String>),
    /// What came of waiting for the next line, and for how many milliseconds
    /// the wait went on.
    Output { event: OutputEvent, waited_ms: u64 },
    /// The signal was sent or could not be sent.
    Interrupted,
    /// The child was killed or could not be killed.
    Killed,
}

/// The view of a [`BridgeEvent`].
pub enum BridgeEventView {
    Located(ExecutableProbeView),
    Spawned(Result<Option<u32>, Seq<char>>),
    Written(Result<(), Seq<char>>),
    Output { event: OutputEventView, waited_ms: u64 },
    Interrupted,
    Killed,
}

impl View for BridgeEvent {
    type V = BridgeEventView;

    open spec fn view(&self) -> BridgeEventView {
        match self {
            BridgeEvent::Located(probe) => BridgeEventView::Located(probe@),
            BridgeEvent::Spawned(Ok(pid)) => BridgeEventView::Spawned(Ok(*pid)),
            BridgeEvent::Spawned(Err(text)) => BridgeEventView::Spawned(Err(text@)),
            BridgeEvent::Written(Ok(())) => BridgeEventView::Written(Ok(())),
            BridgeEvent::Written(Err(text)) => BridgeEventView::Written(Err(text@)),
            BridgeEvent::Output { event, waited_ms } => BridgeEventView::Output {
                event: event@,
                waited_ms: *waited_ms,
            },
            BridgeEvent::Interrupted => BridgeEventView::Interrupted,
            BridgeEvent::Killed => BridgeEventView::Killed,
        }
    }
}

/// What a finished operation has brought about.
#[derive(Clone, Debug, PartialEq, Eq)]
pub enum BridgeOutput {
    /// A child runs for the session.
    SessionStarted,
    /// The reply of the child to the message.
    Reply(String),
    /// The child, if there is one, was sent the interrupt signal.
    Cancelled,
    /// There is no child any more.
    ShutDown,
}

/// The view of a [`BridgeOutput`].
pub enum BridgeOutputView {
    SessionStarted,
    Reply(Seq<char>),
    Cancelled,
    ShutDown,
}

impl View for BridgeOutput {
    type V = BridgeOutputView;

    open spec fn view(&self) -> BridgeOutputView {
        match self {
            BridgeOutput::SessionStarted => BridgeOutputView::SessionStarted,
            BridgeOutput::Reply(text) => BridgeOutputView::Reply(text@),
            BridgeOutput::Cancelled => BridgeOutputView::Cancelled,
            BridgeOutput::ShutDown => BridgeOutputView::ShutDown,
        }
    }
}

/// Where an operation stands: something is to be done, or it has ended.
#[derive(Debug, PartialEq, Eq)]
pub enum BridgeStep {
    Perform(BridgeAction),
    Done(Result<BridgeOutput, BridgeError>),
}

/// The view of a [`BridgeStep`].
pub enum BridgeStepView {
    Perform(BridgeActionView),
    Done(Result<BridgeOutputView, BridgeErrorView>),
}

impl View for BridgeStep {
    type V = BridgeStepView;

    open spec fn view(&self) -> BridgeStepView {
        match self {
            BridgeStep::Perform(action) => BridgeStepView::Perform(action@),
            BridgeStep::Done(Ok(output)) => BridgeStepView::Done(Ok(output@)),
            BridgeStep::Done(Err(error)) => BridgeStepView::Done(Err(error@)),
        }
    }
}

/// The outcome that the bridge waits for.
#[derive(Clone, Copy, Debug, PartialEq, Eq, Structural)]
pub enum BridgePhase {
    /// None: no operation is under way.
    Ready,
    /// What the search for the executable found.
    Locating,
    /// Whether the child was started.
    Spawning,
    /// Whether the message was written.
    Writing,
    /// The next line of the reply.
    Reading,
    /// That the interrupt signal was dealt with.
    Interrupting,
    /// That the kill was dealt with.
    Killing,
}

/// The bridge: at most one child, the directory of the session, the rule
/// that tells a complete reply, the time allowed for one, and what is left
/// of that time for the reply under way.
#[derive(Clone, Debug, PartialEq, Eq)]
pub struct KiroBridge {
    pub process: Option<KiroProcess>,
    pub working_dir: String,
    pub rule: CompletionRule,
    pub response_timeout_ms: u64,
    pub remaining_ms: u64,
    pub phase: BridgePhase,
}

/// The view of a [`KiroBridge`].
pub struct BridgeView {
    pub process: Option<ProcessView>,
    pub working_dir: Seq<char>,
    pub rule: CompletionRuleView,
    pub response_timeout_ms: u64,
    pub remaining_ms: u64,
    pub phase: BridgePhase,
}

/// The view of an optional child.
pub open spec fn optional_process(process: Option<KiroProcess>) -> Option<ProcessView> {
    match process {
        Some(p) => Some(p@),
        None => None,
    }
}

impl View for KiroBridge {
    type V = BridgeView;

    open spec fn view(&self) -> BridgeView {
        BridgeView {
            process: optional_process(self.process),
            working_dir: self.working_dir@,
            rule: self.rule@,
            response_timeout_ms: self.response_timeout_ms,
            remaining_ms: self.remaining_ms,
            phase: self.phase,
        }
    }
}

impl BridgeView {
    /// A bridge without a child, for sessions in the current directory.
    pub open spec fn new(rule: CompletionRuleView, response_timeout_ms: u64) -> BridgeView {
        BridgeView {
            process: None,
            working_dir: "."@,
            rule,
            response_timeout_ms,
            remaining_ms: response_timeout_ms,
            phase: BridgePhase::Ready,
        }
    }

    /// This bridge with no operation under way.
    pub open spec fn ready(self) -> BridgeView {
        BridgeView { phase: BridgePhase::Ready, ..self }
    }

    /// The step that asks for the next line of the reply, within what is
    /// left of the time.
    pub open spec fn await_output(self) -> BridgeStepView {
        BridgeStepView::Perform(BridgeActionView::AwaitOutput { timeout_ms: self.remaining_ms })
    }

    /// What is left of the time after a wait of `waited_ms` milliseconds.
    pub open spec fn time_left(self, waited_ms: u64) -> u64 {
        if waited_ms >= self.remaining_ms {
            0
        } else {
            (self.remaining_ms - waited_ms) as u64
        }
    }

    /// Starting a session in `cwd`: the directory is taken down and the
    /// executable is searched for.
    pub open spec fn start_session(self, cwd: Seq<char>) -> (BridgeView, BridgeStepView) {
        (
            BridgeView { working_dir: cwd, phase: BridgePhase::Locating, ..self },
            BridgeStepView::Perform(BridgeActionView::Locate),
        )
    }

    /// Sending `message`: without a child this fails at once; with one, the
    /// message and a newline are written to its input and a new reply
    /// begins, with all of the time allowed.
    pub open spec fn send_message(self, message: Seq<char>) -> (BridgeView, BridgeStepView) {
        match self.process {
            None => (self.ready(), BridgeStepView::Done(Err(BridgeErrorView::ProcessNotStarted))),
            Some(process) => (
                BridgeView {
                    process: Some(process.cleared()),
                    remaining_ms: self.response_timeout_ms,
                    phase: BridgePhase::Writing,
                    ..self
                },
                BridgeStepView::Perform(
                    BridgeActionView::Write(ProcessView::input_frame(message)),
                ),
            ),
        }
    }

    /// Cancelling: a child whose process identifier is known is sent the
    /// interrupt signal; without one there is nothing to do.
    pub open spec fn cancel(self) -> (BridgeView, BridgeStepView) {
        match self.process {
            Some(ProcessView { pid: Some(pid), .. }) => (
                BridgeView { phase: BridgePhase::Interrupting, ..self },
                BridgeStepView::Perform(BridgeActionView::Interrupt(pid)),
            ),
            _ => (self.ready(), BridgeStepView::Done(Ok(BridgeOutputView::Cancelled))),
        }
    }

    /// Shutting down: the child is given up and killed; without one there is
    /// nothing to do.
    pub open spec fn shutdown(self) -> (BridgeView, BridgeStepView) {
        match self.process {
            Some(_) => (
                BridgeView { process: None, phase: BridgePhase::Killing, ..self },
                BridgeStepView::Perform(BridgeActionView::Kill),
            ),
            None => (self.ready(), BridgeStepView::Done(Ok(BridgeOutputView::ShutDown))),
        }
    }

    /// Going on with the operation under way, given the outcome of what was
    /// asked for last.  While a reply is read, each wait is taken off the
    /// time that is left, and a reply that is not complete when no time is
    /// left fails.  An outcome that does not answer what was asked for ends
    /// the operation with [`BridgeError::UnexpectedEvent`].
    pub open spec fn resume(self, event: BridgeEventView) -> (BridgeView, BridgeStepView) {
        match (self.phase, event) {
            (BridgePhase::Locating, BridgeEventView::Located(probe)) => match probe.resolved() {
                Some(program) => (
                    BridgeView { phase: BridgePhase::Spawning, ..self },
                    BridgeStepView::Perform(
                        BridgeActionView::Spawn(
                            SpawnPlanView {
                                program,
                                working_dir: self.working_dir,
                                queue_capacity: OUTPUT_QUEUE_CAPACITY,
                            },
                        ),
                    ),
                ),
                None => (
                    self.ready(),
                    BridgeStepView::Done(Err(BridgeErrorView::ExecutableNotFound)),
                ),
            },
            (BridgePhase::Spawning, BridgeEventView::Spawned(Ok(pid))) => (
                BridgeView { process: Some(ProcessView::started(pid)), ..self.ready() },
                BridgeStepView::Done(Ok(BridgeOutputView::SessionStarted)),
            ),
            (BridgePhase::Spawning, BridgeEventView::Spawned(Err(text))) => (
                self.ready(),
                BridgeStepView::Done(Err(BridgeErrorView::SpawnFailed(text))),
            ),
            (BridgePhase::Writing, BridgeEventView::Written(Ok(_))) => (
                BridgeView { phase: BridgePhase::Reading, ..self },
                self.await_output(),
            ),
            (BridgePhase::Writing, BridgeEventView::Written(Err(text))) => (
                self.ready(),
                BridgeStepView::Done(Err(BridgeErrorView::WriteFailed(text))),
            ),
            (
                BridgePhase::Reading,
                BridgeEventView::Output { event, waited_ms },
            ) => match self.process {
                None => (
                    self.ready(),
                    BridgeStepView::Done(Err(BridgeErrorView::ProcessNotStarted)),
                ),
                Some(process) => {
                    let (process, step) = process.read_response(self.rule, event);
                    let remaining_ms = self.time_left(waited_ms);
                    match step {
                        ReadStepView::Pending => if remaining_ms == 0 {
                            (
                                BridgeView {
                                    process: Some(process.cleared()),
                                    remaining_ms,
                                    ..self.ready()
                                },
                                BridgeStepView::Done(Err(BridgeErrorView::ResponseTimeout)),
                            )
                        } else {
                            let waiting = BridgeView {
                                process: Some(process),
                                remaining_ms,
                                ..self
                            };
                            (waiting, waiting.await_output())
                        },
                        ReadStepView::Complete(text) => (
                            BridgeView { process: Some(process), remaining_ms, ..self.ready() },
                            BridgeStepView::Done(Ok(BridgeOutputView::Reply(text))),
                        ),
                        ReadStepView::TimedOut => (
                            BridgeView { process: Some(process), remaining_ms, ..self.ready() },
                            BridgeStepView::Done(Err(BridgeErrorView::ResponseTimeout)),
                        ),
                    }
                },
            },
            (BridgePhase::Interrupting, BridgeEventView::Interrupted) => (
                self.ready(),
                BridgeStepView::Done(Ok(BridgeOutputView::Cancelled)),
            ),
            (BridgePhase::Killing, BridgeEventView::Killed) => (
                self.ready(),
                BridgeStepView::Done(Ok(BridgeOutputView::ShutDown)),
            ),
            _ => (self.ready(), BridgeStepView::Done(Err(BridgeErrorView::UnexpectedEvent))),
        }
    }
}

impl KiroBridge {
    /// A bridge without a child, with the standard rule and time.
    pub fn new() -> (bridge: Self)
        ensures
            bridge@ == BridgeView::new(CompletionRuleView::standard(), DEFAULT_RESPONSE_TIMEOUT_MS),
    {
        Self::with_strategy(CompletionRule::standard(), DEFAULT_RESPONSE_TIMEOUT_MS)
    }

    /// A bridge without a child that tells a complete reply by `rule` and
    /// allows `response_timeout_ms` milliseconds for one.
    pub fn with_strategy(rule: CompletionRule, response_timeout_ms: u64) -> (bridge: Self)
        ensures
            bridge@ == BridgeView::new(rule@, response_timeout_ms),
    {
        KiroBridge {
            process: None,
            working_dir: ".".to_owned(),
            rule,
            response_timeout_ms,
            remaining_ms: response_timeout_ms,
            phase: BridgePhase::Ready,
        }
    }

    /// Whether a child is held.
    pub fn has_process(&self) -> (held: bool)
        ensures
            held == (self@.process is Some),
    {
        self.process.is_some()
    }

    /// Starts a session in `cwd`.
    pub fn start_session(&mut self, cwd: &str) -> (step: BridgeStep)
        ensures
            (final(self)@, step@) == old(self)@.start_session(cwd@),
    {
        self.working_dir = cwd.to_owned();
        self.phase = BridgePhase::Locating;
        BridgeStep::Perform(BridgeAction::Locate)
    }

    /// The executable that the search has settled on.
    pub fn find_kiro_executable(probe: ExecutableProbe) -> (found: Result<String, BridgeError>)
        ensures
            match found {
                Ok(path) => probe@.resolved() == Some(path@),
                Err(e) => probe@.resolved() is None && e@ is ExecutableNotFound,
            },
    {
        let ExecutableProbe { env_override, on_path, mut candidates } = probe;
        match env_override {
            Some(path) => {
                return Ok(path);
            },
            None => {},
        }
        match on_path {
            Some(path) => {
                return Ok(path);
            },
            None => {},
        }
        if candidates.len() > 0 {
            let path = candidates.swap_remove(0);
            Ok(path)
        } else {
            Err(BridgeError::ExecutableNotFound)
        }
    }

    /// Sends `message` to the child and asks for its reply.  The session of
    /// the message plays no part: there is one child for all sessions.
    pub fn send_message(&mut self, _session_id: &str, message: &str) -> (step: BridgeStep)
        ensures
            (final(self)@, step@) == old(self)@.send_message(message@),
    {
        match &mut self.process {
            None => {
                self.phase = BridgePhase::Ready;
                BridgeStep::Done(Err(BridgeError::ProcessNotStarted))
            },
            Some(process) => {
                process.begin_response();
                let frame = process.send_input(message);
                self.remaining_ms = self.response_timeout_ms;
                self.phase = BridgePhase::Writing;
                BridgeStep::Perform(BridgeAction::Write(frame))
            },
        }
    }

    /// Cancels what the child is doing.
    pub fn cancel(&mut self) -> (step: BridgeStep)
        ensures
            (final(self)@, step@) == old(self)@.cancel(),
    {
        let target = match &self.process {
            Some(process) => process.send_interrupt(),
            None => None,
        };
        match target {
            Some(pid) => {
                self.phase = BridgePhase::Interrupting;
                BridgeStep::Perform(BridgeAction::Interrupt(pid))
            },
            None => {
                self.phase = BridgePhase::Ready;
                BridgeStep::Done(Ok(BridgeOutput::Cancelled))
            },
        }
    }

    /// Ends the child.
    pub fn shutdown(&mut self) -> (step: BridgeStep)
        ensures
            (final(self)@, step@) == old(self)@.shutdown(),
    {
        match self.process.take() {
            Some(_) => {
                self.phase = BridgePhase::Killing;
                BridgeStep::Perform(BridgeAction::Kill)
            },
            None => {
                self.phase = BridgePhase::Ready;
                BridgeStep::Done(Ok(BridgeOutput::ShutDown))
            },
        }
    }

    /// Goes on with the operation under way, given the outcome of what was
    /// asked for last.
    pub fn resume(&mut self, event: BridgeEvent) -> (step: BridgeStep)
        ensures
            (final(self)@, step@) == old(self)@.resume(event@),
    {
        let phase = self.phase;
        self.phase = BridgePhase::Ready;
        match (phase, event) {
            (BridgePhase::Locating, BridgeEvent::Located(probe)) => {
                match Self::find_kiro_executable(probe) {
                    Ok(program) => {
                        self.phase = BridgePhase::Spawning;
                        let plan = KiroProcess::spawn(program.as_str(), self.working_dir.as_str());
                        BridgeStep::Perform(BridgeAction::Spawn(plan))
                    },
                    Err(e) => BridgeStep::Done(Err(e)),
                }
            },
            (BridgePhase::Spawning, BridgeEvent::Spawned(Ok(pid))) => {
                self.process = Some(KiroProcess::started(pid));
                BridgeStep::Done(Ok(BridgeOutput::SessionStarted))
            },
            (BridgePhase::Spawning, BridgeEvent::Spawned(Err(text))) => BridgeStep::Done(
                Err(BridgeError::SpawnFailed(text)),
            ),
            (BridgePhase::Writing, BridgeEvent::Written(Ok(_))) => {
                self.phase = BridgePhase::Reading;
                BridgeStep::Perform(BridgeAction::AwaitOutput { timeout_ms: self.remaining_ms })
            },
            (BridgePhase::Writing, BridgeEvent::Written(Err(text))) => BridgeStep::Done(
                Err(BridgeError::WriteFailed(text)),
            ),
            (BridgePhase::Reading, BridgeEvent::Output { event, waited_ms }) => {
                match &mut self.process {
                    None => BridgeStep::Done(Err(BridgeError::ProcessNotStarted)),
                    Some(process) => {
                        let step = process.read_response(&self.rule, event);
                        let remaining_ms = if waited_ms >= self.remaining_ms {
                            0
                        } else {
                            self.remaining_ms - waited_ms
                        };
                        self.remaining_ms = remaining_ms;
                        match step {
                            ReadStep::Pending => {
                                if remaining_ms == 0 {
                                    process.begin_response();
                                    BridgeStep::Done(Err(BridgeError::ResponseTimeout))
                                } else {
                                    self.phase = BridgePhase::Reading;
                                    BridgeStep::Perform(
                                        BridgeAction::AwaitOutput { timeout_ms: remaining_ms },
                                    )
                                }
                            },
                            ReadStep::Complete(text) => BridgeStep::Done(
                                Ok(BridgeOutput::Reply(text)),
                            ),
                            ReadStep::TimedOut => BridgeStep::Done(
                                Err(BridgeError::ResponseTimeout),
                            ),
                        }
                    },
                }
            },
            (BridgePhase::Interrupting, BridgeEvent::Interrupted) => BridgeStep::Done(
                Ok(BridgeOutput::Cancelled),
            ),
            (BridgePhase::Killing, BridgeEvent::Killed) => BridgeStep::Done(
                Ok(BridgeOutput::ShutDown),
            ),
            _ => BridgeStep::Done(Err(BridgeError::UnexpectedEvent)),
        }
    }
}

/// The waits for one reply go on for no longer than the time allowed.
///
/// A message starts its reply with all of the time allowed.  Each wait that
/// is asked for while the reply is read is for what is left of the time, and
/// what is left after it is less by as long as it went on, or nothing.
pub proof fn lemma_waits_stay_within_the_time(
    bridge: BridgeView,
    message: Seq<char>,
    event: BridgeEventView,
)
    ensures
        bridge.send_message(message).1 is Perform ==> bridge.send_message(message).0.remaining_ms
            == bridge.response_timeout_ms,
        ({
            let (next, step) = bridge.resume(event);
            &&& step matches BridgeStepView::Perform(BridgeActionView::AwaitOutput { timeout_ms })
                ==> timeout_ms == next.remaining_ms && next.remaining_ms <= bridge.remaining_ms
            &&& match event {
                BridgeEventView::Output { waited_ms, .. } => bridge.phase == BridgePhase::Reading
                    && bridge.process is Some ==> next.remaining_ms == bridge.time_left(
                    waited_ms,
                ),
                _ => true,
            }
        }),
{
}

} // verus!
