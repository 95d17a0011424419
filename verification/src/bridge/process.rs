//! One child process as the bridge sees it: what to start, what to write to
//! its input, whom to signal, and when the lines that it has printed make up
//! one complete reply.

use crate::text::{contains, ends_with, has_infix, has_suffix, optional_text};
use vstd::prelude::*;
use vstd::string::StringExecFns;

verus! {

/// How many printed lines may wait to be read before the reader of the
/// child's output has to wait itself.
pub const OUTPUT_QUEUE_CAPACITY: usize = 100;

/// The rule that decides when the output read so far is one complete reply:
/// it is complete when it ends with the fence or holds the marker.  A part
/// that is `None` never matches.
#[derive(Clone, Debug, PartialEq, Eq)]
pub struct CompletionRule {
    pub fence: Option<String>,
    pub marker: Option<String>,
}

/// The view of a [`CompletionRule`].
pub struct CompletionRuleView {
    pub fence: Option<Seq<char>>,
    pub marker: Option<Seq<char>>,
}

impl View for CompletionRule {
    type V = CompletionRuleView;

    open spec fn view(&self) -> CompletionRuleView {
        CompletionRuleView { fence: optional_text(self.fence), marker: optional_text(self.marker) }
    }
}

impl CompletionRuleView {
    /// `text` is one complete reply.
    pub open spec fn complete(self, text: Seq<char>) -> bool {
        ||| self.fence matches Some(fence) && has_suffix(text, fence)
        ||| self.marker matches Some(marker) && has_infix(text, marker)
    }

    /// The rule in use unless another is given: a closing code fence at the
    /// end of a line, or the end-of-turn marker anywhere.
    pub open spec fn standard() -> CompletionRuleView {
        CompletionRuleView { fence: Some("```\n"@), marker: Some("[END]"@) }
    }
}

impl CompletionRule {
    /// The rule in use unless another is given.
    pub fn standard() -> (rule: Self)
        ensures
            rule@ == CompletionRuleView::standard(),
    {
        CompletionRule { fence: Some("```\n".to_owned()), marker: Some("[END]".to_owned()) }
    }

    /// Whether `response` is one complete reply.
    pub fn is_response_complete(&self, response: &str) -> (complete: bool)
        ensures
            complete == self@.complete(response@),
    {
        let fenced = match &self.fence {
            Some(fence) => ends_with(response, fence.as_str()),
            None => false,
        };
        if fenced {
            return true;
        }
        match &self.marker {
            Some(marker) => contains(response, marker.as_str()),
            None => false,
        }
    }
}

/// What came of one attempt to take the next printed line.
#[derive(Clone, Debug, PartialEq, Eq)]
pub enum OutputEvent {
    /// A line, with its line terminator.
    Line(String),
    /// The child will print no more.
    Exhausted,
    /// The time allowed for the reply has run out.
    TimedOut,
}

/// The view of an [`OutputEvent`].
pub enum OutputEventView {
    Line(Seq<char>),
    Exhausted,
    TimedOut,
}

impl View for OutputEvent {
    type V = OutputEventView;

    open spec fn view(&self) -> OutputEventView {
        match self {
            OutputEvent::Line(line) => OutputEventView::Line(line@),
            OutputEvent::Exhausted => OutputEventView::Exhausted,
            OutputEvent::TimedOut => OutputEventView::TimedOut,
        }
    }
}

/// Where the reading of a reply stands after one more event.
#[derive(Clone, Debug, PartialEq, Eq)]
pub enum ReadStep {
    /// The reply is not complete: take the next line.
    Pending,
    /// The reply.
    Complete(String),
    /// No complete reply came in time.
    TimedOut,
}

/// The view of a [`ReadStep`].
pub enum ReadStepView {
    Pending,
    Complete(Seq<char>),
    TimedOut,
}

impl View for ReadStep {
    type V = ReadStepView;

    open spec fn view(&self) -> ReadStepView {
        match self {
            ReadStep::Pending => ReadStepView::Pending,
            ReadStep::Complete(text) => ReadStepView::Complete(text@),
            ReadStep::TimedOut => ReadStepView::TimedOut,
        }
    }
}

/// How to start the child: the program, the directory to start it in, and the
/// capacity of the queue that takes up its printed lines.  Its input, output
/// and error streams are pipes.
#[derive(Clone, Debug, PartialEq, Eq)]
pub struct SpawnPlan {
    pub program: String,
    pub working_dir: String,
    pub queue_capacity: usize,
}

/// The view of a [`SpawnPlan`].
pub struct SpawnPlanView {
    pub program: Seq<char>,
    pub working_dir: Seq<char>,
    pub queue_capacity: usize,
}

impl View for SpawnPlan {
    type V = SpawnPlanView;

    open spec fn view(&self) -> SpawnPlanView {
        SpawnPlanView {
            program: self.program@,
            working_dir: self.working_dir@,
            queue_capacity: self.queue_capacity,
        }
    }
}

/// What came of one attempt to read a line from the child's output stream.
#[derive(Clone, Debug, PartialEq, Eq)]
pub enum DrainRead {
    /// The stream has ended: nothing was read.
    EndOfStream,
    /// A line, with its line terminator.
    Line(String),
    /// The read failed.
    Failed,
}

/// A running child: its process identifier, as far as it is known, and the
/// part of the current reply that has been read.
#[derive(Clone, Debug, PartialEq, Eq)]
pub struct KiroProcess {
    pub pid: Option<u32>,
    pub response: String,
}

/// The view of a [`KiroProcess`].
pub struct ProcessView {
    pub pid: Option<u32>,
    pub response: Seq<char>,
}

impl View for KiroProcess {
    type V = ProcessView;

    open spec fn view(&self) -> ProcessView {
        ProcessView { pid: self.pid, response: self.response@ }
    }
}

impl ProcessView {
    /// A child that has just been started.
    pub open spec fn started(pid: Option<u32>) -> ProcessView {
        ProcessView { pid, response: Seq::empty() }
    }

    /// This child with nothing read of the current reply.
    pub open spec fn cleared(self) -> ProcessView {
        ProcessView { response: Seq::empty(), ..self }
    }

    /// What is written to the child's input for `input`: the text and a
    /// newline.
    pub open spec fn input_frame(input: Seq<char>) -> Seq<char> {
        input + "\n"@
    }

    /// One step of reading a reply.  A line is added to what has been read;
    /// the reply is complete as soon as `rule` says so of all that has been
    /// read, and also when the child will print no more.
    pub open spec fn read_response(self, rule: CompletionRuleView, event: OutputEventView) -> (
        ProcessView,
        ReadStepView,
    ) {
        match event {
            OutputEventView::Line(line) => {
                let text = self.response + line;
                if rule.complete(text) {
                    (self.cleared(), ReadStepView::Complete(text))
                } else {
                    (ProcessView { response: text, ..self }, ReadStepView::Pending)
                }
            },
            OutputEventView::Exhausted => (self.cleared(), ReadStepView::Complete(self.response)),
            OutputEventView::TimedOut => (self.cleared(), ReadStepView::TimedOut),
        }
    }
}

impl KiroProcess {
    /// How to start `kiro_path` in `working_dir`.
    pub fn spawn(kiro_path: &str, working_dir: &str) -> (plan: SpawnPlan)
        ensures
            plan@ == (SpawnPlanView {
                program: kiro_path@,
                working_dir: working_dir@,
                queue_capacity: OUTPUT_QUEUE_CAPACITY,
            }),
    {
        SpawnPlan {
            program: kiro_path.to_owned(),
            working_dir: working_dir.to_owned(),
            queue_capacity: OUTPUT_QUEUE_CAPACITY,
        }
    }

    /// The child that was started, with its process identifier as far as the
    /// system gave one.
    pub fn started(pid: Option<u32>) -> (process: Self)
        ensures
            process@ == ProcessView::started(pid),
    {
        KiroProcess { pid, response: String::new() }
    }

    /// The line that the reader of the child's output hands on after `read`,
    /// or `None` where it stops: at the end of the stream and after a failed
    /// read.
    pub fn drain(read: DrainRead) -> (forward: Option<String>)
        ensures
            forward == match read {
                DrainRead::Line(line) => Some(line),
                DrainRead::EndOfStream => None,
                DrainRead::Failed => None,
            },
    {
        match read {
            DrainRead::Line(line) => Some(line),
            DrainRead::EndOfStream => None,
            DrainRead::Failed => None,
        }
    }

    /// What is to be written to the child's input, and flushed, for `input`.
    pub fn send_input(&self, input: &str) -> (frame: String)
        ensures
            frame@ == ProcessView::input_frame(input@),
    {
        let mut frame = input.to_owned();
        frame.append("\n");
        frame
    }

    /// Forgets what has been read: the next line starts a new reply.
    pub fn begin_response(&mut self)
        ensures
            final(self)@ == old(self)@.cleared(),
    {
        self.response = String::new();
    }

    /// One step of reading a reply: takes up `event` and says whether the
    /// reply is complete.
    pub fn read_response(&mut self, rule: &CompletionRule, event: OutputEvent) -> (step: ReadStep)
        ensures
            (final(self)@, step@) == old(self)@.read_response(rule@, event@),
    {
        match event {
            OutputEvent::Line(line) => {
                self.response.append(line.as_str());
                if rule.is_response_complete(self.response.as_str()) {
                    let text = self.response.clone();
                    self.response = String::new();
                    ReadStep::Complete(text)
                } else {
                    ReadStep::Pending
                }
            },
            OutputEvent::Exhausted => {
                let text = self.response.clone();
                self.response = String::new();
                ReadStep::Complete(text)
            },
            OutputEvent::TimedOut => {
                self.response = String::new();
                ReadStep::TimedOut
            },
        }
    }

    /// The process to which an interrupt signal goes, if it is known.
    pub fn send_interrupt(&self) -> (target: Option<u32>)
        ensures
            target == self@.pid,
    {
        self.pid
    }
}

/// The lines of `lines` one after the other.
pub open spec fn joined(lines: Seq<Seq<char>>) -> Seq<char>
    decreases lines.len(),
{
    if lines.len() == 0 {
        Seq::empty()
    } else {
        joined(lines.drop_last()) + lines.last()
    }
}

/// Reading `lines` one after the other, up to the first that ends the reply.
pub open spec fn read_lines(
    process: ProcessView,
    rule: CompletionRuleView,
    lines: Seq<Seq<char>>,
) -> (ProcessView, ReadStepView)
    decreases lines.len(),
{
    if lines.len() == 0 {
        (process, ReadStepView::Pending)
    } else {
        let (before, step) = read_lines(process, rule, lines.drop_last());
        if step is Pending {
            before.read_response(rule, OutputEventView::Line(lines.last()))
        } else {
            (before, step)
        }
    }
}

/// A reply is all the lines up to the one that completes it, and not fewer.
///
/// Where a child that has read nothing prints lines of which the first `n`
/// together are complete and no fewer are, the reading of the first `n - 1`
/// stays pending and the reading of the `n`th gives all `n` lines, one
/// after the other, as the reply.
pub proof fn lemma_reply_is_all_lines_up_to_completion(
    process: ProcessView,
    rule: CompletionRuleView,
    lines: Seq<Seq<char>>,
)
    requires
        process.response.len() == 0,
        lines.len() > 0,
        rule.complete(joined(lines)),
        forall|k: int| 0 < k < lines.len() ==> !rule.complete(#[trigger] joined(lines.take(k))),
    ensures
        read_lines(process, rule, lines.drop_last()) == (
            ProcessView { response: joined(lines.drop_last()), ..process },
            ReadStepView::Pending,
        ),
        read_lines(process, rule, lines) == (
            process.cleared(),
            ReadStepView::Complete(joined(lines)),
        ),
{
    lemma_incomplete_lines_stay_pending(process, rule, lines, lines.len() - 1);
    assert(lines.take(lines.len() - 1) =~= lines.drop_last());
}

/// Where none of the first `n` lines completes the reply, reading them
/// stays pending and keeps them all.
proof fn lemma_incomplete_lines_stay_pending(
    process: ProcessView,
    rule: CompletionRuleView,
    lines: Seq<Seq<char>>,
    n: int,
)
    requires
        process.response.len() == 0,
        0 <= n <= lines.len(),
        forall|k: int| 0 < k <= n ==> !rule.complete(#[trigger] joined(lines.take(k))),
    ensures
        read_lines(process, rule, lines.take(n)) == (
            ProcessView { response: joined(lines.take(n)), ..process },
            ReadStepView::Pending,
        ),
    decreases n,
{
    if n == 0 {
        assert(process.response =~= joined(lines.take(0)));
    } else {
        lemma_incomplete_lines_stay_pending(process, rule, lines, n - 1);
        assert(lines.take(n).drop_last() =~= lines.take(n - 1));
        assert(lines.take(n).last() == lines[n - 1]);
    }
}

} // verus!
