//! The conversation with `geode new` over a pseudo-terminal.
//!
//! `geode new` asks its questions one by one on a terminal. The session below decides, from
//! what was seen on the terminal, what to type next, how long to wait for the next
//! question, and what to report at the end. The program around the library performs the
//! terminal work and hands back what happened.
use vstd::prelude::*;
use crate::ansi::{strip_ansi, without_escapes};
use crate::command::{command_model, CommandLine, CommandModel};
use crate::new::{template_position, NewProjectRequest, Template};
use crate::text::{chars_of, contains, contains_text};

verus! {

/// Rows of the pseudo-terminal that `geode new` runs in.
pub const PTY_ROWS: u16 = 40;

/// Columns of the pseudo-terminal that `geode new` runs in.
pub const PTY_COLS: u16 = 120;

/// How long a question of the form may take to appear, in milliseconds.
pub const PROMPT_TIMEOUT_MS: u64 = 6000;

/// How long the closing confirmation may take to appear, in milliseconds.
pub const CONFIRM_TIMEOUT_MS: u64 = 3000;

/// How long `geode new` may take to exit once everything is answered, in milliseconds.
pub const EXIT_TIMEOUT_MS: u64 = 15000;

/// The pause between two looks at the terminal while waiting for a question, in milliseconds.
pub const POLL_INTERVAL_MS: u64 = 30;

/// How many delete characters clear a field before it is typed.
pub const ERASE_COUNT: usize = 200;

/// The value of `TERM` that `geode new` runs with.
pub fn terminal_type() -> (r: &'static str)
    ensures
        r@ == "xterm-256color"@,
{
    "xterm-256color"
}

/// The command line `geode_path new`.
pub fn geode_new_command(geode_path: &str) -> (r: CommandLine)
    ensures
        r@ == command_model(geode_path@, seq!["new"@]),
{
    let mut args: Vec<String> = Vec::new();
    args.push(String::from_str("new"));
    let r = CommandLine { program: String::from_str(geode_path), args };
    assert(r@.args =~= seq!["new"@]);
    r
}

/// One piece of terminal work.
#[derive(Debug, Clone)]
pub enum PtyOp {
    /// Wait this many milliseconds.
    Sleep(u64),
    /// Type this text.
    Type(String),
    /// Send this many delete characters (0x7f).
    Erase(usize),
    /// Kill `geode new`.
    Kill,
}

/// A piece of terminal work as the specification sees it.
pub enum OpModel {
    Sleep(u64),
    Type(Seq<char>),
    Erase(usize),
    Kill,
}

impl View for PtyOp {
    type V = OpModel;

    open spec fn view(&self) -> OpModel {
        match self {
            PtyOp::Sleep(ms) => OpModel::Sleep(*ms),
            PtyOp::Type(t) => OpModel::Type(t@),
            PtyOp::Erase(n) => OpModel::Erase(*n),
            PtyOp::Kill => OpModel::Kill,
        }
    }
}

/// The views of a list of terminal operations.
pub open spec fn ops_view(ops: Seq<PtyOp>) -> Seq<OpModel> {
    ops.map_values(|o: PtyOp| o@)
}

/// What to wait for after the terminal work is done.
#[derive(Debug, Clone)]
pub enum Await {
    /// Until the terminal output holds this text, for at most this many milliseconds.
    Prompt(String, u64),
    /// Until `geode new` exits, for at most this many milliseconds.
    Exit(u64),
    /// Nothing: hand back all the terminal output captured so far.
    Capture,
}

/// What to wait for, as the specification sees it.
pub enum AwaitModel {
    Prompt(Seq<char>, u64),
    Exit(u64),
    Capture,
}

impl View for Await {
    type V = AwaitModel;

    open spec fn view(&self) -> AwaitModel {
        match self {
            Await::Prompt(t, ms) => AwaitModel::Prompt(t@, *ms),
            Await::Exit(ms) => AwaitModel::Exit(*ms),
            Await::Capture => AwaitModel::Capture,
        }
    }
}

/// How the conversation ended.
#[derive(Debug, Clone, Copy, PartialEq, Eq, Structural)]
pub enum Outcome {
    /// Every question was answered and `geode new` exited.
    Completed,
    /// The question of this field of the form never appeared.
    PromptMissed(usize),
    /// The question about stripping comments never appeared.
    StripPromptMissed,
    /// `geode new` did not exit after the last answer.
    NoExit,
}

/// Where the conversation stands.
#[derive(Debug, Clone, Copy, PartialEq, Eq, Structural)]
pub enum Stage {
    /// Waiting for the question of this field of the form (0 to 4).
    Field(usize),
    /// Waiting for the question about stripping comments.
    StripPrompt,
    /// Waiting for the closing confirmation, which may not come.
    Confirm,
    /// Waiting for `geode new` to exit.
    Exiting,
    /// Waiting for the captured output, to report this outcome.
    Collecting(Outcome),
    /// The report was made.
    Done,
}

/// What the program around the library saw.
#[derive(Debug, Clone)]
pub enum Event {
    /// What was waited for happened.
    Seen,
    /// What was waited for did not happen in time.
    TimedOut,
    /// The terminal output captured so far.
    Captured(String),
}

/// An event as the specification sees it.
pub enum EventModel {
    Seen,
    TimedOut,
    Captured(Seq<char>),
}

impl View for Event {
    type V = EventModel;

    open spec fn view(&self) -> EventModel {
        match self {
            Event::Seen => EventModel::Seen,
            Event::TimedOut => EventModel::TimedOut,
            Event::Captured(t) => EventModel::Captured(t@),
        }
    }
}

/// What the session asks for next.
#[derive(Debug, Clone)]
pub enum Step {
    /// Perform the operations in order, then wait as said.
    Continue(Vec<PtyOp>, Await),
    /// The conversation is over; this is its report.
    Finish(String),
    /// The event does not fit the stage; nothing changed.
    Ignored,
}

/// A step as the specification sees it.
pub enum StepModel {
    Continue(Seq<OpModel>, AwaitModel),
    Finish(Seq<char>),
    Ignored,
}

impl View for Step {
    type V = StepModel;

    open spec fn view(&self) -> StepModel {
        match self {
            Step::Continue(ops, w) => StepModel::Continue(ops_view(ops@), w@),
            Step::Finish(t) => StepModel::Finish(t@),
            Step::Ignored => StepModel::Ignored,
        }
    }
}

/// The question of field `i` of the form, as `geode new` prints it.
pub open spec fn field_prompt(i: int) -> Seq<char> {
    if i == 0 {
        "Name:"@
    } else if i == 1 {
        "Version:"@
    } else if i == 2 {
        "Developer:"@
    } else if i == 3 {
        "Description"@
    } else {
        "Location:"@
    }
}

/// The answer to field `i` of the form.
pub open spec fn field_answer(r: NewProjectRequest, i: int) -> Seq<char> {
    if i == 0 {
        r.mod_name@
    } else if i == 1 {
        r.version@
    } else if i == 2 {
        r.developer@
    } else if i == 3 {
        r.description@
    } else {
        r.target_directory@
    }
}

/// The number of fields of the form.
pub open spec fn field_count() -> int {
    5
}

/// The question about stripping comments.
pub open spec fn strip_prompt() -> Seq<char> {
    "remove comments"@
}

/// The closing confirmation.
pub open spec fn confirm_prompt() -> Seq<char> {
    "Are you sure you want to proceed"@
}

/// The answer to the question about stripping comments.
pub open spec fn strip_answer(strip: bool) -> Seq<char> {
    if strip {
        "y\n"@
    } else {
        "n\n"@
    }
}

/// The report of a conversation that ended with `o`, the terminal having shown `captured`.
pub open spec fn report(o: Outcome, captured: Seq<char>) -> Seq<char> {
    let text = without_escapes(captured);
    match o {
        Outcome::Completed => text,
        Outcome::PromptMissed(i) => text + "\n\n[Quartz] timed out waiting for '"@ + field_prompt(
            i as int,
        ) + "'."@,
        Outcome::StripPromptMissed => text
            + "\n\n[Quartz] timed out waiting for the strip comments prompt"@,
        Outcome::NoExit => text + "\n\n[Quartz] geode did not exit after all answers were sent."@,
    }
}

/// `k` presses of the down arrow, each followed by a pause.
pub open spec fn arrow_presses(k: nat) -> Seq<OpModel>
    decreases k,
{
    if k == 0 {
        seq![]
    } else {
        arrow_presses((k - 1) as nat) + seq![OpModel::Type("\x1b[B"@), OpModel::Sleep(60)]
    }
}

/// The opening of the conversation: a pause, the template chosen with the arrow keys,
/// Enter, and then the first question.
pub open spec fn opening(t: Template) -> StepModel {
    StepModel::Continue(
        seq![OpModel::Sleep(150)] + arrow_presses(template_position(t) as nat) + seq![
            OpModel::Type("\r"@),
        ],
        AwaitModel::Prompt(field_prompt(0), PROMPT_TIMEOUT_MS),
    )
}

/// After a question failed to appear: kill `geode new` and collect what it printed.
pub open spec fn abandon() -> StepModel {
    StepModel::Continue(seq![OpModel::Kill], AwaitModel::Capture)
}

/// The session's rule: from the stage and what was seen, the next stage and the next step.
pub open spec fn transition(stage: Stage, r: NewProjectRequest, e: EventModel) -> (Stage, StepModel) {
    match (stage, e) {
        (Stage::Field(i), EventModel::Seen) => {
            let ops = seq![
                OpModel::Sleep(80),
                OpModel::Erase(ERASE_COUNT),
                OpModel::Type(field_answer(r, i as int) + "\n"@),
            ];
            if i + 1 < field_count() {
                (
                    Stage::Field((i + 1) as usize),
                    StepModel::Continue(
                        ops,
                        AwaitModel::Prompt(field_prompt(i + 1), PROMPT_TIMEOUT_MS),
                    ),
                )
            } else {
                (
                    Stage::StripPrompt,
                    StepModel::Continue(ops, AwaitModel::Prompt(strip_prompt(), PROMPT_TIMEOUT_MS)),
                )
            }
        },
        (Stage::Field(i), EventModel::TimedOut) => (
            Stage::Collecting(Outcome::PromptMissed(i)),
            abandon(),
        ),
        (Stage::StripPrompt, EventModel::Seen) => (
            Stage::Confirm,
            StepModel::Continue(
                seq![OpModel::Type(strip_answer(r.strip_comments))],
                AwaitModel::Prompt(confirm_prompt(), CONFIRM_TIMEOUT_MS),
            ),
        ),
        (Stage::StripPrompt, EventModel::TimedOut) => (
            Stage::Collecting(Outcome::StripPromptMissed),
            abandon(),
        ),
        (Stage::Confirm, EventModel::Seen) => (
            Stage::Exiting,
            StepModel::Continue(seq![OpModel::Type("y\n"@)], AwaitModel::Exit(EXIT_TIMEOUT_MS)),
        ),
        (Stage::Confirm, EventModel::TimedOut) => (
            Stage::Exiting,
            StepModel::Continue(seq![], AwaitModel::Exit(EXIT_TIMEOUT_MS)),
        ),
        (Stage::Exiting, EventModel::Seen) => (
            Stage::Collecting(Outcome::Completed),
            StepModel::Continue(seq![OpModel::Sleep(100)], AwaitModel::Capture),
        ),
        (Stage::Exiting, EventModel::TimedOut) => (
            Stage::Collecting(Outcome::NoExit),
            StepModel::Continue(seq![], AwaitModel::Capture),
        ),
        (Stage::Collecting(o), EventModel::Captured(text)) => (
            Stage::Done,
            StepModel::Finish(report(o, text)),
        ),
        _ => (stage, StepModel::Ignored),
    }
}

/// A stage that names an existing field.
pub open spec fn stage_is_valid(stage: Stage) -> bool {
    match stage {
        Stage::Field(i) => i < field_count(),
        Stage::Collecting(Outcome::PromptMissed(i)) => i < field_count(),
        _ => true,
    }
}

/// How many events, at most, the conversation still takes from `stage`.
pub open spec fn steps_left(stage: Stage) -> nat {
    match stage {
        Stage::Field(i) => (9 - i) as nat,
        Stage::StripPrompt => 4,
        Stage::Confirm => 3,
        Stage::Exiting => 2,
        Stage::Collecting(_) => 1,
        Stage::Done => 0,
    }
}

/// The conversation always ends: an event either is ignored, leaving the stage as it was,
/// or brings the conversation closer to its end; once done, every event is ignored; and
/// the stages stay valid.
pub proof fn lemma_conversation_progresses(stage: Stage, r: NewProjectRequest, e: EventModel)
    requires
        stage_is_valid(stage),
    ensures
        stage_is_valid(transition(stage, r, e).0),
        (transition(stage, r, e).1 is Ignored && transition(stage, r, e).0 == stage) || steps_left(
            transition(stage, r, e).0,
        ) < steps_left(stage),
        stage is Done ==> transition(stage, r, e).1 is Ignored,
{
}

/// Every report begins with the captured output, its escape sequences removed.
pub proof fn lemma_report_begins_with_output(o: Outcome, captured: Seq<char>)
    ensures
        report(o, captured).len() >= without_escapes(captured).len(),
        report(o, captured).subrange(0, without_escapes(captured).len() as int)
            == without_escapes(captured),
{
    let text = without_escapes(captured);
    assert(report(o, captured).subrange(0, text.len() as int) =~= text);
}

/// The step that clears the field, types `answer` and a newline, then waits for `next`.
pub open spec fn answer_step(answer: Seq<char>, next: Seq<char>, timeout_ms: u64) -> StepModel {
    StepModel::Continue(
        seq![OpModel::Sleep(80), OpModel::Erase(200), OpModel::Type(answer + "\n"@)],
        AwaitModel::Prompt(next, timeout_ms),
    )
}

/// The conversation answers the form in order: the mod's name at `Name:`, its version at
/// `Version:`, the developer at `Developer:`, the description at `Description`, the folder
/// at `Location:`, then `y` to removing comments exactly when asked to, `y` to the closing
/// confirmation, and waits for the tool to exit. A question that does not appear in time
/// makes it kill the tool and collect the output.
pub proof fn lemma_session_answers_form(r: NewProjectRequest, i: usize)
    ensures
        transition(Stage::Field(0), r, EventModel::Seen) == (Stage::Field(1), answer_step(
            r.mod_name@,
            "Version:"@,
            6000,
        )),
        transition(Stage::Field(1), r, EventModel::Seen) == (Stage::Field(2), answer_step(
            r.version@,
            "Developer:"@,
            6000,
        )),
        transition(Stage::Field(2), r, EventModel::Seen) == (Stage::Field(3), answer_step(
            r.developer@,
            "Description"@,
            6000,
        )),
        transition(Stage::Field(3), r, EventModel::Seen) == (Stage::Field(4), answer_step(
            r.description@,
            "Location:"@,
            6000,
        )),
        transition(Stage::Field(4), r, EventModel::Seen) == (Stage::StripPrompt, answer_step(
            r.target_directory@,
            "remove comments"@,
            6000,
        )),
        transition(Stage::StripPrompt, r, EventModel::Seen).1 == StepModel::Continue(
            seq![OpModel::Type(if r.strip_comments { "y\n"@ } else { "n\n"@ })],
            AwaitModel::Prompt("Are you sure you want to proceed"@, 3000),
        ),
        transition(Stage::Confirm, r, EventModel::Seen) == (Stage::Exiting, StepModel::Continue(
            seq![OpModel::Type("y\n"@)],
            AwaitModel::Exit(15000),
        )),
        i < 5 ==> transition(Stage::Field(i), r, EventModel::TimedOut) == (Stage::Collecting(
            Outcome::PromptMissed(i),
        ), StepModel::Continue(seq![OpModel::Kill], AwaitModel::Capture)),
        transition(Stage::StripPrompt, r, EventModel::TimedOut).1 == StepModel::Continue(
            seq![OpModel::Kill],
            AwaitModel::Capture,
        ),
{
}

/// The report is the captured output without escapes: as it is when the conversation
/// completed, followed by a note naming the question that did not appear, or saying that
/// the tool did not exit.
pub proof fn lemma_reports(t: Seq<char>)
    ensures
        report(Outcome::Completed, t) == without_escapes(t),
        report(Outcome::PromptMissed(0), t) == without_escapes(t)
            + "\n\n[Quartz] timed out waiting for '"@ + "Name:"@ + "'."@,
        report(Outcome::PromptMissed(4), t) == without_escapes(t)
            + "\n\n[Quartz] timed out waiting for '"@ + "Location:"@ + "'."@,
        report(Outcome::StripPromptMissed, t) == without_escapes(t)
            + "\n\n[Quartz] timed out waiting for the strip comments prompt"@,
        report(Outcome::NoExit, t) == without_escapes(t)
            + "\n\n[Quartz] geode did not exit after all answers were sent."@,
{
}

/// One run of `geode new`: the answers it is given and where the conversation stands.
pub struct Session {
    pub request: NewProjectRequest,
    pub stage: Stage,
}

/// The question of field `i`.
fn field_prompt_text(i: usize) -> (r: &'static str)
    requires
        i < field_count(),
    ensures
        r@ == field_prompt(i as int),
{
    if i == 0 {
        "Name:"
    } else if i == 1 {
        "Version:"
    } else if i == 2 {
        "Developer:"
    } else if i == 3 {
        "Description"
    } else {
        "Location:"
    }
}

/// The answer to field `i`, followed by a newline.
fn field_answer_line(r: &NewProjectRequest, i: usize) -> (a: String)
    requires
        i < field_count(),
    ensures
        a@ == field_answer(*r, i as int) + "\n"@,
{
    let mut a = if i == 0 {
        r.mod_name.clone()
    } else if i == 1 {
        r.version.clone()
    } else if i == 2 {
        r.developer.clone()
    } else if i == 3 {
        r.description.clone()
    } else {
        r.target_directory.clone()
    };
    a.append("\n");
    a
}

/// The report of an outcome, from the captured terminal output.
pub fn report_text(o: Outcome, captured: &str) -> (r: String)
    requires
        stage_is_valid(Stage::Collecting(o)),
    ensures
        r@ == report(o, captured@),
{
    let mut text = strip_ansi(captured);
    match o {
        Outcome::Completed => {},
        Outcome::PromptMissed(i) => {
            text.append("\n\n[Quartz] timed out waiting for '");
            text.append(field_prompt_text(i));
            text.append("'.");
        },
        Outcome::StripPromptMissed => {
            text.append("\n\n[Quartz] timed out waiting for the strip comments prompt");
        },
        Outcome::NoExit => {
            text.append("\n\n[Quartz] geode did not exit after all answers were sent.");
        },
    }
    text
}

/// Starts the conversation for `request`.
pub fn start(request: NewProjectRequest) -> (r: (Session, Step))
    ensures
        r.0.request == request,
        r.0.stage == Stage::Field(0),
        r.1@ == opening(request.template),
{
    let mut ops: Vec<PtyOp> = Vec::new();
    ops.push(PtyOp::Sleep(150));
    let presses = request.template.down_presses();
    let mut k: usize = 0;
    assert(ops_view(ops@) =~= seq![OpModel::Sleep(150)] + arrow_presses(0));
    while k < presses
        invariant
            k <= presses,
            presses == template_position(request.template),
            ops_view(ops@) == seq![OpModel::Sleep(150)] + arrow_presses(k as nat),
        decreases presses - k,
    {
        let ghost before = ops_view(ops@);
        ops.push(PtyOp::Type(String::from_str("\x1b[B")));
        ops.push(PtyOp::Sleep(60));
        assert(ops_view(ops@) =~= before + seq![OpModel::Type("\x1b[B"@), OpModel::Sleep(60)]);
        k = k + 1;
    }
    let ghost before = ops_view(ops@);
    ops.push(PtyOp::Type(String::from_str("\r")));
    assert(ops_view(ops@) =~= before + seq![OpModel::Type("\r"@)]);
    let first = String::from_str(field_prompt_text(0));
    (Session { request, stage: Stage::Field(0) }, Step::Continue(ops, Await::Prompt(first, PROMPT_TIMEOUT_MS)))
}

impl Session {
    /// Takes in what was seen on the terminal and says what to do next.
    pub fn advance(&mut self, event: Event) -> (step: Step)
        requires
            stage_is_valid(old(self).stage),
        ensures
            final(self).request == old(self).request,
            stage_is_valid(final(self).stage),
            (final(self).stage, step@) == transition(old(self).stage, old(self).request, event@),
    {
        match (self.stage, event) {
            (Stage::Field(i), Event::Seen) => {
                let mut ops: Vec<PtyOp> = Vec::new();
                ops.push(PtyOp::Sleep(80));
                ops.push(PtyOp::Erase(ERASE_COUNT));
                ops.push(PtyOp::Type(field_answer_line(&self.request, i)));
                assert(ops_view(ops@) =~= seq![
                    OpModel::Sleep(80),
                    OpModel::Erase(ERASE_COUNT),
                    OpModel::Type(field_answer(self.request, i as int) + "\n"@),
                ]);
                if i + 1 < 5 {
                    self.stage = Stage::Field(i + 1);
                    let next = String::from_str(field_prompt_text(i + 1));
                    Step::Continue(ops, Await::Prompt(next, PROMPT_TIMEOUT_MS))
                } else {
                    self.stage = Stage::StripPrompt;
                    Step::Continue(ops, Await::Prompt(String::from_str("remove comments"), PROMPT_TIMEOUT_MS))
                }
            },
            (Stage::Field(i), Event::TimedOut) => {
                self.stage = Stage::Collecting(Outcome::PromptMissed(i));
                Self::abandon_step()
            },
            (Stage::StripPrompt, Event::Seen) => {
                self.stage = Stage::Confirm;
                let answer = if self.request.strip_comments {
                    "y\n"
                } else {
                    "n\n"
                };
                let mut ops: Vec<PtyOp> = Vec::new();
                ops.push(PtyOp::Type(String::from_str(answer)));
                assert(ops_view(ops@) =~= seq![OpModel::Type(strip_answer(self.request.strip_comments))]);
                Step::Continue(
                    ops,
                    Await::Prompt(String::from_str("Are you sure you want to proceed"), CONFIRM_TIMEOUT_MS),
                )
            },
            (Stage::StripPrompt, Event::TimedOut) => {
                self.stage = Stage::Collecting(Outcome::StripPromptMissed);
                Self::abandon_step()
            },
            (Stage::Confirm, Event::Seen) => {
                self.stage = Stage::Exiting;
                let mut ops: Vec<PtyOp> = Vec::new();
                ops.push(PtyOp::Type(String::from_str("y\n")));
                assert(ops_view(ops@) =~= seq![OpModel::Type("y\n"@)]);
                Step::Continue(ops, Await::Exit(EXIT_TIMEOUT_MS))
            },
            (Stage::Confirm, Event::TimedOut) => {
                self.stage = Stage::Exiting;
                let ops: Vec<PtyOp> = Vec::new();
                assert(ops_view(ops@) =~= Seq::<OpModel>::empty());
                Step::Continue(ops, Await::Exit(EXIT_TIMEOUT_MS))
            },
            (Stage::Exiting, Event::Seen) => {
                self.stage = Stage::Collecting(Outcome::Completed);
                let mut ops: Vec<PtyOp> = Vec::new();
                ops.push(PtyOp::Sleep(100));
                assert(ops_view(ops@) =~= seq![OpModel::Sleep(100)]);
                Step::Continue(ops, Await::Capture)
            },
            (Stage::Exiting, Event::TimedOut) => {
                self.stage = Stage::Collecting(Outcome::NoExit);
                let ops: Vec<PtyOp> = Vec::new();
                assert(ops_view(ops@) =~= Seq::<OpModel>::empty());
                Step::Continue(ops, Await::Capture)
            },
            (Stage::Collecting(o), Event::Captured(text)) => {
                self.stage = Stage::Done;
                Step::Finish(report_text(o, text.as_str()))
            },
            _ => Step::Ignored,
        }
    }

    fn abandon_step() -> (step: Step)
        ensures
            step@ == abandon(),
    {
        let mut ops: Vec<PtyOp> = Vec::new();
        ops.push(PtyOp::Kill);
        assert(ops_view(ops@) =~= seq![OpModel::Kill]);
        Step::Continue(ops, Await::Capture)
    }
}

/// The result of one look at the terminal while waiting for a question.
#[derive(Debug, Clone, Copy, PartialEq, Eq, Structural)]
pub enum Poll {
    /// The question is on the terminal.
    Found,
    /// The time is up.
    TimedOut,
    /// Look again after `POLL_INTERVAL_MS`.
    Retry,
}

/// Decides, from the terminal output so far and the time spent waiting, whether the
/// awaited text has appeared, the wait is over, or another look is due.
pub fn poll_for(output: &str, needle: &str, elapsed_ms: u64, timeout_ms: u64) -> (r: Poll)
    ensures
        r == if contains_text(output@, needle@) {
            Poll::Found
        } else if elapsed_ms > timeout_ms {
            Poll::TimedOut
        } else {
            Poll::Retry
        },
{
    let h = chars_of(output);
    let n = chars_of(needle);
    if contains(&h, &n) {
        Poll::Found
    } else if elapsed_ms > timeout_ms {
        Poll::TimedOut
    } else {
        Poll::Retry
    }
}

/// What went wrong while setting up the terminal for `geode new`.
#[derive(Debug, Clone, Copy, PartialEq, Eq, Structural)]
pub enum PtyFailure {
    OpenPty,
    Spawn,
    CloneReader,
    TakeWriter,
}

/// The text that reports a setup failure.
pub open spec fn failure_prefix(f: PtyFailure) -> Seq<char> {
    match f {
        PtyFailure::OpenPty => "opening PTY failed: "@,
        PtyFailure::Spawn => "geode failed: "@,
        PtyFailure::CloneReader => "cloning PTY reader fialed: "@,
        PtyFailure::TakeWriter => "taking PTY writer failed: "@,
    }
}

/// The report of a setup failure: what failed, and the reason.
pub fn failure_report(f: PtyFailure, reason: &str) -> (r: String)
    ensures
        r@ == failure_prefix(f) + reason@,
{
    let mut out = String::from_str(
        match f {
            PtyFailure::OpenPty => "opening PTY failed: ",
            PtyFailure::Spawn => "geode failed: ",
            PtyFailure::CloneReader => "cloning PTY reader fialed: ",
            PtyFailure::TakeWriter => "taking PTY writer failed: ",
        },
    );
    out.append(reason);
    out
}

} // verus!
