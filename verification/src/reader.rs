//! The prompt loops, as state machines: each consumes one read event (a line,
//! an interrupt, a failed read) and says what to do next. The caller does the
//! reading and the printing.

use vstd::prelude::*;
use crate::text::{trim, trimmed};
use crate::input::{
    Command, Input, InputView, command_in, command_of, parse_line, line_command,
    lemma_command_names_nonempty,
};
use crate::text::lemma_trimmed_concat;

verus! {

/// What one attempt to read a line gave.
pub enum ReadEvent {
    Line(String),
    Interrupted,
    Failed,
}

/// The mathematical value of a [`ReadEvent`].
pub enum ReadEventView {
    Line(Seq<char>),
    Interrupted,
    Failed,
}

impl View for ReadEvent {
    type V = ReadEventView;

    open spec fn view(&self) -> ReadEventView {
        match self {
            ReadEvent::Line(l) => ReadEventView::Line(l@),
            ReadEvent::Interrupted => ReadEventView::Interrupted,
            ReadEvent::Failed => ReadEventView::Failed,
        }
    }
}

/// The state of a prompt: the text gathered so far, and whether multi-line
/// mode is on.
pub type PromptState = (Seq<char>, bool);

/// Whether the gathered text is ready to be sent: it holds more than
/// whitespace and multi-line mode is off.
pub open spec fn ready(st: PromptState) -> bool {
    trimmed(st.0).len() > 0 && !st.1
}

// ---------------------------------------------------------------------------
// The line-editor prompt that returns an `Input`.

/// What the line-editor prompt does after one read.
#[derive(Debug)]
pub enum CliAction {
    /// Read another line.
    Read,
    /// Tell the user that multi-line mode is on, then read another line.
    MultiLineOn,
    /// The prompt is over, with this input.
    Finish(Input),
}

/// The mathematical value of a [`CliAction`].
pub enum CliActionView {
    Read,
    MultiLineOn,
    Finish(InputView),
}

impl View for CliAction {
    type V = CliActionView;

    open spec fn view(&self) -> CliActionView {
        match self {
            CliAction::Read => CliActionView::Read,
            CliAction::MultiLineOn => CliActionView::MultiLineOn,
            CliAction::Finish(i) => CliActionView::Finish(i@),
        }
    }
}

/// After a line that ends a block: finish with the gathered text if it is
/// ready, else read on.
pub open spec fn cli_settle(st: PromptState) -> (PromptState, CliActionView) {
    if ready(st) {
        (st, CliActionView::Finish(InputView::Text(st.0)))
    } else {
        (st, CliActionView::Read)
    }
}

/// One step of the line-editor prompt. An interrupt is `:exit`; a failed read
/// is an empty line; `:more` and `:end` switch multi-line mode; other
/// commands end the prompt; an empty line ends a block; any other line is
/// appended, untrimmed and with no separator, to the gathered text.
pub open spec fn cli_step(st: PromptState, e: ReadEventView) -> (PromptState, CliActionView) {
    match e {
        ReadEventView::Interrupted => (st, CliActionView::Finish(InputView::Command(Command::Exit))),
        ReadEventView::Failed => cli_settle(st),
        ReadEventView::Line(l) => match parse_line(l) {
            InputView::Command(Command::More) => ((st.0, true), CliActionView::MultiLineOn),
            InputView::Command(Command::End) => cli_settle((st.0, false)),
            InputView::Command(c) => (st, CliActionView::Finish(InputView::Command(c))),
            InputView::Text(t) => if t.len() == 0 {
                cli_settle(st)
            } else {
                ((st.0 + t, st.1), CliActionView::Read)
            },
        },
    }
}

/// The line-editor prompt.
pub struct CliReader {
    buffer: String,
    multi_line: bool,
}

impl View for CliReader {
    type V = PromptState;

    closed spec fn view(&self) -> PromptState {
        (self.buffer@, self.multi_line)
    }
}

impl CliReader {
    /// A prompt with nothing gathered, multi-line mode off.
    pub fn new() -> (r: CliReader)
        ensures
            r@ == (Seq::<char>::empty(), false),
    {
        CliReader { buffer: String::new(), multi_line: false }
    }

    fn settle(&self) -> (a: CliAction)
        ensures
            (self@, a@) == cli_settle(self@),
    {
        if trim(self.buffer.as_str()).is_empty() || self.multi_line {
            CliAction::Read
        } else {
            CliAction::Finish(Input::Text(self.buffer.clone()))
        }
    }

    /// Consumes one read event.
    pub fn feed(&mut self, event: ReadEvent) -> (a: CliAction)
        ensures
            (final(self)@, a@) == cli_step(old(self)@, event@),
    {
        match event {
            ReadEvent::Interrupted => CliAction::Finish(Input::Command(Command::Exit)),
            ReadEvent::Failed => self.settle(),
            ReadEvent::Line(l) => match Input::parse(l.as_str()) {
                Input::Command(Command::More) => {
                    self.multi_line = true;
                    CliAction::MultiLineOn
                },
                Input::Command(Command::End) => {
                    self.multi_line = false;
                    self.settle()
                },
                Input::Command(c) => CliAction::Finish(Input::Command(c)),
                Input::Text(t) => {
                    if t.as_str().is_empty() {
                        self.settle()
                    } else {
                        self.buffer.append(t.as_str());
                        CliAction::Read
                    }
                },
            },
        }
    }
}

/// The line-editor prompt hands out text only when it holds more than
/// whitespace, and never in multi-line mode.
pub proof fn lemma_cli_finishes_with_content(st: PromptState, e: ReadEventView)
    ensures
        cli_step(st, e).1 matches CliActionView::Finish(InputView::Text(t)) ==> trimmed(t).len()
            > 0 && !cli_step(st, e).0.1,
{
}

// ---------------------------------------------------------------------------
// The prompts that return the gathered text.

/// A message to show the user before going on.
#[derive(Clone, Copy, Debug, PartialEq, Eq, Structural)]
pub enum Notice {
    /// Nothing to show.
    Quiet,
    /// The line could not be read; it is to be typed again.
    ReadFailed,
    /// Multi-line mode is now on.
    MultiLineOn,
    /// Multi-line mode is now off.
    MultiLineOff,
    /// The list of commands is to be shown.
    Help,
    /// The conversation is to be reset (and the result shown).
    Reset,
}

/// Where a prompt goes after one read.
#[derive(Debug)]
pub enum Outcome {
    /// Read another line.
    Read,
    /// Leave the program.
    Exit,
    /// The prompt is over, with this text.
    Submit(String),
}

/// The mathematical value of an [`Outcome`].
pub enum OutcomeView {
    Read,
    Exit,
    Submit(Seq<char>),
}

impl View for Outcome {
    type V = OutcomeView;

    open spec fn view(&self) -> OutcomeView {
        match self {
            Outcome::Read => OutcomeView::Read,
            Outcome::Exit => OutcomeView::Exit,
            Outcome::Submit(s) => OutcomeView::Submit(s@),
        }
    }
}

/// What a prompt does after one read: first the notice, then the outcome.
#[derive(Debug)]
pub struct PromptAction {
    pub notice: Notice,
    pub outcome: Outcome,
}

impl View for PromptAction {
    type V = (Notice, OutcomeView);

    open spec fn view(&self) -> (Notice, OutcomeView) {
        (self.notice, self.outcome@)
    }
}

/// After a line that ends a block: submit the gathered text if it is ready,
/// else read on.
pub open spec fn settle(st: PromptState) -> OutcomeView {
    if ready(st) {
        OutcomeView::Submit(st.0)
    } else {
        OutcomeView::Read
    }
}

/// One step of the standard-input prompt. A failed read is reported and the
/// line read again; a blank line ends a block; `:more` and `:end` switch
/// multi-line mode; `:exit`, `:quit`, `:q` leave; any other line, the other
/// commands among them, is appended untrimmed to the gathered text.
pub open spec fn stdin_step(st: PromptState, e: ReadEventView) -> (PromptState, (Notice, OutcomeView)) {
    match e {
        ReadEventView::Line(l) => {
            let t = trimmed(l);
            if t.len() == 0 {
                (st, (Notice::Quiet, settle(st)))
            } else {
                match command_of(t) {
                    Some(Command::More) => ((st.0, true), (Notice::MultiLineOn, OutcomeView::Read)),
                    Some(Command::End) => (
                        (st.0, false),
                        (Notice::MultiLineOff, settle((st.0, false))),
                    ),
                    Some(Command::Exit) => (st, (Notice::Quiet, OutcomeView::Exit)),
                    _ => ((st.0 + l, st.1), (Notice::Quiet, OutcomeView::Read)),
                }
            }
        },
        _ => (st, (Notice::ReadFailed, OutcomeView::Read)),
    }
}

/// One step of the line-editor prompt that returns text. An interrupt
/// leaves; a failed read is an empty line; a blank line ends a block;
/// `:help` and `:reset` are carried out and end a block; `:more` and `:end`
/// switch multi-line mode; `:exit`, `:quit`, `:q` leave; any other line is
/// appended untrimmed to the gathered text.
pub open spec fn editor_step(st: PromptState, e: ReadEventView) -> (
    PromptState,
    (Notice, OutcomeView),
) {
    match e {
        ReadEventView::Interrupted => (st, (Notice::Quiet, OutcomeView::Exit)),
        ReadEventView::Failed => (st, (Notice::Quiet, settle(st))),
        ReadEventView::Line(l) => {
            let t = trimmed(l);
            if t.len() == 0 {
                (st, (Notice::Quiet, settle(st)))
            } else {
                match command_of(t) {
                    Some(Command::Exit) => (st, (Notice::Quiet, OutcomeView::Exit)),
                    Some(Command::Help) => (st, (Notice::Help, settle(st))),
                    Some(Command::Reset) => (st, (Notice::Reset, settle(st))),
                    Some(Command::More) => ((st.0, true), (Notice::MultiLineOn, OutcomeView::Read)),
                    Some(Command::End) => (
                        (st.0, false),
                        (Notice::MultiLineOff, settle((st.0, false))),
                    ),
                    None => ((st.0 + l, st.1), (Notice::Quiet, OutcomeView::Read)),
                }
            }
        },
    }
}

/// The gathered text of a prompt.
pub struct PromptBuffer {
    buffer: String,
    multi_line: bool,
}

impl View for PromptBuffer {
    type V = PromptState;

    closed spec fn view(&self) -> PromptState {
        (self.buffer@, self.multi_line)
    }
}

impl PromptBuffer {
    fn new() -> (r: PromptBuffer)
        ensures
            r@ == (Seq::<char>::empty(), false),
    {
        PromptBuffer { buffer: String::new(), multi_line: false }
    }

    fn settle(&self) -> (o: Outcome)
        ensures
            o@ == settle(self@),
    {
        if trim(self.buffer.as_str()).is_empty() || self.multi_line {
            Outcome::Read
        } else {
            Outcome::Submit(self.buffer.clone())
        }
    }

    fn append(&mut self, l: &str)
        ensures
            final(self)@ == (old(self)@.0 + l@, old(self)@.1),
    {
        self.buffer.append(l);
    }

    fn set_multi_line(&mut self, on: bool)
        ensures
            final(self)@ == (old(self)@.0, on),
    {
        self.multi_line = on;
    }
}

/// The prompt that reads whole lines from standard input.
pub struct StdinReader {
    state: PromptBuffer,
}

impl View for StdinReader {
    type V = PromptState;

    closed spec fn view(&self) -> PromptState {
        self.state@
    }
}

impl StdinReader {
    /// A prompt with nothing gathered, multi-line mode off.
    pub fn new() -> (r: StdinReader)
        ensures
            r@ == (Seq::<char>::empty(), false),
    {
        StdinReader { state: PromptBuffer::new() }
    }

    /// Consumes one read event (standard input is never interrupted).
    pub fn feed(&mut self, event: ReadEvent) -> (a: PromptAction)
        requires
            !(event is Interrupted),
        ensures
            (final(self)@, a@) == stdin_step(old(self)@, event@),
    {
        match event {
            ReadEvent::Line(l) => {
                let t = trim(l.as_str());
                if t.is_empty() {
                    return PromptAction { notice: Notice::Quiet, outcome: self.state.settle() };
                }
                match command_in(t) {
                    Some(Command::More) => {
                        self.state.set_multi_line(true);
                        PromptAction { notice: Notice::MultiLineOn, outcome: Outcome::Read }
                    },
                    Some(Command::End) => {
                        self.state.set_multi_line(false);
                        PromptAction { notice: Notice::MultiLineOff, outcome: self.state.settle() }
                    },
                    Some(Command::Exit) => PromptAction { notice: Notice::Quiet, outcome: Outcome::Exit },
                    _ => {
                        self.state.append(l.as_str());
                        PromptAction { notice: Notice::Quiet, outcome: Outcome::Read }
                    },
                }
            },
            _ => PromptAction { notice: Notice::ReadFailed, outcome: Outcome::Read },
        }
    }
}

/// The line-editor prompt that returns the gathered text.
pub struct EditorReader {
    state: PromptBuffer,
}

impl View for EditorReader {
    type V = PromptState;

    closed spec fn view(&self) -> PromptState {
        self.state@
    }
}

impl EditorReader {
    /// A prompt with nothing gathered, multi-line mode off.
    pub fn new() -> (r: EditorReader)
        ensures
            r@ == (Seq::<char>::empty(), false),
    {
        EditorReader { state: PromptBuffer::new() }
    }

    /// Consumes one read event.
    pub fn feed(&mut self, event: ReadEvent) -> (a: PromptAction)
        ensures
            (final(self)@, a@) == editor_step(old(self)@, event@),
    {
        match event {
            ReadEvent::Interrupted => PromptAction { notice: Notice::Quiet, outcome: Outcome::Exit },
            ReadEvent::Failed => PromptAction { notice: Notice::Quiet, outcome: self.state.settle() },
            ReadEvent::Line(l) => {
                let t = trim(l.as_str());
                if t.is_empty() {
                    return PromptAction { notice: Notice::Quiet, outcome: self.state.settle() };
                }
                match command_in(t) {
                    Some(Command::Exit) => PromptAction { notice: Notice::Quiet, outcome: Outcome::Exit },
                    Some(Command::Help) => PromptAction { notice: Notice::Help, outcome: self.state.settle() },
                    Some(Command::Reset) => PromptAction { notice: Notice::Reset, outcome: self.state.settle() },
                    Some(Command::More) => {
                        self.state.set_multi_line(true);
                        PromptAction { notice: Notice::MultiLineOn, outcome: Outcome::Read }
                    },
                    Some(Command::End) => {
                        self.state.set_multi_line(false);
                        PromptAction { notice: Notice::MultiLineOff, outcome: self.state.settle() }
                    },
                    None => {
                        self.state.append(l.as_str());
                        PromptAction { notice: Notice::Quiet, outcome: Outcome::Read }
                    },
                }
            },
        }
    }
}

/// The text-returning prompts submit only text that holds more than
/// whitespace, and never in multi-line mode.
pub proof fn lemma_prompts_submit_content(st: PromptState, e: ReadEventView)
    ensures
        stdin_step(st, e).1.1 matches OutcomeView::Submit(t) ==> trimmed(t).len() > 0
            && !stdin_step(st, e).0.1,
        editor_step(st, e).1.1 matches OutcomeView::Submit(t) ==> trimmed(t).len() > 0
            && !editor_step(st, e).0.1,
{
}

/// In multi-line mode, only `:end` (or leaving) ends the prompt: no other
/// line submits the gathered text.
pub proof fn lemma_multi_line_holds(st: PromptState, e: ReadEventView)
    requires
        st.1,
        !(e matches ReadEventView::Line(l) && line_is(l, Command::End)),
    ensures
        !(stdin_step(st, e).1.1 is Submit),
        !(editor_step(st, e).1.1 is Submit),
        !(cli_step(st, e).1 matches CliActionView::Finish(InputView::Text(_))),
{
}

/// Whether the trimmed line `l` names the command `c`.
pub open spec fn line_is(l: Seq<char>, c: Command) -> bool {
    command_of(trimmed(l)) == Some(c)
}

/// What the text-returning prompts do once a block ends: send the gathered
/// text when it holds more than whitespace and multi-line mode is off, and
/// read on otherwise.
pub open spec fn block_end(text: Seq<char>, multi_line: bool) -> OutcomeView {
    if trimmed(text).len() > 0 && !multi_line {
        OutcomeView::Submit(text)
    } else {
        OutcomeView::Read
    }
}

/// A line that is only whitespace (an empty line, `\n`, `\r\n`, ...) ends
/// the block in the text-returning prompts, and so does a failed read at the
/// line editor: nothing is gathered, no mode changes, and the gathered text
/// is sent when it holds more than whitespace outside multi-line mode. At
/// the prompt that returns an `Input`, an empty line does the same.
pub proof fn lemma_blank_line_ends_block(st: PromptState, l: Seq<char>)
    requires
        trimmed(l).len() == 0,
    ensures
        stdin_step(st, ReadEventView::Line(l)) == (st, (Notice::Quiet, block_end(st.0, st.1))),
        editor_step(st, ReadEventView::Line(l)) == (st, (Notice::Quiet, block_end(st.0, st.1))),
        editor_step(st, ReadEventView::Failed) == (st, (Notice::Quiet, block_end(st.0, st.1))),
        l.len() == 0 ==> cli_step(st, ReadEventView::Line(l)) == (st, if trimmed(st.0).len() > 0
            && !st.1 {
            CliActionView::Finish(InputView::Text(st.0))
        } else {
            CliActionView::Read
        }),
{
    lemma_command_names_nonempty(trimmed(l));
}

/// `:end` turns multi-line mode off and sends the gathered text when it
/// holds more than whitespace (else reads on), in every prompt.
pub proof fn lemma_end_sends_gathered(st: PromptState, l: Seq<char>)
    requires
        line_is(l, Command::End),
    ensures
        stdin_step(st, ReadEventView::Line(l)) == (
            (st.0, false),
            (Notice::MultiLineOff, block_end(st.0, false)),
        ),
        editor_step(st, ReadEventView::Line(l)) == (
            (st.0, false),
            (Notice::MultiLineOff, block_end(st.0, false)),
        ),
        cli_step(st, ReadEventView::Line(l)) == ((st.0, false), if trimmed(st.0).len() > 0 {
            CliActionView::Finish(InputView::Text(st.0))
        } else {
            CliActionView::Read
        }),
{
    lemma_command_names_nonempty(trimmed(l));
}

/// A line of text (not a command, more than whitespace) is appended as it
/// was typed, and nothing is sent yet, in every prompt.
pub proof fn lemma_text_line_is_gathered(st: PromptState, l: Seq<char>)
    requires
        line_command(l) is None,
        trimmed(l).len() > 0,
    ensures
        stdin_step(st, ReadEventView::Line(l)) == ((st.0 + l, st.1), (Notice::Quiet, OutcomeView::Read)),
        editor_step(st, ReadEventView::Line(l)) == (
            (st.0 + l, st.1),
            (Notice::Quiet, OutcomeView::Read),
        ),
        cli_step(st, ReadEventView::Line(l)) == ((st.0 + l, st.1), CliActionView::Read),
{
}

/// Typing a line of text and pressing Enter twice sends exactly that line,
/// in every prompt.
pub proof fn lemma_line_then_blank_sends(l: Seq<char>, b: Seq<char>)
    requires
        line_command(l) is None,
        trimmed(l).len() > 0,
        trimmed(b).len() == 0,
    ensures
        ({
            let st = (Seq::<char>::empty(), false);
            let (s1, a1) = stdin_step(st, ReadEventView::Line(l));
            &&& s1 == (l, false)
            &&& a1 == (Notice::Quiet, OutcomeView::Read)
            &&& stdin_step(s1, ReadEventView::Line(b)).1 == (Notice::Quiet, OutcomeView::Submit(l))
        }),
        ({
            let st = (Seq::<char>::empty(), false);
            let (s1, a1) = editor_step(st, ReadEventView::Line(l));
            &&& s1 == (l, false)
            &&& a1 == (Notice::Quiet, OutcomeView::Read)
            &&& editor_step(s1, ReadEventView::Line(b)).1 == (Notice::Quiet, OutcomeView::Submit(l))
        }),
        ({
            let st = (Seq::<char>::empty(), false);
            let (s1, a1) = cli_step(st, ReadEventView::Line(l));
            &&& s1 == (l, false)
            &&& a1 == CliActionView::Read
            &&& cli_step(s1, ReadEventView::Line(Seq::empty())).1 == CliActionView::Finish(
                InputView::Text(l),
            )
        }),
{
    let st = (Seq::<char>::empty(), false);
    assert(st.0 + l =~= l);
    lemma_text_line_is_gathered(st, l);
    lemma_blank_line_ends_block((l, false), b);
    lemma_blank_line_ends_block((l, false), Seq::empty());
    lemma_command_names_nonempty(trimmed(Seq::<char>::empty()));
    assert(trimmed(Seq::<char>::empty()).len() == 0);
}

/// In multi-line mode, `:more`, two lines of text and `:end` send the two
/// lines joined, and nothing is sent before `:end`, in every prompt.
pub proof fn lemma_multi_line_sends_all(m: Seq<char>, l1: Seq<char>, l2: Seq<char>, e: Seq<char>)
    requires
        line_is(m, Command::More),
        line_is(e, Command::End),
        line_command(l1) is None,
        line_command(l2) is None,
        trimmed(l1).len() > 0,
        trimmed(l2).len() > 0,
    ensures
        ({
            let s0 = (Seq::<char>::empty(), false);
            let (s1, a1) = stdin_step(s0, ReadEventView::Line(m));
            let (s2, a2) = stdin_step(s1, ReadEventView::Line(l1));
            let (s3, a3) = stdin_step(s2, ReadEventView::Line(l2));
            let (s4, a4) = stdin_step(s3, ReadEventView::Line(e));
            &&& a1 == (Notice::MultiLineOn, OutcomeView::Read)
            &&& a2 == (Notice::Quiet, OutcomeView::Read)
            &&& a3 == (Notice::Quiet, OutcomeView::Read)
            &&& a4 == (Notice::MultiLineOff, OutcomeView::Submit(l1 + l2))
            &&& s4 == (l1 + l2, false)
        }),
        ({
            let s0 = (Seq::<char>::empty(), false);
            let (s1, a1) = editor_step(s0, ReadEventView::Line(m));
            let (s2, a2) = editor_step(s1, ReadEventView::Line(l1));
            let (s3, a3) = editor_step(s2, ReadEventView::Line(l2));
            let (s4, a4) = editor_step(s3, ReadEventView::Line(e));
            &&& a1 == (Notice::MultiLineOn, OutcomeView::Read)
            &&& a2 == (Notice::Quiet, OutcomeView::Read)
            &&& a3 == (Notice::Quiet, OutcomeView::Read)
            &&& a4 == (Notice::MultiLineOff, OutcomeView::Submit(l1 + l2))
            &&& s4 == (l1 + l2, false)
        }),
        ({
            let s0 = (Seq::<char>::empty(), false);
            let (s1, a1) = cli_step(s0, ReadEventView::Line(m));
            let (s2, a2) = cli_step(s1, ReadEventView::Line(l1));
            let (s3, a3) = cli_step(s2, ReadEventView::Line(l2));
            let (s4, a4) = cli_step(s3, ReadEventView::Line(e));
            &&& a1 == CliActionView::MultiLineOn
            &&& a2 == CliActionView::Read
            &&& a3 == CliActionView::Read
            &&& a4 == CliActionView::Finish(InputView::Text(l1 + l2))
            &&& s4 == (l1 + l2, false)
        }),
{
    let e0 = Seq::<char>::empty();
    assert(e0 + l1 =~= l1);
    lemma_command_names_nonempty(trimmed(m));
    lemma_command_names_nonempty(trimmed(e));
    lemma_text_line_is_gathered((e0, true), l1);
    lemma_text_line_is_gathered((l1, true), l2);
    lemma_trimmed_concat(l1, l2);
    lemma_end_sends_gathered((l1 + l2, true), e);
}

} // verus!
