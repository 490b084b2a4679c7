//! What the user types at the prompt: commands, plain text, and the state
//! machine that gathers the lines of one message.

use vstd::prelude::*;
use crate::text::{trim, trimmed, same_text};

verus! {

/// A command typed at the prompt.
#[derive(Clone, Copy, Debug, PartialEq, Eq, Structural)]
pub enum Command {
    Exit,
    Help,
    Reset,
    More,
    End,
}

/// One line of input, read as a command or as text.
#[derive(Debug, Clone)]
pub enum Input {
    Text(String),
    Command(Command),
}

/// The mathematical value of an [`Input`].
pub enum InputView {
    Text(Seq<char>),
    Command(Command),
}

impl View for Input {
    type V = InputView;

    open spec fn view(&self) -> InputView {
        match self {
            Input::Text(s) => InputView::Text(s@),
            Input::Command(c) => InputView::Command(*c),
        }
    }
}

/// The command that a trimmed line names, if any.
pub open spec fn command_of(t: Seq<char>) -> Option<Command> {
    if t == ":exit"@ || t == ":quit"@ || t == ":q"@ {
        Some(Command::Exit)
    } else if t == ":help"@ || t == ":h"@ {
        Some(Command::Help)
    } else if t == ":reset"@ {
        Some(Command::Reset)
    } else if t == ":more"@ {
        Some(Command::More)
    } else if t == ":end"@ {
        Some(Command::End)
    } else {
        None
    }
}

/// The command that a line names once surrounding whitespace is ignored.
pub open spec fn line_command(s: Seq<char>) -> Option<Command> {
    command_of(trimmed(s))
}

/// How a line is read: a command when its trimmed text names one, otherwise
/// the whole line, untrimmed, as text.
pub open spec fn parse_line(s: Seq<char>) -> InputView {
    match line_command(s) {
        Some(c) => InputView::Command(c),
        None => InputView::Text(s),
    }
}

/// The command named by the already trimmed text `t`.
pub fn command_in(t: &str) -> (r: Option<Command>)
    ensures
        r == command_of(t@),
{
    if same_text(t, ":exit") || same_text(t, ":quit") || same_text(t, ":q") {
        Some(Command::Exit)
    } else if same_text(t, ":help") || same_text(t, ":h") {
        Some(Command::Help)
    } else if same_text(t, ":reset") {
        Some(Command::Reset)
    } else if same_text(t, ":more") {
        Some(Command::More)
    } else if same_text(t, ":end") {
        Some(Command::End)
    } else {
        None
    }
}

impl Input {
    /// Reads one line: `:exit`, `:quit`, `:q`, `:help`, `:h`, `:reset`,
    /// `:more` and `:end` (surrounding whitespace ignored) are commands; any
    /// other line is text, kept as it was typed.
    pub fn parse(s: &str) -> (r: Input)
        ensures
            r@ == parse_line(s@),
    {
        match command_in(trim(s)) {
            Some(c) => Input::Command(c),
            None => Input::Text(s.to_owned()),
        }
    }
}

/// The same reading as [`Input::parse`], through the standard trait; it
/// never fails.
impl std::str::FromStr for Input {
    type Err = std::convert::Infallible;

    fn from_str(s: &str) -> (r: Result<Input, std::convert::Infallible>)
        ensures
            r matches Ok(i) && i@ == parse_line(s@),
    {
        Ok(Input::parse(s))
    }
}

/// Reading a command twice gives the same command: trimming a trimmed line
/// changes nothing.
pub proof fn lemma_parse_trimmed(s: Seq<char>)
    requires
        line_command(s) is Some,
    ensures
        parse_line(trimmed(s)) == parse_line(s),
{
    lemma_trimmed_idempotent(s);
}

proof fn lemma_trim_start_shape(s: Seq<char>)
    ensures
        trim_start_is_suffix(s),
    decreases s.len(),
{
    if s.len() > 0 && crate::text::is_white_space(s[0]) {
        lemma_trim_start_shape(s.drop_first());
    }
}

spec fn trim_start_is_suffix(s: Seq<char>) -> bool {
    let t = crate::text::trim_start(s);
    t.len() == 0 || !crate::text::is_white_space(t[0])
}

proof fn lemma_trim_end_keeps_start(s: Seq<char>)
    requires
        s.len() == 0 || !crate::text::is_white_space(s[0]),
    ensures
        crate::text::trim_start(crate::text::trim_end(s)) == crate::text::trim_end(s),
        crate::text::trim_end(crate::text::trim_end(s)) == crate::text::trim_end(s),
    decreases s.len(),
{
    let e = crate::text::trim_end(s);
    if s.len() > 0 && crate::text::is_white_space(s.last()) {
        let d = s.drop_last();
        assert(d.len() == 0 || d[0] == s[0]);
        lemma_trim_end_keeps_start(d);
    } else {
        assert(e == s);
        if e.len() > 0 {
            assert(!crate::text::is_white_space(e.last()));
        }
    }
}

/// Trimming twice is trimming once.
pub proof fn lemma_trimmed_idempotent(s: Seq<char>)
    ensures
        trimmed(trimmed(s)) == trimmed(s),
{
    lemma_trim_start_shape(s);
    lemma_trim_end_keeps_start(crate::text::trim_start(s));
}

/// Every command is named by some text: empty text names none.
pub proof fn lemma_command_names_nonempty(t: Seq<char>)
    ensures
        command_of(t) is Some ==> t.len() > 0,
{
    reveal_strlit(":exit");
    reveal_strlit(":quit");
    reveal_strlit(":q");
    reveal_strlit(":help");
    reveal_strlit(":h");
    reveal_strlit(":reset");
    reveal_strlit(":more");
    reveal_strlit(":end");
}

} // verus!
