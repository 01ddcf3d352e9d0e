//! The decisions that a session driver takes between its dealings with the
//! outside world: which shell to run, whether an answer is a yes, what to
//! tell the user, and with which code to exit.
//!
//! The driver reads the environment, asks the user, and creates and awaits
//! the shell process. What it does with what it learned is decided here.

use crate::shell::{supported_listing, UnsupportedShell, LIST_SEPARATOR};
use crate::text::{
    all_white_space, base_name, enclose, file_name, joined, lemma_trimmed_of_blank,
    lemma_trimmed_of_padded, line, str_eq, texts, trim, trimmed, views,
};
use vstd::prelude::*;
use vstd::string::*;

verus! {

/// The shell that is run when the user has not named one.
pub const DEFAULT_SHELL: &'static str = "/bin/bash";

/// The shell name that is assumed when a path has no last component.
pub const FALLBACK_NAME: &'static str = "bash";

/// The question put to the user when the terminal is not secure.
pub const CONFIRM_QUESTION: &'static str = "Continue despite insecure terminal?";

/// The line that precedes that question.
pub const INSECURE_NOTICE: &'static str = "(incogt) WARNING: Terminal environment may be logged";

pub const PROMPT_OPEN: &'static str = "(incogt) ";

pub const PROMPT_CLOSE: &'static str = " [y/N]: ";

pub const YES_LOWER: &'static str = "y";

pub const YES_UPPER: &'static str = "Y";

pub const STARTING: &'static str = "(incogt) Starting incognito session with: ";

pub const HOW_TO_LEAVE: &'static str = "(incogt) Use 'exit' or Ctrl+D to end the session";

pub const NOT_FOUND_OPEN: &'static str = "Shell '";

pub const NOT_FOUND_CLOSE: &'static str = "' not found";

pub const ERROR_OPEN: &'static str = "Error: ";

pub const SUPPORTED_OPEN: &'static str = "Supported shells: ";

/// The exit code of a session that the user declined to start.
pub const EXIT_DECLINED: i32 = 0;

/// The exit code of a session that could not start, and of one whose shell
/// left no exit code.
pub const EXIT_FAILURE: i32 = 1;

/// The path of the shell to run: the user's preferred shell, or the
/// default where none is set.
pub fn shell_path(preferred: Option<String>) -> (path: String)
    ensures
        path@ == (match preferred {
            Some(named) => named@,
            None => DEFAULT_SHELL@,
        }),
{
    match preferred {
        Some(named) => named,
        None => line(DEFAULT_SHELL),
    }
}

/// The shell name for the last component of a path: the component, or the
/// fallback name where there is none.
pub open spec fn name_for(component: Option<Seq<char>>) -> Seq<char> {
    match component {
        Some(last) => last,
        None => FALLBACK_NAME@,
    }
}

/// The shell name for the last component of a path: the component, or the
/// fallback name where there is none.
pub fn name_or_fallback(component: Option<String>) -> (name: String)
    ensures
        name@ == name_for(
            match component {
                Some(last) => Some(last@),
                None => None,
            },
        ),
{
    match component {
        Some(last) => last,
        None => line(FALLBACK_NAME),
    }
}

/// The name by which the shell at `path` is looked up: the base name of
/// the path, or the fallback name where the path has none.
pub fn shell_name(path: &str) -> (name: String)
    ensures
        name@ == name_for(base_name(path@)),
{
    name_or_fallback(file_name(path))
}

/// The text that asks the user a yes-or-no question.
pub fn confirmation_prompt(question: &str) -> (prompt: String)
    ensures
        prompt@ == PROMPT_OPEN@ + question@ + PROMPT_CLOSE@,
{
    enclose(PROMPT_OPEN, question, PROMPT_CLOSE)
}

/// Whether an answer without its surrounding white space is a yes: the
/// letter y, in either case, and nothing else.
pub open spec fn affirms(answer: Seq<char>) -> bool {
    answer == YES_LOWER@ || answer == YES_UPPER@
}

/// Whether an answer without its surrounding white space is a yes.
pub fn is_yes(answer: &str) -> (yes: bool)
    ensures
        yes == affirms(answer@),
{
    str_eq(answer, YES_LOWER) || str_eq(answer, YES_UPPER)
}

/// Whether a line that the user typed is a yes. Everything else, the empty
/// line too, is a no.
pub fn is_affirmative(answer: &str) -> (yes: bool)
    ensures
        yes == affirms(trimmed(answer@)),
{
    is_yes(trim(answer))
}

/// The letter y, in either case, is a yes whatever white space stands
/// around it: a line break after it, as a typed line has, does no harm.
pub proof fn lemma_padded_yes_affirms(before: Seq<char>, after: Seq<char>)
    requires
        all_white_space(before),
        all_white_space(after),
    ensures
        affirms(trimmed(before + YES_LOWER@ + after)),
        affirms(trimmed(before + YES_UPPER@ + after)),
{
    reveal_strlit("y");
    reveal_strlit("Y");
    assert(YES_LOWER@.len() == 1 && YES_LOWER@[0] == 'y');
    assert(YES_UPPER@.len() == 1 && YES_UPPER@[0] == 'Y');
    lemma_trimmed_of_padded(before, YES_LOWER@, after);
    lemma_trimmed_of_padded(before, YES_UPPER@, after);
}

/// A line of nothing but white space, the empty line too, is a no.
pub proof fn lemma_blank_is_no(answer: Seq<char>)
    requires
        all_white_space(answer),
    ensures
        !affirms(trimmed(answer)),
{
    reveal_strlit("y");
    reveal_strlit("Y");
    assert(YES_LOWER@.len() == 1);
    assert(YES_UPPER@.len() == 1);
    lemma_trimmed_of_blank(answer);
}

/// The lines that open a session with the shell at `path`.
pub open spec fn opening_texts(path: Seq<char>) -> Seq<Seq<char>> {
    seq![STARTING@ + path, HOW_TO_LEAVE@]
}

/// The lines that open a session with the shell at `path`.
pub fn opening_lines(path: &str) -> (lines: Vec<String>)
    ensures
        texts(lines@) == opening_texts(path@),
{
    let mut starting = line(STARTING);
    starting.append(path);
    let mut lines: Vec<String> = Vec::new();
    lines.push(starting);
    lines.push(line(HOW_TO_LEAVE));
    assert(texts(lines@) =~= opening_texts(path@));
    lines
}

/// The message of the error that a shell path with nothing behind it
/// raises.
pub fn not_found_message(path: &str) -> (message: String)
    ensures
        message@ == NOT_FOUND_OPEN@ + path@ + NOT_FOUND_CLOSE@,
{
    enclose(NOT_FOUND_OPEN, path, NOT_FOUND_CLOSE)
}

/// The lines that tell the user of a refused shell: the refusal, then the
/// shells that are supported.
pub open spec fn refusal_texts(message: Seq<char>, supported: Seq<Seq<char>>) -> Seq<Seq<char>> {
    seq![ERROR_OPEN@ + message, SUPPORTED_OPEN@ + joined(supported, LIST_SEPARATOR@)]
}

/// The lines that tell the user of a refused shell.
pub fn refusal_lines(refusal: &UnsupportedShell) -> (lines: Vec<String>)
    ensures
        texts(lines@) == refusal_texts(
            crate::shell::unsupported_message(refusal.name@, views(refusal.supported@)),
            crate::shell::supported_names(),
        ),
{
    let mut error = line(ERROR_OPEN);
    error.append(refusal.message().as_str());
    let mut supported = line(SUPPORTED_OPEN);
    supported.append(supported_listing().as_str());
    let mut lines: Vec<String> = Vec::new();
    lines.push(error);
    lines.push(supported);
    assert(texts(lines@) =~= refusal_texts(
        crate::shell::unsupported_message(refusal.name@, views(refusal.supported@)),
        crate::shell::supported_names(),
    ));
    lines
}

/// How a session ended.
#[derive(Clone, Copy, Debug, PartialEq, Eq, Structural)]
pub enum Ending {
    /// The user declined to go on in an insecure terminal.
    Declined,
    /// The session failed: the shell was not found or is not supported,
    /// protecting memory failed fatally, or a step could not be carried out.
    Failed,
    /// The shell ran and ended, with an exit code unless a signal ended it.
    ShellExited(Option<i32>),
}

/// The exit code for an ending.
pub open spec fn exit_code_of(ending: Ending) -> i32 {
    match ending {
        Ending::Declined => EXIT_DECLINED,
        Ending::Failed => EXIT_FAILURE,
        Ending::ShellExited(Some(code)) => code,
        Ending::ShellExited(None) => EXIT_FAILURE,
    }
}

/// The exit code of the whole process: the shell's own where it ran and
/// left one, zero where the user declined, and the failure code otherwise.
pub fn exit_code(ending: Ending) -> (code: i32)
    ensures
        code == exit_code_of(ending),
        ending is Declined ==> code == 0,
        ending is Failed ==> code != 0,
{
    match ending {
        Ending::Declined => EXIT_DECLINED,
        Ending::Failed => EXIT_FAILURE,
        Ending::ShellExited(Some(code)) => code,
        Ending::ShellExited(None) => EXIT_FAILURE,
    }
}

} // verus!
