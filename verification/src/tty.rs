//! The judgement of whether the controlling terminal can be trusted not to
//! record the session.
//!
//! Three detectors look at what was observed of the terminal. Each adds at
//! most one warning; none stops the others, so that every issue is reported
//! at once. The terminal counts as secure exactly when no detector warned. Observing the terminal is left to the caller, so that the rules
//! hold for every observation and can be exercised on made-up ones.

use crate::os::{number_of, stdin_isatty, words_of};
use crate::text::{
    contains, enclose, join_lines, joined, lemma_joined_contains, line, occurs_at, push_line,
    str_eq, texts,
};
use vstd::prelude::*;
use vstd::string::*;

verus! {

/// The variable that the `script` recorder sets.
pub const SCRIPT: &'static str = "SCRIPT";

/// The variable by which a terminal emulator names itself.
pub const TERM_PROGRAM: &'static str = "TERM_PROGRAM";

/// The variable that the tmux multiplexer sets.
pub const TMUX: &'static str = "TMUX";

pub const SCRIPT_REASON: &'static str = "Running under 'script' command";

pub const TERM_PROGRAM_REASON: &'static str = "Terminal emulator may log output";

pub const TMUX_REASON: &'static str = "Tmux may maintain history";

pub const DETECTED: &'static str = " detected: ";

/// What separates the watched variables that one warning names.
pub const SIGHTING_SEPARATOR: &'static str = "; ";

pub const STDIN_NOT_TTY: &'static str = "Stdin is not a real TTY";

pub const ATTRIBUTES_FAILED: &'static str = "Failed to get terminal attributes: ";

pub const UNSUPPORTED_PLATFORM: &'static str =
    "TTY security checks not supported on this platform";

pub const WARNING_PREFIX: &'static str = "(incogt) TTY warning: ";

/// What was observed of the terminal before the judgement.
#[derive(Debug)]
pub struct Observation {
    /// Whether standard input is a terminal device.
    pub stdin_is_tty: bool,
    /// The names of the environment variables that are set.
    pub environment: Vec<String>,
    /// The system's words, if the terminal's attributes could not be read.
    pub attribute_error: Option<String>,
}

/// An [`Observation`] as a mathematical value.
pub struct ObservationView {
    pub stdin_is_tty: bool,
    pub environment: Seq<Seq<char>>,
    pub attribute_error: Option<Seq<char>>,
}

impl View for Observation {
    type V = ObservationView;

    open spec fn view(&self) -> ObservationView {
        ObservationView {
            stdin_is_tty: self.stdin_is_tty,
            environment: texts(self.environment@),
            attribute_error: match self.attribute_error {
                Some(words) => Some(words@),
                None => None,
            },
        }
    }
}

/// What is said of a watched variable that is set: its name and why it
/// matters.
pub open spec fn sighting(name: Seq<char>, reason: Seq<char>) -> Seq<char> {
    name + DETECTED@ + reason
}

/// What the first detector says: standard input must be a terminal.
pub open spec fn stdin_warnings(stdin_is_tty: bool) -> Seq<Seq<char>> {
    if stdin_is_tty {
        Seq::empty()
    } else {
        seq![STDIN_NOT_TTY@]
    }
}

/// What the second detector finds of one watched variable: its presence
/// alone is the signal.
pub open spec fn watch(environment: Seq<Seq<char>>, name: Seq<char>, reason: Seq<char>) -> Seq<
    Seq<char>,
> {
    if environment.contains(name) {
        seq![sighting(name, reason)]
    } else {
        Seq::empty()
    }
}

/// What the second detector finds: the watched variables that are set, in
/// the order in which it looks at them.
pub open spec fn sightings(environment: Seq<Seq<char>>) -> Seq<Seq<char>> {
    watch(environment, SCRIPT@, SCRIPT_REASON@) + watch(
        environment,
        TERM_PROGRAM@,
        TERM_PROGRAM_REASON@,
    ) + watch(environment, TMUX@, TMUX_REASON@)
}

/// What the second detector says: nothing where no watched variable is
/// set, and else one warning that names every one that is.
pub open spec fn variable_warnings(environment: Seq<Seq<char>>) -> Seq<Seq<char>> {
    if sightings(environment).len() == 0 {
        Seq::empty()
    } else {
        seq![joined(sightings(environment), SIGHTING_SEPARATOR@)]
    }
}

/// What the third detector says: the terminal's attributes must be
/// readable.
pub open spec fn attribute_warnings(attribute_error: Option<Seq<char>>) -> Seq<Seq<char>> {
    match attribute_error {
        Some(words) => seq![ATTRIBUTES_FAILED@ + words],
        None => Seq::empty(),
    }
}

/// All warnings for an observation: every detector's, in the detectors'
/// order.
pub open spec fn warnings_for(observation: ObservationView) -> Seq<Seq<char>> {
    stdin_warnings(observation.stdin_is_tty) + variable_warnings(observation.environment)
        + attribute_warnings(observation.attribute_error)
}

/// The lines that report a judgement to the user: one for every recorded
/// warning, in order.
pub open spec fn report_lines(warnings: Seq<Seq<char>>) -> Seq<Seq<char>> {
    Seq::new(warnings.len(), |i: int| WARNING_PREFIX@ + warnings[i])
}

/// The failure of the system to say whether standard input is a terminal.
#[derive(Debug)]
pub struct ProbeError {
    /// The system's number for the error.
    pub code: i32,
    /// The error in words.
    pub detail: String,
}

/// Asks the system whether standard input is a terminal device. The answer
/// is the system's: nothing can be said of it beforehand, and
/// [`TtySecurity::check`] decides for either.
pub fn stdin_is_terminal() -> (answer: Result<bool, ProbeError>) {
    match stdin_isatty() {
        Ok(is_terminal) => Ok(is_terminal),
        Err(errno) => Err(ProbeError { code: number_of(&errno), detail: words_of(&errno) }),
    }
}

/// The judgement of the terminal.
#[derive(Debug)]
pub struct TtySecurity {
    pub is_secure: bool,
    pub warnings: Vec<String>,
}

/// Whether a list of names holds `name`.
fn holds(names: &Vec<String>, name: &str) -> (found: bool)
    ensures
        found == texts(names@).contains(name@),
{
    let mut i: usize = 0;
    while i < names.len()
        invariant
            i <= names.len(),
            forall|k: int| 0 <= k < i ==> texts(names@)[k] != name@,
        decreases names.len() - i,
    {
        if str_eq(names[i].as_str(), name) {
            assert(texts(names@)[i as int] == name@);
            return true;
        }
        i = i + 1;
    }
    false
}

/// Looks for one watched variable and notes it if it is set.
fn watch_for(environment: &Vec<String>, name: &str, reason: &str, found: &mut Vec<String>)
    ensures
        texts(final(found)@) == texts(old(found)@) + watch(texts(environment@), name@, reason@),
{
    if holds(environment, name) {
        let note = enclose(name, DETECTED, reason);
        push_line(found, note.as_str());
    }
    assert(texts(found@) =~= texts(old(found)@) + watch(texts(environment@), name@, reason@));
}

/// Runs the second detector: one warning for all watched variables that
/// are set, none where none is.
fn warn_of_variables(environment: &Vec<String>, warnings: &mut Vec<String>)
    ensures
        texts(final(warnings)@) == texts(old(warnings)@) + variable_warnings(texts(environment@)),
{
    let mut found: Vec<String> = Vec::new();
    watch_for(environment, SCRIPT, SCRIPT_REASON, &mut found);
    watch_for(environment, TERM_PROGRAM, TERM_PROGRAM_REASON, &mut found);
    watch_for(environment, TMUX, TMUX_REASON, &mut found);
    assert(texts(found@) =~= sightings(texts(environment@)));
    if found.len() > 0 {
        let warning = join_lines(&found, SIGHTING_SEPARATOR);
        push_line(warnings, warning.as_str());
    }
    assert(texts(warnings@) =~= texts(old(warnings)@) + variable_warnings(texts(environment@)));
}

impl TtySecurity {
    /// Whether the flag agrees with the warnings: secure exactly when there
    /// is no warning.
    pub open spec fn consistent(&self) -> bool {
        self.is_secure <==> self.warnings@.len() == 0
    }

    /// The environment variables whose presence the second detector takes
    /// as a sign of recording, in the order in which it looks at them.
    pub fn watched_variables() -> (names: Vec<&'static str>)
        ensures
            names@.len() == 3,
            names@[0]@ == SCRIPT@,
            names@[1]@ == TERM_PROGRAM@,
            names@[2]@ == TMUX@,
    {
        let mut names: Vec<&'static str> = Vec::new();
        names.push(SCRIPT);
        names.push(TERM_PROGRAM);
        names.push(TMUX);
        names
    }

    /// Judges the terminal by what was observed of it. All three
    /// detectors run, whatever the others found, and each adds at most one
    /// warning.
    pub fn check(observation: &Observation) -> (judgement: TtySecurity)
        ensures
            texts(judgement.warnings@) == warnings_for(observation@),
            judgement.warnings@.len() <= 3,
            judgement.consistent(),
    {
        let mut warnings: Vec<String> = Vec::new();
        if !observation.stdin_is_tty {
            push_line(&mut warnings, STDIN_NOT_TTY);
        }
        warn_of_variables(&observation.environment, &mut warnings);
        match &observation.attribute_error {
            Some(words) => {
                let mut warning = line(ATTRIBUTES_FAILED);
                warning.append(words.as_str());
                push_line(&mut warnings, warning.as_str());
            },
            None => {},
        }
        assert(texts(warnings@) =~= warnings_for(observation@));
        let is_secure = warnings.len() == 0;
        TtySecurity { is_secure, warnings }
    }

    /// The judgement on a platform that has no way of examining a
    /// terminal: not secure, and a warning that says why.
    pub fn unsupported_platform() -> (judgement: TtySecurity)
        ensures
            !judgement.is_secure,
            texts(judgement.warnings@) == seq![UNSUPPORTED_PLATFORM@],
            judgement.consistent(),
    {
        let mut warnings: Vec<String> = Vec::new();
        push_line(&mut warnings, UNSUPPORTED_PLATFORM);
        assert(texts(warnings@) =~= seq![UNSUPPORTED_PLATFORM@]);
        TtySecurity { is_secure: false, warnings }
    }

    /// The lines that bring every recorded warning before the user, in
    /// order, whatever the flag says. Nothing about the terminal is
    /// changed, and the judgement is left as it is, so that asking twice
    /// gives the same lines.
    pub fn harden(&self) -> (lines: Vec<String>)
        ensures
            texts(lines@) == report_lines(texts(self.warnings@)),
            lines@.len() == self.warnings@.len(),
    {
        let mut lines: Vec<String> = Vec::new();
        let mut i: usize = 0;
        while i < self.warnings.len()
            invariant
                i <= self.warnings.len(),
                lines@.len() == i,
                texts(lines@) == report_lines(texts(self.warnings@)).take(i as int),
            decreases self.warnings.len() - i,
        {
            let mut text = line(WARNING_PREFIX);
            text.append(self.warnings[i].as_str());
            push_line(&mut lines, text.as_str());
            assert(texts(lines@) =~= report_lines(texts(self.warnings@)).take(i + 1));
            i = i + 1;
        }
        assert(texts(lines@) =~= report_lines(texts(self.warnings@)));
        lines
    }
}

/// Each detector adds at most one warning: an observation never has more
/// than three, and the second detector never more than one, however many
/// watched variables are set.
pub proof fn lemma_one_warning_per_detector(observation: ObservationView)
    ensures
        stdin_warnings(observation.stdin_is_tty).len() <= 1,
        variable_warnings(observation.environment).len() <= 1,
        attribute_warnings(observation.attribute_error).len() <= 1,
        warnings_for(observation).len() <= 3,
{
}

/// The one warning of the second detector names every watched variable
/// that is set.
pub proof fn lemma_warning_names_every_sighting(environment: Seq<Seq<char>>, k: int)
    requires
        0 <= k < sightings(environment).len(),
    ensures
        variable_warnings(environment).len() == 1,
        contains(variable_warnings(environment)[0], sightings(environment)[k]),
{
    let found = sightings(environment);
    assert(occurs_at(found[k], found[k], 0)) by {
        assert(found[k].subrange(0, found[k].len() as int) =~= found[k]);
    }
    lemma_joined_contains(found, SIGHTING_SEPARATOR@, k, found[k]);
}

/// A set recorder variable makes every observation insecure, with a warning
/// that names the variable: the one warning of the second detector, which
/// says of the recorder what is said of it alone.
pub proof fn lemma_recorder_detected(observation: ObservationView)
    requires
        observation.environment.contains(SCRIPT@),
    ensures
        warnings_for(observation).len() > 0,
        variable_warnings(observation.environment).len() == 1,
        warnings_for(observation).contains(variable_warnings(observation.environment)[0]),
        contains(variable_warnings(observation.environment)[0], SCRIPT@),
        contains(
            variable_warnings(observation.environment)[0],
            sighting(SCRIPT@, SCRIPT_REASON@),
        ),
{
    let environment = observation.environment;
    let found = sightings(environment);
    let note = sighting(SCRIPT@, SCRIPT_REASON@);
    let warning = variable_warnings(environment)[0];
    assert(found[0] == note);
    let at: int = stdin_warnings(observation.stdin_is_tty).len() as int;
    assert(warnings_for(observation)[at] == warning);
    assert(occurs_at(note, SCRIPT@, 0)) by {
        assert(note.subrange(0, SCRIPT@.len() as int) =~= SCRIPT@);
    }
    lemma_joined_contains(found, SIGHTING_SEPARATOR@, 0, SCRIPT@);
    lemma_warning_names_every_sighting(environment, 0);
}

/// Standard input that is no terminal makes every observation insecure,
/// with the warning that says so first.
pub proof fn lemma_stdin_detected(observation: ObservationView)
    requires
        !observation.stdin_is_tty,
    ensures
        warnings_for(observation).len() > 0,
        warnings_for(observation)[0] == STDIN_NOT_TTY@,
{
}

/// An observation with nothing to warn about is one with a terminal on
/// standard input, no watched variable set and readable attributes.
pub proof fn lemma_secure_iff_clean(observation: ObservationView)
    ensures
        warnings_for(observation).len() == 0 <==> {
            &&& observation.stdin_is_tty
            &&& !observation.environment.contains(SCRIPT@)
            &&& !observation.environment.contains(TERM_PROGRAM@)
            &&& !observation.environment.contains(TMUX@)
            &&& observation.attribute_error is None
        },
{
}

} // verus!
