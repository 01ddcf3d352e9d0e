//! The order of a session, as a machine that the driver consults.
//!
//! The driver does the work that touches the outside world: it protects
//! memory, examines the terminal, asks the user, finds the shell, runs it
//! and cleans up. After each piece of work it reports what happened as an
//! [`Event`], and [`advance`] answers with the next piece of work, an
//! [`Action`]. The machine holds the rules of the session: memory is
//! protected before the terminal is examined, an insecure terminal needs
//! the user's yes, and the shell is launched only after all of that, and
//! only if it exists and is supported.

use crate::session::Ending;
use vstd::prelude::*;

verus! {

/// Where a session stands: the work that the driver was last told to do.
#[derive(Clone, Copy, Debug, PartialEq, Eq, Structural)]
pub enum Stage {
    /// Nothing has been done.
    Start,
    /// Memory is being protected.
    Protecting,
    /// The terminal is being examined.
    Examining,
    /// The user is being asked whether to go on in an insecure terminal.
    Confirming,
    /// The shell's path is being resolved and looked for.
    Locating,
    /// The startup command for the shell is being generated.
    Preparing,
    /// The shell is running.
    Running,
    /// The shell has ended, with the given exit code if it left one, and
    /// the terminal is being cleared.
    Clearing(Option<i32>),
    /// The session is over.
    Ended,
}

/// What the driver reports of the work it was told to do.
#[derive(Clone, Copy, Debug, PartialEq, Eq, Structural)]
pub enum Event {
    /// The driver has started.
    Begun,
    /// Memory protection was attempted; `fatal` if it failed in a way that
    /// forbids the session.
    Protected { fatal: bool },
    /// The terminal was examined and judged.
    Examined { secure: bool },
    /// The user answered the question.
    Answered { yes: bool },
    /// The shell's path was resolved; `exists` if there is a file at it.
    Located { exists: bool },
    /// The shell's name was looked up; `supported` if it has a startup
    /// command.
    Prepared { supported: bool },
    /// The shell ran and ended.
    Exited { code: Option<i32> },
    /// The terminal was cleared.
    Cleared,
    /// The work could not be carried out.
    Failed,
}

/// What the driver is told to do next.
#[derive(Clone, Copy, Debug, PartialEq, Eq, Structural)]
pub enum Action {
    /// Forbid core files and lock memory.
    Protect,
    /// Examine the terminal and report the warnings.
    Examine,
    /// Ask the user whether to go on in an insecure terminal.
    Confirm,
    /// Resolve the shell's path and look for the file.
    Locate,
    /// Generate the startup command for the shell's name.
    Prepare,
    /// Run the shell with its startup command and wait for it.
    Launch,
    /// Let go of the memory protection and clear the terminal.
    CleanUp,
    /// Leave, with the exit code of the given ending.
    Finish(Ending),
}

/// The rules of the session: the stage and the action that follow an event
/// at a stage. An event that does not belong to the stage ends the session
/// as a failure.
pub open spec fn step(stage: Stage, event: Event) -> (Stage, Action) {
    match (stage, event) {
        (Stage::Start, Event::Begun) => (Stage::Protecting, Action::Protect),
        (Stage::Protecting, Event::Protected { fatal: false }) => (
            Stage::Examining,
            Action::Examine,
        ),
        (Stage::Examining, Event::Examined { secure: true }) => (Stage::Locating, Action::Locate),
        (Stage::Examining, Event::Examined { secure: false }) => (
            Stage::Confirming,
            Action::Confirm,
        ),
        (Stage::Confirming, Event::Answered { yes: true }) => (Stage::Locating, Action::Locate),
        (Stage::Confirming, Event::Answered { yes: false }) => (
            Stage::Ended,
            Action::Finish(Ending::Declined),
        ),
        (Stage::Locating, Event::Located { exists: true }) => (Stage::Preparing, Action::Prepare),
        (Stage::Preparing, Event::Prepared { supported: true }) => (
            Stage::Running,
            Action::Launch,
        ),
        (Stage::Running, Event::Exited { code }) => (Stage::Clearing(code), Action::CleanUp),
        (Stage::Clearing(code), Event::Cleared) => (
            Stage::Ended,
            Action::Finish(Ending::ShellExited(code)),
        ),
        _ => (Stage::Ended, Action::Finish(Ending::Failed)),
    }
}

/// The stage and the action that follow an event at a stage.
pub fn advance(stage: Stage, event: Event) -> (next: (Stage, Action))
    ensures
        next == step(stage, event),
{
    match (stage, event) {
        (Stage::Start, Event::Begun) => (Stage::Protecting, Action::Protect),
        (Stage::Protecting, Event::Protected { fatal: false }) => (
            Stage::Examining,
            Action::Examine,
        ),
        (Stage::Examining, Event::Examined { secure: true }) => (Stage::Locating, Action::Locate),
        (Stage::Examining, Event::Examined { secure: false }) => (
            Stage::Confirming,
            Action::Confirm,
        ),
        (Stage::Confirming, Event::Answered { yes: true }) => (Stage::Locating, Action::Locate),
        (Stage::Confirming, Event::Answered { yes: false }) => (
            Stage::Ended,
            Action::Finish(Ending::Declined),
        ),
        (Stage::Locating, Event::Located { exists: true }) => (Stage::Preparing, Action::Prepare),
        (Stage::Preparing, Event::Prepared { supported: true }) => (
            Stage::Running,
            Action::Launch,
        ),
        (Stage::Running, Event::Exited { code }) => (Stage::Clearing(code), Action::CleanUp),
        (Stage::Clearing(code), Event::Cleared) => (
            Stage::Ended,
            Action::Finish(Ending::ShellExited(code)),
        ),
        _ => (Stage::Ended, Action::Finish(Ending::Failed)),
    }
}

/// The stage that a session has reached after a history of events.
pub open spec fn stage_after(history: Seq<Event>) -> Stage
    decreases history.len(),
{
    if history.len() == 0 {
        Stage::Start
    } else {
        step(stage_after(history.drop_last()), history.last()).0
    }
}

/// The history of a session whose terminal was secure, up to the search
/// for the shell.
pub open spec fn trusted_opening() -> Seq<Event> {
    seq![Event::Begun, Event::Protected { fatal: false }, Event::Examined { secure: true }]
}

/// The history of a session whose terminal was not secure and whose user
/// chose to go on, up to the search for the shell.
pub open spec fn confirmed_opening() -> Seq<Event> {
    seq![
        Event::Begun,
        Event::Protected { fatal: false },
        Event::Examined { secure: false },
        Event::Answered { yes: true },
    ]
}

/// Whether `history` is one of the two openings followed by `rest`.
pub open spec fn opens_with(history: Seq<Event>, rest: Seq<Event>) -> bool {
    history == trusted_opening() + rest || history == confirmed_opening() + rest
}

/// The histories that lead to a stage. Every stage but the last is reached
/// in one way, or in two where it makes no difference whether the terminal
/// was secure or the user said yes.
pub open spec fn leads_to(history: Seq<Event>, stage: Stage) -> bool {
    match stage {
        Stage::Start => history == Seq::<Event>::empty(),
        Stage::Protecting => history == seq![Event::Begun],
        Stage::Examining => history == seq![Event::Begun, Event::Protected { fatal: false }],
        Stage::Confirming => history == seq![
            Event::Begun,
            Event::Protected { fatal: false },
            Event::Examined { secure: false },
        ],
        Stage::Locating => opens_with(history, Seq::empty()),
        Stage::Preparing => opens_with(history, seq![Event::Located { exists: true }]),
        Stage::Running => opens_with(
            history,
            seq![Event::Located { exists: true }, Event::Prepared { supported: true }],
        ),
        Stage::Clearing(code) => opens_with(
            history,
            seq![
                Event::Located { exists: true },
                Event::Prepared { supported: true },
                Event::Exited { code },
            ],
        ),
        Stage::Ended => true,
    }
}

/// Whatever the driver reports, the session is at a stage only by one of
/// the histories that lead there.
pub proof fn lemma_history_leads_to_stage(history: Seq<Event>)
    ensures
        leads_to(history, stage_after(history)),
    decreases history.len(),
{
    if history.len() > 0 {
        let before = history.drop_last();
        lemma_history_leads_to_stage(before);
        assert(history =~= before.push(history.last()));
        let stage = stage_after(history);
        match stage {
            Stage::Start => {},
            Stage::Protecting => {
                assert(history =~= seq![Event::Begun]);
            },
            Stage::Examining => {
                assert(history =~= seq![Event::Begun, Event::Protected { fatal: false }]);
            },
            Stage::Confirming => {
                assert(history =~= seq![
                    Event::Begun,
                    Event::Protected { fatal: false },
                    Event::Examined { secure: false },
                ]);
            },
            Stage::Locating => {
                assert(history =~= trusted_opening() + Seq::<Event>::empty() || history
                    =~= confirmed_opening() + Seq::<Event>::empty());
            },
            Stage::Preparing => {
                let rest = seq![Event::Located { exists: true }];
                assert(history =~= trusted_opening() + rest || history =~= confirmed_opening()
                    + rest);
            },
            Stage::Running => {
                let rest = seq![
                    Event::Located { exists: true },
                    Event::Prepared { supported: true },
                ];
                assert(history =~= trusted_opening() + rest || history =~= confirmed_opening()
                    + rest);
            },
            Stage::Clearing(code) => {
                let rest = seq![
                    Event::Located { exists: true },
                    Event::Prepared { supported: true },
                    Event::Exited { code },
                ];
                assert(history =~= trusted_opening() + rest || history =~= confirmed_opening()
                    + rest);
            },
            Stage::Ended => {},
        }
    } else {
        assert(history =~= Seq::<Event>::empty());
    }
}

/// The shell runs only after memory protection was attempted without a
/// fatal failure, the terminal was examined and found secure or else the
/// user said yes, the shell was found, and it is supported: in that order
/// and with nothing in between.
pub proof fn lemma_shell_runs_only_after_the_gates(history: Seq<Event>)
    requires
        stage_after(history) == Stage::Running,
    ensures
        opens_with(
            history,
            seq![Event::Located { exists: true }, Event::Prepared { supported: true }],
        ),
{
    lemma_history_leads_to_stage(history);
}

/// A session that is over stays over: whatever is reported afterwards, the
/// answer is to leave.
pub proof fn lemma_ended_is_final(event: Event)
    ensures
        step(Stage::Ended, event).0 == Stage::Ended,
        step(Stage::Ended, event).1 is Finish,
{
}

/// The session leaves with the code zero for a user who declines, exactly
/// when a no answers the question.
pub proof fn lemma_declined_only_by_a_no(stage: Stage, event: Event)
    ensures
        step(stage, event).1 == Action::Finish(Ending::Declined) <==> (stage == Stage::Confirming
            && event == Event::Answered { yes: false }),
{
}

/// The shell is launched by exactly one step: the report that the shell is
/// supported, while its command is being prepared.
pub proof fn lemma_launch_only_when_prepared(stage: Stage, event: Event)
    ensures
        step(stage, event).1 == Action::Launch <==> (stage == Stage::Preparing && event
            == Event::Prepared { supported: true }),
{
}

} // verus!
