use incogt::driver::{advance, Action, Event, Stage};
use incogt::session::{exit_code, Ending};

fn run(events: &[Event]) -> (Stage, Vec<Action>) {
    let mut stage = Stage::Start;
    let mut actions = Vec::new();
    for event in events {
        let (next, action) = advance(stage, *event);
        stage = next;
        actions.push(action);
    }
    (stage, actions)
}

#[test]
fn secure_terminal_goes_straight_to_the_shell() {
    let (stage, actions) = run(&[
        Event::Begun,
        Event::Protected { fatal: false },
        Event::Examined { secure: true },
        Event::Located { exists: true },
        Event::Prepared { supported: true },
        Event::Exited { code: Some(3) },
        Event::Cleared,
    ]);
    assert_eq!(stage, Stage::Ended);
    assert_eq!(
        actions,
        vec![
            Action::Protect,
            Action::Examine,
            Action::Locate,
            Action::Prepare,
            Action::Launch,
            Action::CleanUp,
            Action::Finish(Ending::ShellExited(Some(3))),
        ]
    );
    assert_eq!(exit_code(Ending::ShellExited(Some(3))), 3);
}

#[test]
fn insecure_terminal_asks_before_the_shell() {
    let (stage, actions) = run(&[
        Event::Begun,
        Event::Protected { fatal: false },
        Event::Examined { secure: false },
        Event::Answered { yes: true },
        Event::Located { exists: true },
        Event::Prepared { supported: true },
    ]);
    assert_eq!(stage, Stage::Running);
    assert_eq!(
        actions,
        vec![
            Action::Protect,
            Action::Examine,
            Action::Confirm,
            Action::Locate,
            Action::Prepare,
            Action::Launch,
        ]
    );
}

#[test]
fn a_no_ends_the_session_cleanly() {
    let (stage, actions) = run(&[
        Event::Begun,
        Event::Protected { fatal: false },
        Event::Examined { secure: false },
        Event::Answered { yes: false },
    ]);
    assert_eq!(stage, Stage::Ended);
    assert_eq!(actions.last(), Some(&Action::Finish(Ending::Declined)));
    assert_eq!(exit_code(Ending::Declined), 0);
    assert!(!actions.contains(&Action::Launch));
}

#[test]
fn fatal_protection_failure_ends_before_the_terminal_is_examined() {
    let (stage, actions) = run(&[Event::Begun, Event::Protected { fatal: true }]);
    assert_eq!(stage, Stage::Ended);
    assert_eq!(actions, vec![Action::Protect, Action::Finish(Ending::Failed)]);
}

#[test]
fn missing_shell_ends_before_anything_is_spawned() {
    let (stage, actions) = run(&[
        Event::Begun,
        Event::Protected { fatal: false },
        Event::Examined { secure: true },
        Event::Located { exists: false },
    ]);
    assert_eq!(stage, Stage::Ended);
    assert_eq!(actions.last(), Some(&Action::Finish(Ending::Failed)));
    assert!(!actions.contains(&Action::Launch));
    assert_ne!(exit_code(Ending::Failed), 0);
}

#[test]
fn unsupported_shell_ends_before_anything_is_spawned() {
    let (stage, actions) = run(&[
        Event::Begun,
        Event::Protected { fatal: false },
        Event::Examined { secure: true },
        Event::Located { exists: true },
        Event::Prepared { supported: false },
    ]);
    assert_eq!(stage, Stage::Ended);
    assert_eq!(actions.last(), Some(&Action::Finish(Ending::Failed)));
    assert!(!actions.contains(&Action::Launch));
}

#[test]
fn shell_ended_by_a_signal_leaves_the_failure_code() {
    let (stage, action) = advance(Stage::Running, Event::Exited { code: None });
    assert_eq!(stage, Stage::Clearing(None));
    assert_eq!(action, Action::CleanUp);
    let (stage, action) = advance(stage, Event::Cleared);
    assert_eq!(stage, Stage::Ended);
    assert_eq!(action, Action::Finish(Ending::ShellExited(None)));
    assert_eq!(exit_code(Ending::ShellExited(None)), 1);
}

#[test]
fn work_that_fails_ends_the_session_as_a_failure() {
    for stage in [
        Stage::Examining,
        Stage::Confirming,
        Stage::Running,
        Stage::Clearing(Some(0)),
    ] {
        assert_eq!(advance(stage, Event::Failed), (Stage::Ended, Action::Finish(Ending::Failed)));
    }
}

#[test]
fn events_out_of_turn_end_the_session() {
    assert_eq!(
        advance(Stage::Start, Event::Prepared { supported: true }),
        (Stage::Ended, Action::Finish(Ending::Failed))
    );
    assert_eq!(
        advance(Stage::Protecting, Event::Examined { secure: true }),
        (Stage::Ended, Action::Finish(Ending::Failed))
    );
    assert_eq!(
        advance(Stage::Examining, Event::Answered { yes: true }),
        (Stage::Ended, Action::Finish(Ending::Failed))
    );
    assert_eq!(
        advance(Stage::Ended, Event::Begun),
        (Stage::Ended, Action::Finish(Ending::Failed))
    );
}
