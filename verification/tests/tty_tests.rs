use incogt::tty::{Observation, TtySecurity};

fn observation(
    stdin_is_tty: bool,
    environment: &[&str],
    attribute_error: Option<&str>,
) -> Observation {
    Observation {
        stdin_is_tty,
        environment: environment.iter().map(|name| name.to_string()).collect(),
        attribute_error: attribute_error.map(|words| words.to_string()),
    }
}

#[test]
fn clean_terminal_is_secure() {
    let judgement = TtySecurity::check(&observation(true, &["HOME", "PATH"], None));
    assert!(judgement.is_secure);
    assert!(judgement.warnings.is_empty());
    assert!(judgement.harden().is_empty());
}

#[test]
fn recorder_variable_makes_the_terminal_insecure() {
    let judgement = TtySecurity::check(&observation(true, &["SCRIPT"], None));
    assert!(!judgement.is_secure);
    assert_eq!(
        judgement.warnings,
        vec!["SCRIPT detected: Running under 'script' command".to_string()]
    );
    assert!(judgement.warnings[0].contains("SCRIPT"));
}

#[test]
fn non_interactive_stdin_makes_the_terminal_insecure() {
    let judgement = TtySecurity::check(&observation(false, &[], None));
    assert!(!judgement.is_secure);
    assert_eq!(judgement.warnings, vec!["Stdin is not a real TTY".to_string()]);
    assert!(judgement.warnings[0].contains("Stdin"));
}

#[test]
fn unreadable_attributes_make_the_terminal_insecure() {
    let judgement =
        TtySecurity::check(&observation(true, &[], Some("ENOTTY: Not a typewriter")));
    assert!(!judgement.is_secure);
    assert_eq!(
        judgement.warnings,
        vec!["Failed to get terminal attributes: ENOTTY: Not a typewriter".to_string()]
    );
}

#[test]
fn every_detector_reports_in_order() {
    let judgement = TtySecurity::check(&observation(
        false,
        &["TMUX", "HOME", "TERM_PROGRAM", "SCRIPT"],
        Some("EIO: I/O error"),
    ));
    assert!(!judgement.is_secure);
    assert_eq!(
        judgement.warnings,
        vec![
            "Stdin is not a real TTY".to_string(),
            "SCRIPT detected: Running under 'script' command; \
             TERM_PROGRAM detected: Terminal emulator may log output; \
             TMUX detected: Tmux may maintain history"
                .to_string(),
            "Failed to get terminal attributes: EIO: I/O error".to_string(),
        ]
    );
}

#[test]
fn all_watched_variables_give_one_warning_that_names_each() {
    let judgement =
        TtySecurity::check(&observation(true, &["SCRIPT", "TERM_PROGRAM", "TMUX"], None));
    assert!(!judgement.is_secure);
    assert_eq!(judgement.warnings.len(), 1);
    for name in ["SCRIPT", "TERM_PROGRAM", "TMUX"] {
        assert!(judgement.warnings[0].contains(name));
    }
}

#[test]
fn two_watched_variables_are_named_in_watch_order() {
    let judgement = TtySecurity::check(&observation(true, &["TMUX", "SCRIPT"], None));
    assert_eq!(
        judgement.warnings,
        vec![
            "SCRIPT detected: Running under 'script' command; \
             TMUX detected: Tmux may maintain history"
                .to_string()
        ]
    );
}

#[test]
fn no_observation_gives_more_than_three_warnings() {
    for stdin_is_tty in [true, false] {
        for environment in [&[][..], &["TMUX"][..], &["SCRIPT", "TERM_PROGRAM", "TMUX"][..]] {
            for attribute_error in [None, Some("EIO: I/O error")] {
                let judgement =
                    TtySecurity::check(&observation(stdin_is_tty, environment, attribute_error));
                assert!(judgement.warnings.len() <= 3);
            }
        }
    }
}

#[test]
fn emulator_and_multiplexer_are_watched() {
    let emulator = TtySecurity::check(&observation(true, &["TERM_PROGRAM"], None));
    assert_eq!(
        emulator.warnings,
        vec!["TERM_PROGRAM detected: Terminal emulator may log output".to_string()]
    );
    let multiplexer = TtySecurity::check(&observation(true, &["TMUX"], None));
    assert_eq!(
        multiplexer.warnings,
        vec!["TMUX detected: Tmux may maintain history".to_string()]
    );
}

#[test]
fn variables_are_matched_by_their_whole_name() {
    let judgement =
        TtySecurity::check(&observation(true, &["SCRIPTS", "tmux", "TERM", "TMUX_PANE"], None));
    assert!(judgement.is_secure);
    assert!(judgement.warnings.is_empty());
}

#[test]
fn a_variable_seen_twice_warns_once() {
    let judgement = TtySecurity::check(&observation(true, &["TMUX", "TMUX"], None));
    assert_eq!(judgement.warnings.len(), 1);
}

#[test]
fn secure_exactly_when_nothing_warned() {
    for stdin_is_tty in [true, false] {
        for environment in [&[][..], &["SCRIPT"][..], &["TMUX", "TERM_PROGRAM"][..]] {
            for attribute_error in [None, Some("EBADF: Bad file number")] {
                let judgement =
                    TtySecurity::check(&observation(stdin_is_tty, environment, attribute_error));
                assert_eq!(judgement.is_secure, judgement.warnings.is_empty());
            }
        }
    }
}

#[test]
fn watched_variables_are_the_three_markers() {
    assert_eq!(TtySecurity::watched_variables(), vec!["SCRIPT", "TERM_PROGRAM", "TMUX"]);
}

#[test]
fn platform_without_terminal_support_is_insecure() {
    let judgement = TtySecurity::unsupported_platform();
    assert!(!judgement.is_secure);
    assert_eq!(
        judgement.warnings,
        vec!["TTY security checks not supported on this platform".to_string()]
    );
}

#[test]
fn harden_gives_one_line_per_warning_and_changes_nothing() {
    let judgement = TtySecurity::check(&observation(false, &["TMUX"], None));
    let expected = vec![
        "(incogt) TTY warning: Stdin is not a real TTY".to_string(),
        "(incogt) TTY warning: TMUX detected: Tmux may maintain history".to_string(),
    ];
    assert_eq!(judgement.harden(), expected);
    assert_eq!(judgement.harden(), expected);
    assert_eq!(judgement.warnings.len(), 2);
    assert!(!judgement.is_secure);
}

#[test]
fn harden_brings_out_every_warning_whatever_the_flag_says() {
    let judgement = TtySecurity {
        is_secure: true,
        warnings: vec!["first".to_string(), "second".to_string()],
    };
    assert_eq!(
        judgement.harden(),
        vec![
            "(incogt) TTY warning: first".to_string(),
            "(incogt) TTY warning: second".to_string(),
        ]
    );
}

#[test]
fn stdin_probe_feeds_the_first_detector() {
    match incogt::tty::stdin_is_terminal() {
        Ok(stdin_is_tty) => {
            let judgement = TtySecurity::check(&observation(stdin_is_tty, &[], None));
            assert_eq!(judgement.is_secure, stdin_is_tty);
            assert_eq!(judgement.warnings.is_empty(), stdin_is_tty);
        }
        Err(error) => {
            assert_ne!(error.code, 0);
            assert!(!error.detail.is_empty());
        }
    }
}
