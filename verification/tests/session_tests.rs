use incogt::session::{
    confirmation_prompt, exit_code, is_affirmative, is_yes, name_or_fallback, not_found_message,
    opening_lines, refusal_lines, shell_name, shell_path, Ending,
};
use incogt::shell::get_shell_cmd;

#[test]
fn preferred_shell_wins_over_the_default() {
    assert_eq!(shell_path(Some("/usr/bin/zsh".to_string())), "/usr/bin/zsh");
    assert_eq!(shell_path(None), "/bin/bash");
}

#[test]
fn shell_name_is_the_base_name_of_the_path() {
    assert_eq!(shell_name("/bin/bash"), "bash");
    assert_eq!(shell_name("/usr/local/bin/fish"), "fish");
    assert_eq!(shell_name("dash"), "dash");
    assert_eq!(shell_name("/usr/bin/zsh/"), "zsh");
}

#[test]
fn path_without_a_name_falls_back_to_bash() {
    assert_eq!(shell_name("/"), "bash");
    assert_eq!(shell_name(""), "bash");
    assert_eq!(shell_name("/bin/.."), "bash");
    assert_eq!(name_or_fallback(None), "bash");
    assert_eq!(name_or_fallback(Some("sh".to_string())), "sh");
}

#[test]
fn resolved_name_selects_the_command() {
    let name = shell_name("/usr/bin/fish");
    assert_eq!(get_shell_cmd(&name).unwrap(), get_shell_cmd("fish").unwrap());
    assert!(get_shell_cmd(&shell_name("/usr/bin/pwsh")).is_err());
}

#[test]
fn only_the_letter_y_is_a_yes() {
    assert!(is_yes("y"));
    assert!(is_yes("Y"));
    assert!(!is_yes(""));
    assert!(!is_yes("n"));
    assert!(!is_yes("yes"));
    assert!(!is_yes("yy"));
    assert!(!is_yes(" y"));
}

#[test]
fn answers_are_read_without_surrounding_white_space() {
    assert!(is_affirmative("y\n"));
    assert!(is_affirmative("  Y \r\n"));
    assert!(is_affirmative("y"));
    assert!(is_affirmative("\ty\u{a0}"));
    assert!(!is_affirmative("\n"));
    assert!(!is_affirmative(""));
    assert!(!is_affirmative("n\n"));
    assert!(!is_affirmative("yes\n"));
    assert!(!is_affirmative("y y\n"));
}

#[test]
fn confirmation_prompt_wraps_the_question() {
    assert_eq!(confirmation_prompt("test"), "(incogt) test [y/N]: ");
    assert_eq!(
        confirmation_prompt("Continue despite insecure terminal?"),
        "(incogt) Continue despite insecure terminal? [y/N]: "
    );
}

#[test]
fn opening_lines_name_the_shell_and_the_way_out() {
    assert_eq!(
        opening_lines("/bin/zsh"),
        vec![
            "(incogt) Starting incognito session with: /bin/zsh".to_string(),
            "(incogt) Use 'exit' or Ctrl+D to end the session".to_string(),
        ]
    );
}

#[test]
fn missing_shell_is_named_in_the_error() {
    assert_eq!(not_found_message("/opt/none"), "Shell '/opt/none' not found");
}

#[test]
fn refusal_is_reported_with_the_supported_shells() {
    let refusal = get_shell_cmd("powershell").unwrap_err();
    assert_eq!(
        refusal_lines(&refusal),
        vec![
            "Error: Unsupported shell: 'powershell'. Supported shells: bash, zsh, fish, sh, dash"
                .to_string(),
            "Supported shells: bash, zsh, fish, sh, dash".to_string(),
        ]
    );
}

#[test]
fn exit_code_follows_the_ending() {
    assert_eq!(exit_code(Ending::Declined), 0);
    assert_eq!(exit_code(Ending::Failed), 1);
    assert_eq!(exit_code(Ending::ShellExited(Some(0))), 0);
    assert_eq!(exit_code(Ending::ShellExited(Some(42))), 42);
    assert_eq!(exit_code(Ending::ShellExited(Some(-7))), -7);
    assert_eq!(exit_code(Ending::ShellExited(None)), 1);
}
