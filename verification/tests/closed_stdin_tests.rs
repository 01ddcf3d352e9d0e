use incogt::tty::stdin_is_terminal;
use nix::errno::Errno;

#[test]
fn closed_stdin_cannot_be_probed() {
    nix::unistd::close(0).unwrap();
    let error = stdin_is_terminal().unwrap_err();
    assert_eq!(error.code, Errno::EBADF as i32);
    assert_eq!(error.detail, Errno::EBADF.to_string());
    assert!(error.detail.starts_with("EBADF: "));
}
