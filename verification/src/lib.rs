//! Building blocks for a history-less interactive shell session.
//!
//! - [`shell`]: the startup command for each supported shell.
//! - [`memory`]: best-effort protection against core dumps and swapping.
//! - [`tty`]: the judgement of whether the terminal may be recording.
//! - [`session`]: the small decisions of a session: which shell, whether an
//!   answer is a yes, what to tell the user, which exit code.
//! - [`driver`]: the order of a session, as a machine from what happened
//!   to what to do next.
//! - [`os`]: the calls into the operating system, taken on trust.
//! - [`text`]: helpers for text.

pub mod driver;
pub mod memory;
pub mod os;
pub mod session;
pub mod shell;
pub mod text;
pub mod tty;
