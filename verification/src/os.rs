//! The calls into the operating system, through the `nix` crate.
//!
//! Nothing in this module is proved. Each function holds one call, and its
//! contract, where it has one, is taken on trust from `nix`. The outcome of
//! these calls depends on the privileges and limits of the running process,
//! so none of them promises success: callers decide for every outcome.

use nix::errno::Errno;
use nix::sys::mman::{mlockall, MlockAllFlags};
use nix::sys::resource::{rlim_t, setrlimit, Resource};
use nix::unistd::isatty;
use vstd::prelude::*;

verus! {

/// `nix::errno::Errno`, the error number that a failed system call leaves.
/// Opaque here: it is only carried from a call to the functions below that
/// read it.
#[verifier::external_type_specification]
#[verifier::external_body]
pub struct ExErrno(nix::errno::Errno);

/// The kinds of error number that the library tells apart.
#[derive(Clone, Copy, Debug, PartialEq, Eq, Structural)]
pub enum Cause {
    /// The process lacks the privilege for the operation (`EPERM`).
    PermissionDenied,
    /// The operation would exceed what the process may hold (`ENOMEM`).
    OutOfMemory,
    /// Any other error number.
    Other,
}

/// Calls `nix::sys::mman::mlockall`, with the flag for the pages that are
/// mapped now if `current` is set and the flag for those that will be
/// mapped later if `future` is. Nothing is claimed of the outcome.
#[verifier::external_body]
pub(crate) fn lock_pages(current: bool, future: bool) -> (outcome: Result<(), Errno>) {
    let mut flags = MlockAllFlags::empty();
    flags.set(MlockAllFlags::MCL_CURRENT, current);
    flags.set(MlockAllFlags::MCL_FUTURE, future);
    mlockall(flags)
}

/// Calls `nix::sys::resource::setrlimit` on the size of core files, with
/// the given soft and hard limit in bytes. Nothing is claimed of the
/// outcome.
#[verifier::external_body]
pub(crate) fn limit_core_files(soft: u64, hard: u64) -> (outcome: Result<(), Errno>) {
    setrlimit(Resource::RLIMIT_CORE, soft as rlim_t, hard as rlim_t)
}

/// Calls `nix::unistd::isatty` on standard input: whether it is a terminal
/// device, or the error number if the system cannot tell. Nothing is claimed
/// of the outcome.
#[verifier::external_body]
pub(crate) fn stdin_isatty() -> (outcome: Result<bool, Errno>) {
    isatty(std::io::stdin())
}

/// Tells the variants of `Errno` apart, as far as the library cares.
/// Nothing is claimed of the result.
#[verifier::external_body]
pub(crate) fn cause_of(errno: &Errno) -> (cause: Cause) {
    match errno {
        Errno::EPERM => Cause::PermissionDenied,
        Errno::ENOMEM => Cause::OutOfMemory,
        _ => Cause::Other,
    }
}

/// The error number in words, as `Errno`'s `Display` writes it: its name, a
/// colon and a description. Nothing is claimed of the text.
#[verifier::external_body]
pub(crate) fn words_of(errno: &Errno) -> (words: String) {
    format!("{}", errno)
}

/// The error number as the integer that the system uses for it, which is
/// what `Errno` is as an `i32`. Nothing is claimed of the number.
#[verifier::external_body]
pub(crate) fn number_of(errno: &Errno) -> (number: i32) {
    *errno as i32
}

} // verus!
