//! Best-effort protection of the process's memory against leaking to disk.
//!
//! Two operations are attempted, in this order: core files are forbidden,
//! then all pages are locked against swapping. Either may fail for want of
//! privilege; that downgrades the corresponding flag and leaves a warning,
//! and the session goes on. Only a failure to lock memory for a reason
//! other than privilege or lockable memory is fatal.
//!
//! The rules are stated over an [`Attempt`], so that they hold for every
//! outcome of the system calls and can be exercised without making them.

use crate::os::{cause_of, limit_core_files, lock_pages, words_of, Cause};
use crate::text::{line, push_line, texts};
use nix::errno::Errno;
use vstd::prelude::*;
use vstd::string::*;

verus! {

/// The largest core file that the process may write once it is protected,
/// in bytes: none at all.
pub const CORE_FILE_LIMIT: u64 = 0;

/// Whether the pages that are mapped when memory is locked are locked.
pub const LOCK_CURRENT_PAGES: bool = true;

/// Whether the pages that are mapped after memory is locked are locked.
pub const LOCK_FUTURE_PAGES: bool = true;

pub const LOCK_NO_PERMISSION: &'static str =
    "(incogt) Warning: Cannot lock memory - insufficient permissions";

pub const LOCK_PERMISSION_HINT: &'static str =
    "(incogt) Consider running with CAP_IPC_LOCK capability or as root";

pub const LOCK_NO_MEMORY: &'static str =
    "(incogt) Warning: Cannot lock memory - insufficient memory";

pub const LOCK_UNSUPPORTED: &'static str =
    "(incogt) Warning: Memory locking not supported on this platform";

pub const LOCK_FAILED: &'static str = "Failed to lock memory: ";

pub const CORE_DUMPS_REFUSED: &'static str = "(incogt) Warning: Cannot disable core dumps: ";

pub const CORE_DUMPS_UNSUPPORTED: &'static str =
    "(incogt) Warning: Core dump disabling not supported on this platform";

pub const INITIALIZED_NOTICE: &'static str = "(incogt) Memory protection initialized";

pub const LOCKED_NOTICE: &'static str =
    "(incogt) Memory locked - history cannot be swapped to disk";

pub const CORE_DUMPS_NOTICE: &'static str =
    "(incogt) Core dumps disabled - prevents crash memory dumps";

pub const RELEASE_NOTICE: &'static str =
    "(incogt) Memory protection cleanup - memory remains locked until exit";

pub const SUMMARY_MEMORY: &'static str = "Memory: ";

pub const SUMMARY_CORE_DUMPS: &'static str = ", Core dumps: ";

pub const LOCKED: &'static str = "LOCKED";

pub const UNLOCKED: &'static str = "UNLOCKED";

pub const DISABLED: &'static str = "DISABLED";

pub const ENABLED: &'static str = "ENABLED";

/// How one attempt at a protective operation went.
#[derive(Debug)]
pub enum Attempt {
    /// The operation took effect.
    Done,
    /// The system refused it, for the given cause and in the given words.
    Failed { cause: Cause, detail: String },
    /// The platform has no such operation.
    Unsupported,
}

/// An [`Attempt`] as a mathematical value.
pub enum AttemptView {
    Done,
    Failed { cause: Cause, detail: Seq<char> },
    Unsupported,
}

impl View for Attempt {
    type V = AttemptView;

    open spec fn view(&self) -> AttemptView {
        match *self {
            Attempt::Done => AttemptView::Done,
            Attempt::Failed { cause, detail } => AttemptView::Failed { cause, detail: detail@ },
            Attempt::Unsupported => AttemptView::Unsupported,
        }
    }
}

/// What an attempt means for the session.
#[derive(Clone, Copy, Debug, PartialEq, Eq, Structural)]
pub enum Outcome {
    /// The protection is in place.
    Succeeded,
    /// The protection is missing; the session goes on with a warning.
    Degraded,
    /// The session must not start.
    Fatal,
}

/// The rule for forbidding core files: a failure never ends the session.
pub open spec fn core_dump_rule(attempt: AttemptView) -> Outcome {
    match attempt {
        AttemptView::Done => Outcome::Succeeded,
        _ => Outcome::Degraded,
    }
}

/// The rule for locking memory: want of privilege or of lockable memory,
/// or of the operation itself, degrades; any other failure is fatal.
pub open spec fn lock_rule(attempt: AttemptView) -> Outcome {
    match attempt {
        AttemptView::Done => Outcome::Succeeded,
        AttemptView::Failed { cause: Cause::Other, .. } => Outcome::Fatal,
        _ => Outcome::Degraded,
    }
}

/// The warnings that an attempt to forbid core files leaves.
pub open spec fn core_dump_warnings(attempt: AttemptView) -> Seq<Seq<char>> {
    match attempt {
        AttemptView::Done => Seq::empty(),
        AttemptView::Failed { detail, .. } => seq![CORE_DUMPS_REFUSED@ + detail],
        AttemptView::Unsupported => seq![CORE_DUMPS_UNSUPPORTED@],
    }
}

/// The warnings that an attempt to lock memory leaves. A fatal failure
/// leaves none: it is reported as the error itself.
pub open spec fn lock_warnings(attempt: AttemptView) -> Seq<Seq<char>> {
    match attempt {
        AttemptView::Done => Seq::empty(),
        AttemptView::Failed { cause: Cause::PermissionDenied, .. } => seq![
            LOCK_NO_PERMISSION@,
            LOCK_PERMISSION_HINT@,
        ],
        AttemptView::Failed { cause: Cause::OutOfMemory, .. } => seq![LOCK_NO_MEMORY@],
        AttemptView::Failed { cause: Cause::Other, .. } => Seq::empty(),
        AttemptView::Unsupported => seq![LOCK_UNSUPPORTED@],
    }
}

/// The system's words for a refusal; empty where there was none.
pub open spec fn detail_of(attempt: AttemptView) -> Seq<char> {
    match attempt {
        AttemptView::Failed { detail, .. } => detail,
        _ => Seq::empty(),
    }
}

/// The message of the error that a fatal failure to lock memory raises.
pub open spec fn lock_failure_message(attempt: AttemptView) -> Seq<char> {
    LOCK_FAILED@ + detail_of(attempt)
}

impl Attempt {
    /// What this attempt means when it was an attempt to forbid core files.
    pub fn core_dump_outcome(&self) -> (outcome: Outcome)
        ensures
            outcome == core_dump_rule(self@),
            outcome != Outcome::Fatal,
    {
        match self {
            Attempt::Done => Outcome::Succeeded,
            _ => Outcome::Degraded,
        }
    }

    /// What this attempt means when it was an attempt to lock memory.
    pub fn lock_outcome(&self) -> (outcome: Outcome)
        ensures
            outcome == lock_rule(self@),
    {
        match self {
            Attempt::Done => Outcome::Succeeded,
            Attempt::Failed { cause: Cause::Other, .. } => Outcome::Fatal,
            _ => Outcome::Degraded,
        }
    }

    /// The system's words for a refusal; empty where there was none.
    pub fn detail(&self) -> (words: &str)
        ensures
            words@ == detail_of(self@),
    {
        proof {
            reveal_strlit("");
            assert(""@ =~= Seq::<char>::empty());
        }
        match self {
            Attempt::Failed { detail, .. } => detail.as_str(),
            _ => "",
        }
    }

    /// The attempt that the result of a system call stands for: done where
    /// the call succeeded, and else failed, with the cause and the words
    /// that belong to the error number.
    pub fn observed(result: Result<(), Errno>) -> (attempt: Attempt)
        ensures
            attempt is Done <==> result is Ok,
            attempt !is Unsupported,
    {
        match result {
            Ok(()) => Attempt::Done,
            Err(errno) => Attempt::Failed { cause: cause_of(&errno), detail: words_of(&errno) },
        }
    }
}

/// The error that ends the session before it starts.
#[derive(Debug)]
pub struct MemoryError {
    /// What went wrong, for the user.
    pub message: String,
}

impl View for MemoryError {
    type V = Seq<char>;

    open spec fn view(&self) -> Seq<char> {
        self.message@
    }
}

/// Which protections are in place for the running process.
///
/// The flags only ever go from `false` to `true`: nothing the library does
/// takes a protection back. Locked memory stays locked until the process
/// ends.
#[derive(Clone, Copy, Debug, PartialEq, Eq, Structural)]
pub struct MemoryProtection {
    pub memory_locked: bool,
    pub core_dumps_disabled: bool,
}

/// The state after both attempts, or the message of the fatal error.
pub open spec fn initialization(core: AttemptView, lock: AttemptView) -> Result<
    MemoryProtection,
    Seq<char>,
> {
    if lock_rule(lock) == Outcome::Fatal {
        Err(lock_failure_message(lock))
    } else {
        Ok(MemoryProtection { memory_locked: lock is Done, core_dumps_disabled: core is Done })
    }
}

/// What initialization did, given how the two attempts went: the result,
/// and the warnings added to what was logged before.
pub open spec fn initialized(
    core: AttemptView,
    lock: AttemptView,
    result: Result<MemoryProtection, MemoryError>,
    logged_before: Seq<Seq<char>>,
    logged_after: Seq<Seq<char>>,
) -> bool {
    &&& logged_after == logged_before + core_dump_warnings(core) + lock_warnings(lock)
    &&& match result {
        Ok(protection) => initialization(core, lock) == Ok::<MemoryProtection, Seq<char>>(
            protection,
        ),
        Err(error) => initialization(core, lock) == Err::<MemoryProtection, Seq<char>>(error@),
    }
}

/// Want of privilege, of lockable memory or of the operations themselves
/// never stops initialization, and each flag tells of its own attempt
/// alone: either protection can be missing while the other is in place.
pub proof fn lemma_degradations_are_independent(core: AttemptView, lock: AttemptView)
    requires
        !(lock matches AttemptView::Failed { cause: Cause::Other, .. }),
    ensures
        initialization(core, lock) == Ok::<MemoryProtection, Seq<char>>(
            MemoryProtection { memory_locked: lock is Done, core_dumps_disabled: core is Done },
        ),
        core_dump_rule(core) != Outcome::Fatal,
        lock_rule(lock) != Outcome::Fatal,
{
}

/// Only an unexpected failure to lock memory is fatal, and then whatever
/// came of the core files does not matter.
pub proof fn lemma_fatal_iff_unexpected_lock_failure(core: AttemptView, lock: AttemptView)
    ensures
        initialization(core, lock) is Err <==> lock matches AttemptView::Failed {
            cause: Cause::Other,
            ..
        },
{
}

/// The lines that announce which protections are in place.
pub open spec fn notice_texts(protection: MemoryProtection) -> Seq<Seq<char>> {
    seq![INITIALIZED_NOTICE@] + (if protection.memory_locked {
        seq![LOCKED_NOTICE@]
    } else {
        Seq::empty()
    }) + (if protection.core_dumps_disabled {
        seq![CORE_DUMPS_NOTICE@]
    } else {
        Seq::empty()
    })
}

/// The one-line summary of the protections.
pub open spec fn summary_text(protection: MemoryProtection) -> Seq<char> {
    SUMMARY_MEMORY@ + (if protection.memory_locked {
        LOCKED@
    } else {
        UNLOCKED@
    }) + SUMMARY_CORE_DUMPS@ + (if protection.core_dumps_disabled {
        DISABLED@
    } else {
        ENABLED@
    })
}

/// Logs the warnings of an attempt to forbid core files.
fn warn_of_core_dumps(attempt: &Attempt, warnings: &mut Vec<String>)
    ensures
        texts(final(warnings)@) == texts(old(warnings)@) + core_dump_warnings(attempt@),
{
    match attempt {
        Attempt::Done => {},
        Attempt::Failed { detail, .. } => {
            let mut warning = line(CORE_DUMPS_REFUSED);
            warning.append(detail.as_str());
            push_line(warnings, warning.as_str());
        },
        Attempt::Unsupported => {
            push_line(warnings, CORE_DUMPS_UNSUPPORTED);
        },
    }
    assert(texts(warnings@) =~= texts(old(warnings)@) + core_dump_warnings(attempt@));
}

/// Logs the warnings of an attempt to lock memory.
fn warn_of_lock(attempt: &Attempt, warnings: &mut Vec<String>)
    ensures
        texts(final(warnings)@) == texts(old(warnings)@) + lock_warnings(attempt@),
{
    match attempt {
        Attempt::Failed { cause: Cause::PermissionDenied, .. } => {
            push_line(warnings, LOCK_NO_PERMISSION);
            push_line(warnings, LOCK_PERMISSION_HINT);
        },
        Attempt::Failed { cause: Cause::OutOfMemory, .. } => {
            push_line(warnings, LOCK_NO_MEMORY);
        },
        Attempt::Unsupported => {
            push_line(warnings, LOCK_UNSUPPORTED);
        },
        _ => {},
    }
    assert(texts(warnings@) =~= texts(old(warnings)@) + lock_warnings(attempt@));
}

impl MemoryProtection {
    /// Protects the running process: forbids core files first, then locks
    /// memory, so that no crash can dump memory while locking is under way.
    /// Warnings are added to `warnings` in the order in which they arose.
    ///
    /// The system decides how each attempt goes. Whatever it decides, the
    /// result and the warnings are those that [`initialize_with`] gives for
    /// the two attempts.
    ///
    /// [`initialize_with`]: MemoryProtection::initialize_with
    pub fn initialize(warnings: &mut Vec<String>) -> (result: Result<
        MemoryProtection,
        MemoryError,
    >)
        ensures
            exists|core: AttemptView, lock: AttemptView|
                (core !is Unsupported && lock !is Unsupported && #[trigger] initialized(
                    core,
                    lock,
                    result,
                    texts(old(warnings)@),
                    texts(final(warnings)@),
                )),
    {
        let mut protection = MemoryProtection { memory_locked: false, core_dumps_disabled: false };
        let core = protection.disable_core_dumps(warnings);
        let (lock, locked) = protection.lock_memory(warnings);
        let result = match locked {
            Ok(()) => Ok(protection),
            Err(error) => Err(error),
        };
        assert(initialized(core@, lock@, result, texts(old(warnings)@), texts(warnings@)));
        result
    }

    /// Initialization for two attempts whose outcome is given.
    pub fn initialize_with(core: &Attempt, lock: &Attempt, warnings: &mut Vec<String>) -> (result:
        Result<MemoryProtection, MemoryError>)
        ensures
            initialized(core@, lock@, result, texts(old(warnings)@), texts(final(warnings)@)),
            result is Err <==> lock_rule(lock@) == Outcome::Fatal,
            result matches Ok(protection) ==> (protection.core_dumps_disabled == (core@ is Done)
                && protection.memory_locked == (lock@ is Done)),
    {
        let mut protection = MemoryProtection { memory_locked: false, core_dumps_disabled: false };
        protection.record_core_dumps(core, warnings);
        match protection.record_lock(lock, warnings) {
            Ok(()) => Ok(protection),
            Err(error) => Err(error),
        }
    }

    /// Asks the system to forbid core files, by a limit of zero bytes on
    /// their size, and records how that went.
    fn disable_core_dumps(&mut self, warnings: &mut Vec<String>) -> (attempt: Attempt)
        ensures
            attempt !is Unsupported,
            final(self).memory_locked == old(self).memory_locked,
            final(self).core_dumps_disabled == (old(self).core_dumps_disabled || attempt@ is Done),
            texts(final(warnings)@) == texts(old(warnings)@) + core_dump_warnings(attempt@),
    {
        let attempt = Attempt::observed(limit_core_files(CORE_FILE_LIMIT, CORE_FILE_LIMIT));
        self.record_core_dumps(&attempt, warnings);
        attempt
    }

    /// Asks the system to lock all pages, those mapped now and those
    /// mapped later, and records how that went.
    fn lock_memory(&mut self, warnings: &mut Vec<String>) -> (made: (
        Attempt,
        Result<(), MemoryError>,
    ))
        ensures
            made.0 !is Unsupported,
            final(self).core_dumps_disabled == old(self).core_dumps_disabled,
            final(self).memory_locked == (old(self).memory_locked || made.0@ is Done),
            texts(final(warnings)@) == texts(old(warnings)@) + lock_warnings(made.0@),
            made.1 is Err <==> lock_rule(made.0@) == Outcome::Fatal,
            made.1 matches Err(error) ==> error@ == lock_failure_message(made.0@),
    {
        let attempt = Attempt::observed(lock_pages(LOCK_CURRENT_PAGES, LOCK_FUTURE_PAGES));
        let recorded = self.record_lock(&attempt, warnings);
        (attempt, recorded)
    }

    /// Records an attempt to forbid core files: sets the flag if the
    /// attempt took effect, and logs a warning if not. Never fails.
    pub fn record_core_dumps(&mut self, attempt: &Attempt, warnings: &mut Vec<String>)
        ensures
            final(self).memory_locked == old(self).memory_locked,
            final(self).core_dumps_disabled == (old(self).core_dumps_disabled || attempt@ is Done),
            texts(final(warnings)@) == texts(old(warnings)@) + core_dump_warnings(attempt@),
    {
        match attempt.core_dump_outcome() {
            Outcome::Succeeded => {
                self.core_dumps_disabled = true;
            },
            _ => {
                warn_of_core_dumps(attempt, warnings);
            },
        }
        assert(texts(warnings@) =~= texts(old(warnings)@) + core_dump_warnings(attempt@));
    }

    /// Records an attempt to lock memory: sets the flag if the attempt took
    /// effect, logs a warning if the session can go on without it, and
    /// fails if it cannot.
    pub fn record_lock(&mut self, attempt: &Attempt, warnings: &mut Vec<String>) -> (result:
        Result<(), MemoryError>)
        ensures
            final(self).core_dumps_disabled == old(self).core_dumps_disabled,
            final(self).memory_locked == (old(self).memory_locked || attempt@ is Done),
            texts(final(warnings)@) == texts(old(warnings)@) + lock_warnings(attempt@),
            result is Err <==> lock_rule(attempt@) == Outcome::Fatal,
            result matches Err(error) ==> error@ == lock_failure_message(attempt@),
    {
        let result = match attempt.lock_outcome() {
            Outcome::Succeeded => {
                self.memory_locked = true;
                Ok(())
            },
            Outcome::Degraded => {
                warn_of_lock(attempt, warnings);
                Ok(())
            },
            Outcome::Fatal => {
                let mut message = line(LOCK_FAILED);
                message.append(attempt.detail());
                Err(MemoryError { message })
            },
        };
        assert(texts(warnings@) =~= texts(old(warnings)@) + lock_warnings(attempt@));
        result
    }

    /// Whether both protections are in place.
    pub fn is_fully_protected(&self) -> (full: bool)
        ensures
            full == (self.memory_locked && self.core_dumps_disabled),
    {
        self.memory_locked && self.core_dumps_disabled
    }

    /// The protections in one line.
    pub fn status_summary(&self) -> (summary: String)
        ensures
            summary@ == summary_text(*self),
    {
        let mut summary = line(SUMMARY_MEMORY);
        summary.append(
            if self.memory_locked {
                LOCKED
            } else {
                UNLOCKED
            },
        );
        summary.append(SUMMARY_CORE_DUMPS);
        summary.append(
            if self.core_dumps_disabled {
                DISABLED
            } else {
                ENABLED
            },
        );
        summary
    }

    /// The lines that announce which protections are in place.
    pub fn notices(&self) -> (lines: Vec<String>)
        ensures
            texts(lines@) == notice_texts(*self),
    {
        let mut lines: Vec<String> = Vec::new();
        push_line(&mut lines, INITIALIZED_NOTICE);
        if self.memory_locked {
            push_line(&mut lines, LOCKED_NOTICE);
        }
        if self.core_dumps_disabled {
            push_line(&mut lines, CORE_DUMPS_NOTICE);
        }
        assert(texts(lines@) =~= notice_texts(*self));
        lines
    }

    /// Lets go of the record when the session is over. Memory is not
    /// unlocked: that would expose it to swap again. It stays locked until
    /// the process ends, and all this gives is the line that says so, when
    /// memory was locked.
    pub fn release(self) -> (notice: Option<String>)
        ensures
            notice is Some <==> self.memory_locked,
            notice matches Some(text) ==> text@ == RELEASE_NOTICE@,
    {
        if self.memory_locked {
            Some(line(RELEASE_NOTICE))
        } else {
            None
        }
    }
}

} // verus!
