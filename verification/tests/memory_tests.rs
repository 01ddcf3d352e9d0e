use incogt::memory::{Attempt, MemoryProtection, Outcome};
use incogt::os::Cause;
use nix::errno::Errno;

fn failed(cause: Cause, detail: &str) -> Attempt {
    Attempt::Failed { cause, detail: detail.to_string() }
}

#[test]
fn both_attempts_done_gives_full_protection() {
    let mut warnings: Vec<String> = Vec::new();
    let protection =
        MemoryProtection::initialize_with(&Attempt::Done, &Attempt::Done, &mut warnings).unwrap();
    assert!(protection.memory_locked);
    assert!(protection.core_dumps_disabled);
    assert!(protection.is_fully_protected());
    assert!(warnings.is_empty());
    assert_eq!(protection.status_summary(), "Memory: LOCKED, Core dumps: DISABLED");
}

#[test]
fn denied_lock_leaves_only_memory_unlocked() {
    let mut warnings: Vec<String> = Vec::new();
    let lock = failed(Cause::PermissionDenied, "EPERM: Operation not permitted");
    let protection =
        MemoryProtection::initialize_with(&Attempt::Done, &lock, &mut warnings).unwrap();
    assert!(!protection.memory_locked);
    assert!(protection.core_dumps_disabled);
    assert!(!protection.is_fully_protected());
    assert_eq!(
        warnings,
        vec![
            "(incogt) Warning: Cannot lock memory - insufficient permissions".to_string(),
            "(incogt) Consider running with CAP_IPC_LOCK capability or as root".to_string(),
        ]
    );
    assert_eq!(protection.status_summary(), "Memory: UNLOCKED, Core dumps: DISABLED");
}

#[test]
fn denied_core_limit_leaves_only_core_dumps_enabled() {
    let mut warnings: Vec<String> = Vec::new();
    let core = failed(Cause::PermissionDenied, "EPERM: Operation not permitted");
    let protection =
        MemoryProtection::initialize_with(&core, &Attempt::Done, &mut warnings).unwrap();
    assert!(protection.memory_locked);
    assert!(!protection.core_dumps_disabled);
    assert_eq!(
        warnings,
        vec![
            "(incogt) Warning: Cannot disable core dumps: EPERM: Operation not permitted"
                .to_string()
        ]
    );
    assert_eq!(protection.status_summary(), "Memory: LOCKED, Core dumps: ENABLED");
}

#[test]
fn both_denied_still_initializes() {
    let mut warnings: Vec<String> = Vec::new();
    let core = failed(Cause::PermissionDenied, "EPERM: Operation not permitted");
    let lock = failed(Cause::PermissionDenied, "EPERM: Operation not permitted");
    let protection = MemoryProtection::initialize_with(&core, &lock, &mut warnings).unwrap();
    assert!(!protection.memory_locked);
    assert!(!protection.core_dumps_disabled);
    assert_eq!(warnings.len(), 3);
    assert!(warnings[0].starts_with("(incogt) Warning: Cannot disable core dumps: "));
    assert_eq!(protection.status_summary(), "Memory: UNLOCKED, Core dumps: ENABLED");
}

#[test]
fn scarce_lockable_memory_degrades() {
    let mut warnings: Vec<String> = vec!["earlier".to_string()];
    let lock = failed(Cause::OutOfMemory, "ENOMEM: Out of memory");
    let protection =
        MemoryProtection::initialize_with(&Attempt::Done, &lock, &mut warnings).unwrap();
    assert!(!protection.memory_locked);
    assert_eq!(
        warnings,
        vec![
            "earlier".to_string(),
            "(incogt) Warning: Cannot lock memory - insufficient memory".to_string(),
        ]
    );
}

#[test]
fn unexpected_lock_failure_is_fatal() {
    let mut warnings: Vec<String> = Vec::new();
    let core = failed(Cause::Other, "EINVAL: Invalid argument");
    let lock = failed(Cause::Other, "EIO: I/O error");
    let error = MemoryProtection::initialize_with(&core, &lock, &mut warnings).unwrap_err();
    assert_eq!(error.message, "Failed to lock memory: EIO: I/O error");
    assert_eq!(
        warnings,
        vec!["(incogt) Warning: Cannot disable core dumps: EINVAL: Invalid argument".to_string()]
    );
}

#[test]
fn unexpected_core_limit_failure_is_not_fatal() {
    let mut warnings: Vec<String> = Vec::new();
    let core = failed(Cause::Other, "EINVAL: Invalid argument");
    let protection =
        MemoryProtection::initialize_with(&core, &Attempt::Done, &mut warnings).unwrap();
    assert!(!protection.core_dumps_disabled);
    assert!(protection.memory_locked);
}

#[test]
fn missing_primitives_degrade_both() {
    let mut warnings: Vec<String> = Vec::new();
    let protection = MemoryProtection::initialize_with(
        &Attempt::Unsupported,
        &Attempt::Unsupported,
        &mut warnings,
    )
    .unwrap();
    assert!(!protection.memory_locked);
    assert!(!protection.core_dumps_disabled);
    assert_eq!(
        warnings,
        vec![
            "(incogt) Warning: Core dump disabling not supported on this platform".to_string(),
            "(incogt) Warning: Memory locking not supported on this platform".to_string(),
        ]
    );
}

#[test]
fn outcomes_follow_the_two_rules() {
    let denied = failed(Cause::PermissionDenied, "x");
    let scarce = failed(Cause::OutOfMemory, "x");
    let other = failed(Cause::Other, "x");
    assert_eq!(Attempt::Done.core_dump_outcome(), Outcome::Succeeded);
    assert_eq!(denied.core_dump_outcome(), Outcome::Degraded);
    assert_eq!(scarce.core_dump_outcome(), Outcome::Degraded);
    assert_eq!(other.core_dump_outcome(), Outcome::Degraded);
    assert_eq!(Attempt::Unsupported.core_dump_outcome(), Outcome::Degraded);
    assert_eq!(Attempt::Done.lock_outcome(), Outcome::Succeeded);
    assert_eq!(denied.lock_outcome(), Outcome::Degraded);
    assert_eq!(scarce.lock_outcome(), Outcome::Degraded);
    assert_eq!(other.lock_outcome(), Outcome::Fatal);
    assert_eq!(Attempt::Unsupported.lock_outcome(), Outcome::Degraded);
}

#[test]
fn flags_are_never_taken_back() {
    let mut protection = MemoryProtection { memory_locked: true, core_dumps_disabled: true };
    let mut warnings: Vec<String> = Vec::new();
    protection.record_core_dumps(&failed(Cause::PermissionDenied, "x"), &mut warnings);
    assert!(protection.record_lock(&failed(Cause::OutOfMemory, "x"), &mut warnings).is_ok());
    assert!(protection.record_lock(&failed(Cause::Other, "x"), &mut warnings).is_err());
    assert!(protection.memory_locked);
    assert!(protection.core_dumps_disabled);
}

#[test]
fn notices_name_what_is_in_place() {
    let full = MemoryProtection { memory_locked: true, core_dumps_disabled: true };
    assert_eq!(
        full.notices(),
        vec![
            "(incogt) Memory protection initialized".to_string(),
            "(incogt) Memory locked - history cannot be swapped to disk".to_string(),
            "(incogt) Core dumps disabled - prevents crash memory dumps".to_string(),
        ]
    );
    let none = MemoryProtection { memory_locked: false, core_dumps_disabled: false };
    assert_eq!(none.notices(), vec!["(incogt) Memory protection initialized".to_string()]);
    let core_only = MemoryProtection { memory_locked: false, core_dumps_disabled: true };
    assert_eq!(core_only.notices().len(), 2);
    assert_eq!(
        core_only.notices()[1],
        "(incogt) Core dumps disabled - prevents crash memory dumps"
    );
}

#[test]
fn release_only_speaks_when_memory_was_locked() {
    let locked = MemoryProtection { memory_locked: true, core_dumps_disabled: false };
    assert_eq!(
        locked.release(),
        Some("(incogt) Memory protection cleanup - memory remains locked until exit".to_string())
    );
    let unlocked = MemoryProtection { memory_locked: false, core_dumps_disabled: true };
    assert_eq!(unlocked.release(), None);
}

#[test]
fn real_initialization_reports_what_it_reached() {
    let mut warnings: Vec<String> = Vec::new();
    match MemoryProtection::initialize(&mut warnings) {
        Ok(protection) => {
            let lock_warned = warnings.iter().any(|w| w.contains("Cannot lock memory"));
            let core_warned = warnings.iter().any(|w| w.contains("Cannot disable core dumps"));
            assert_eq!(protection.memory_locked, !lock_warned);
            assert_eq!(protection.core_dumps_disabled, !core_warned);
            assert_eq!(
                protection.is_fully_protected(),
                protection.memory_locked && protection.core_dumps_disabled
            );
            assert!(protection.status_summary().starts_with("Memory: "));
        }
        Err(error) => {
            assert!(error.message.starts_with("Failed to lock memory: "));
            assert!(error.message.len() > "Failed to lock memory: ".len());
        }
    }
}

#[test]
fn error_numbers_are_told_apart_by_cause() {
    match Attempt::observed(Err(Errno::EPERM)) {
        Attempt::Failed { cause, detail } => {
            assert_eq!(cause, Cause::PermissionDenied);
            assert_eq!(detail, Errno::EPERM.to_string());
            assert!(detail.starts_with("EPERM: "));
        }
        other => panic!("unexpected attempt: {:?}", other),
    }
    match Attempt::observed(Err(Errno::ENOMEM)) {
        Attempt::Failed { cause, detail } => {
            assert_eq!(cause, Cause::OutOfMemory);
            assert!(detail.starts_with("ENOMEM: "));
        }
        other => panic!("unexpected attempt: {:?}", other),
    }
    for errno in [Errno::EIO, Errno::EINVAL, Errno::EACCES, Errno::EAGAIN] {
        match Attempt::observed(Err(errno)) {
            Attempt::Failed { cause, detail } => {
                assert_eq!(cause, Cause::Other);
                assert_eq!(detail, errno.to_string());
            }
            other => panic!("unexpected attempt: {:?}", other),
        }
    }
    assert!(matches!(Attempt::observed(Ok(())), Attempt::Done));
}

#[test]
fn observed_error_numbers_follow_the_lock_rule() {
    assert_eq!(Attempt::observed(Ok(())).lock_outcome(), Outcome::Succeeded);
    assert_eq!(Attempt::observed(Err(Errno::EPERM)).lock_outcome(), Outcome::Degraded);
    assert_eq!(Attempt::observed(Err(Errno::ENOMEM)).lock_outcome(), Outcome::Degraded);
    assert_eq!(Attempt::observed(Err(Errno::EINVAL)).lock_outcome(), Outcome::Fatal);
    assert_eq!(Attempt::observed(Err(Errno::EINVAL)).core_dump_outcome(), Outcome::Degraded);
}
