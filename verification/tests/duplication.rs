use state_layout::duplication::{
    resolve_clone_outcome, resolve_fallback_result, should_attempt_clone, Capability,
    CloneFollowUp, CloneOutcome, DowngradeWarning,
};
use state_layout::fault::{FaultKind, IoFault};
use state_layout::latch::CapabilityLatch;

fn fault(kind: FaultKind, message: &str) -> IoFault {
    IoFault { kind, message: message.to_string() }
}

#[test]
fn fresh_latch_believes_both_capabilities() {
    let latch = CapabilityLatch::new();
    assert_eq!(latch.read(), (true, true));
    assert!(should_attempt_clone(&latch));
}

#[test]
fn downgrade_cow_reports_first_call_only() {
    let mut latch = CapabilityLatch::new();
    assert!(latch.downgrade_cow_supported());
    assert!(!latch.downgrade_cow_supported());
    assert!(!latch.downgrade_cow_supported());
    assert_eq!(latch.read(), (false, true));
}

#[test]
fn downgrade_same_filesystem_reports_first_call_only() {
    let mut latch = CapabilityLatch::new();
    assert!(latch.downgrade_same_filesystem());
    assert!(!latch.downgrade_same_filesystem());
    assert_eq!(latch.read(), (true, false));
}

#[test]
fn clone_preferred_while_capabilities_hold() {
    // When every clone succeeds, each duplication attempts the clone, is
    // done without a fallback copy, and the latch never moves.
    let mut latch = CapabilityLatch::new();
    for _ in 0..5 {
        assert!(should_attempt_clone(&latch));
        let follow_up = resolve_clone_outcome(&mut latch, CloneOutcome::Success, "/data/a", "/data/b");
        assert!(matches!(follow_up, CloneFollowUp::Done));
        assert_eq!(latch.read(), (true, true));
    }
}

#[test]
fn unsupported_downgrades_once_with_single_warning() {
    let mut latch = CapabilityLatch::new();
    assert!(should_attempt_clone(&latch));
    let first = resolve_clone_outcome(&mut latch, CloneOutcome::Unsupported, "/data/a", "/data/b");
    match first {
        CloneFollowUp::FallBack(Some(DowngradeWarning { capability, message })) => {
            assert_eq!(capability, Capability::CopyOnWrite);
            assert_eq!(
                message,
                "running on a filesystem not supporting reflinks (attempted to reflink \
                 /data/a => /data/b), duplicating large payloads can be very slow"
            );
        }
        _ => panic!("expected a fallback with a warning"),
    }
    // The flag is down: no later duplication attempts a clone.
    assert_eq!(latch.read(), (false, true));
    assert!(!should_attempt_clone(&latch));
    // Even if the primitive were consulted again, no second warning comes.
    let second = resolve_clone_outcome(&mut latch, CloneOutcome::Unsupported, "/data/a", "/data/c");
    assert!(matches!(second, CloneFollowUp::FallBack(None)));
}

#[test]
fn different_filesystems_downgrades_once_with_single_warning() {
    let mut latch = CapabilityLatch::new();
    let first =
        resolve_clone_outcome(&mut latch, CloneOutcome::DifferentFileSystems, "/a/x", "/b/x");
    match first {
        CloneFollowUp::FallBack(Some(DowngradeWarning { capability, message })) => {
            assert_eq!(capability, Capability::SameFilesystem);
            assert_eq!(
                message,
                "the state root spans multiple filesystems (attempted to reflink \
                 /a/x => /b/x), duplicating large payloads can be very slow"
            );
        }
        _ => panic!("expected a fallback with a warning"),
    }
    assert_eq!(latch.read(), (true, false));
    let second =
        resolve_clone_outcome(&mut latch, CloneOutcome::DifferentFileSystems, "/a/y", "/b/y");
    assert!(matches!(second, CloneFollowUp::FallBack(None)));
}

#[test]
fn downgrades_are_independent() {
    // Downgrading "different filesystems" leaves the reflink flag up.
    let mut latch = CapabilityLatch::new();
    resolve_clone_outcome(&mut latch, CloneOutcome::DifferentFileSystems, "/a", "/b");
    assert_eq!(latch.read(), (true, false));
    // And the other way round.
    let mut other = CapabilityLatch::new();
    resolve_clone_outcome(&mut other, CloneOutcome::Unsupported, "/a", "/b");
    assert_eq!(other.read(), (false, true));
}

#[test]
fn genuine_fault_passes_through_without_fallback() {
    let mut latch = CapabilityLatch::new();
    let follow_up = resolve_clone_outcome(
        &mut latch,
        CloneOutcome::Fault(fault(FaultKind::PermissionDenied, "permission denied")),
        "/data/a",
        "/data/b",
    );
    match follow_up {
        CloneFollowUp::Propagate(translated) => {
            assert_eq!(translated.kind, FaultKind::PermissionDenied);
            assert_eq!(
                translated.message,
                "failed to clone /data/a -> /data/b: permission denied"
            );
        }
        _ => panic!("expected the fault to propagate"),
    }
    // No capability was downgraded by the fault.
    assert_eq!(latch.read(), (true, true));
}

#[test]
fn fallback_success_stands() {
    let translated = resolve_fallback_result(Ok(()), "/data/a", "/data/b");
    assert!(translated.is_ok());
}

#[test]
fn fallback_failure_is_translated_with_kind_kept() {
    let translated = resolve_fallback_result(
        Err(fault(FaultKind::StorageFull, "no space left on device")),
        "/data/a",
        "/data/b",
    );
    match translated {
        Err(wrapped) => {
            assert_eq!(wrapped.kind, FaultKind::StorageFull);
            assert_eq!(
                wrapped.message,
                "failed to copy /data/a -> /data/b: no space left on device"
            );
        }
        Ok(()) => panic!("expected the failure to stand"),
    }
}
