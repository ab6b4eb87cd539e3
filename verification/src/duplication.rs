//! The adaptive duplication policy: prefer a copy-on-write clone, interpret
//! its failure modes, downgrade the capability latch at most once per
//! capability with a one-time warning, and fall back to a sparse-aware full
//! copy — or propagate a genuine I/O fault untouched.
//!
//! The filesystem primitives are collaborators run by the caller; this module
//! decides which one to run next and how to interpret what it reported.

use vstd::prelude::*;
use vstd::string::StringExecFns;
use crate::fault::{clone_fault_text, IoFault};
use crate::latch::CapabilityLatch;

verus! {

/// What the clone primitive reported for one attempt.
pub enum CloneOutcome {
    /// The clone succeeded; the destination now exists.
    Success,
    /// Source and destination reside on different filesystems.
    DifferentFileSystems,
    /// The filesystem does not support copy-on-write cloning.
    Unsupported,
    /// A genuine I/O fault, unrelated to filesystem capabilities.
    Fault(IoFault),
}

/// The capability a downgrade warning speaks of.
#[derive(Clone, Copy, PartialEq, Eq, Structural, Debug)]
pub enum Capability {
    CopyOnWrite,
    SameFilesystem,
}

/// A one-time warning tied to the first downgrade of one capability.
pub struct DowngradeWarning {
    pub capability: Capability,
    pub message: String,
}

/// What the caller must do after the clone attempt was interpreted.
pub enum CloneFollowUp {
    /// The clone succeeded; the duplication is complete.
    Done,
    /// Fall back to the sparse-aware full copy. The warning is present
    /// exactly when this call performed the first downgrade of the
    /// capability it names.
    FallBack(Option<DowngradeWarning>),
    /// A genuine I/O fault: propagate it; do not fall back.
    Propagate(IoFault),
}

/// The warning text for a source/destination pair spanning two filesystems.
pub open spec fn same_filesystem_warning_text(source: Seq<char>, destination: Seq<char>) -> Seq<char> {
    "the state root spans multiple filesystems (attempted to reflink "@ + source + " => "@
        + destination + "), duplicating large payloads can be very slow"@
}

/// The warning text for a filesystem without copy-on-write support.
pub open spec fn cow_warning_text(source: Seq<char>, destination: Seq<char>) -> Seq<char> {
    "running on a filesystem not supporting reflinks (attempted to reflink "@ + source + " => "@
        + destination + "), duplicating large payloads can be very slow"@
}

fn same_filesystem_warning(source: &str, destination: &str) -> (warning: DowngradeWarning)
    ensures
        warning.capability == Capability::SameFilesystem,
        warning.message@ == same_filesystem_warning_text(source@, destination@),
{
    let mut message = String::new();
    message.append("the state root spans multiple filesystems (attempted to reflink ");
    message.append(source);
    message.append(" => ");
    message.append(destination);
    message.append("), duplicating large payloads can be very slow");
    DowngradeWarning { capability: Capability::SameFilesystem, message }
}

fn cow_warning(source: &str, destination: &str) -> (warning: DowngradeWarning)
    ensures
        warning.capability == Capability::CopyOnWrite,
        warning.message@ == cow_warning_text(source@, destination@),
{
    let mut message = String::new();
    message.append("running on a filesystem not supporting reflinks (attempted to reflink ");
    message.append(source);
    message.append(" => ");
    message.append(destination);
    message.append("), duplicating large payloads can be very slow");
    DowngradeWarning { capability: Capability::CopyOnWrite, message }
}

/// Whether a duplication should attempt a clone at all: only while both
/// capabilities are still believed present. Once either flag is down, every
/// later duplication goes straight to the full copy.
pub fn should_attempt_clone(latch: &CapabilityLatch) -> (attempt: bool)
    ensures
        attempt == (latch.cow_supported() && latch.same_filesystem()),
{
    let (cow, same) = latch.read();
    cow && same
}

/// Interprets what the clone primitive reported, downgrading the latch on a
/// capability mismatch and wrapping a genuine fault with path context.
///
/// The two mismatch outcomes are absorbed: they yield a fallback, never a
/// caller-visible error. The warning accompanies exactly the first downgrade
/// of each capability. A genuine fault keeps its kind and gains the two
/// paths in its message; the latch is left as it was.
pub fn resolve_clone_outcome(
    latch: &mut CapabilityLatch,
    outcome: CloneOutcome,
    source: &str,
    destination: &str,
) -> (follow_up: CloneFollowUp)
    ensures
        final(latch).cow_supported() == (old(latch).cow_supported()
            && !(outcome matches CloneOutcome::Unsupported)),
        final(latch).same_filesystem() == (old(latch).same_filesystem()
            && !(outcome matches CloneOutcome::DifferentFileSystems)),
        outcome matches CloneOutcome::Success ==> follow_up matches CloneFollowUp::Done,
        outcome matches CloneOutcome::DifferentFileSystems ==> {
            &&& follow_up matches CloneFollowUp::FallBack(warning)
            &&& (warning is Some <==> old(latch).same_filesystem())
            &&& (warning matches Some(w) ==> {
                &&& w.capability == Capability::SameFilesystem
                &&& w.message@ == same_filesystem_warning_text(source@, destination@)
            })
        },
        outcome matches CloneOutcome::Unsupported ==> {
            &&& follow_up matches CloneFollowUp::FallBack(warning)
            &&& (warning is Some <==> old(latch).cow_supported())
            &&& (warning matches Some(w) ==> {
                &&& w.capability == Capability::CopyOnWrite
                &&& w.message@ == cow_warning_text(source@, destination@)
            })
        },
        outcome matches CloneOutcome::Fault(fault) ==> {
            &&& follow_up matches CloneFollowUp::Propagate(translated)
            &&& translated.kind == fault.kind
            &&& translated.message@ == clone_fault_text(source@, destination@, fault.message@)
        },
        old(latch).cow_supported() && old(latch).same_filesystem() ==> {
            &&& observed_record(follow_up) == model_record(
                old(latch).cow_supported(),
                old(latch).same_filesystem(),
                outcome,
            )
            &&& final(latch).cow_supported() == model_next(
                old(latch).cow_supported(),
                old(latch).same_filesystem(),
                outcome,
            ).0
            &&& final(latch).same_filesystem() == model_next(
                old(latch).cow_supported(),
                old(latch).same_filesystem(),
                outcome,
            ).1
        },
{
    match outcome {
        CloneOutcome::Success => CloneFollowUp::Done,
        CloneOutcome::DifferentFileSystems => {
            let first = latch.downgrade_same_filesystem();
            if first {
                CloneFollowUp::FallBack(Some(same_filesystem_warning(source, destination)))
            } else {
                CloneFollowUp::FallBack(None)
            }
        },
        CloneOutcome::Unsupported => {
            let first = latch.downgrade_cow_supported();
            if first {
                CloneFollowUp::FallBack(Some(cow_warning(source, destination)))
            } else {
                CloneFollowUp::FallBack(None)
            }
        },
        CloneOutcome::Fault(fault) => {
            CloneFollowUp::Propagate(crate::fault::translate_clone_fault(fault, source, destination))
        },
    }
}

/// What one duplication call did, in the abstract model of the policy: which
/// primitives it ran, which warnings it emitted, and whether it propagated a
/// genuine fault instead of falling back.
pub struct CallRecord {
    pub attempted_clone: bool,
    pub performed_fallback_copy: bool,
    pub warned_cow: bool,
    pub warned_same_filesystem: bool,
    pub propagated_fault: bool,
}

/// Whether the policy attempts a clone in the given latch state.
pub open spec fn model_attempts_clone(cow: bool, same_fs: bool) -> bool {
    cow && same_fs
}

/// What one duplication call does in latch state `(cow, same_fs)` when the
/// clone primitive, if attempted, would report `outcome`.
pub open spec fn model_record(cow: bool, same_fs: bool, outcome: CloneOutcome) -> CallRecord {
    if model_attempts_clone(cow, same_fs) {
        match outcome {
            CloneOutcome::Success => CallRecord {
                attempted_clone: true,
                performed_fallback_copy: false,
                warned_cow: false,
                warned_same_filesystem: false,
                propagated_fault: false,
            },
            CloneOutcome::DifferentFileSystems => CallRecord {
                attempted_clone: true,
                performed_fallback_copy: true,
                warned_cow: false,
                warned_same_filesystem: same_fs,
                propagated_fault: false,
            },
            CloneOutcome::Unsupported => CallRecord {
                attempted_clone: true,
                performed_fallback_copy: true,
                warned_cow: cow,
                warned_same_filesystem: false,
                propagated_fault: false,
            },
            CloneOutcome::Fault(_) => CallRecord {
                attempted_clone: true,
                performed_fallback_copy: false,
                warned_cow: false,
                warned_same_filesystem: false,
                propagated_fault: true,
            },
        }
    } else {
        CallRecord {
            attempted_clone: false,
            performed_fallback_copy: true,
            warned_cow: false,
            warned_same_filesystem: false,
            propagated_fault: false,
        }
    }
}

/// The latch state after one duplication call, as `(cow, same_fs)`.
pub open spec fn model_next(cow: bool, same_fs: bool, outcome: CloneOutcome) -> (bool, bool) {
    if model_attempts_clone(cow, same_fs) {
        match outcome {
            CloneOutcome::DifferentFileSystems => (cow, false),
            CloneOutcome::Unsupported => (false, same_fs),
            _ => (cow, same_fs),
        }
    } else {
        (cow, same_fs)
    }
}

/// The records of a run of duplication calls, one per outcome the clone
/// primitive would report, threading the latch state through.
pub open spec fn model_run(cow: bool, same_fs: bool, outcomes: Seq<CloneOutcome>) -> Seq<CallRecord>
    decreases outcomes.len(),
{
    if outcomes.len() == 0 {
        Seq::empty()
    } else {
        let next = model_next(cow, same_fs, outcomes[0]);
        Seq::empty().push(model_record(cow, same_fs, outcomes[0]))
            + model_run(next.0, next.1, outcomes.drop_first())
    }
}

/// The record an interpreted clone attempt amounts to, read off the
/// follow-up that `resolve_clone_outcome` returned.
pub open spec fn observed_record(follow_up: CloneFollowUp) -> CallRecord {
    CallRecord {
        attempted_clone: true,
        performed_fallback_copy: follow_up matches CloneFollowUp::FallBack(_),
        warned_cow: follow_up matches CloneFollowUp::FallBack(Some(w))
            && w.capability == Capability::CopyOnWrite,
        warned_same_filesystem: follow_up matches CloneFollowUp::FallBack(Some(w))
            && w.capability == Capability::SameFilesystem,
        propagated_fault: follow_up matches CloneFollowUp::Propagate(_),
    }
}

/// When the clone primitive always succeeds, a run over any number of files
/// attempts a clone every time, performs no fallback copy, and emits no
/// warning; the latch keeps believing in both capabilities throughout.
pub proof fn lemma_clone_preferred(outcomes: Seq<CloneOutcome>)
    requires
        forall|i: int| 0 <= i < outcomes.len() ==> outcomes[i] == CloneOutcome::Success,
    ensures
        model_run(true, true, outcomes).len() == outcomes.len(),
        forall|i: int| 0 <= i < outcomes.len() ==> {
            let record = #[trigger] model_run(true, true, outcomes)[i];
            record.attempted_clone && !record.performed_fallback_copy && !record.warned_cow
                && !record.warned_same_filesystem && !record.propagated_fault
        },
    decreases outcomes.len(),
{
    if outcomes.len() > 0 {
        assert(model_next(true, true, outcomes[0]) == (true, true));
        lemma_clone_preferred(outcomes.drop_first());
        assert forall|i: int| 0 <= i < outcomes.len() implies {
            let record = #[trigger] model_run(true, true, outcomes)[i];
            record.attempted_clone && !record.performed_fallback_copy && !record.warned_cow
                && !record.warned_same_filesystem && !record.propagated_fault
        } by {
            if i > 0 {
                assert(model_run(true, true, outcomes)[i]
                    == model_run(true, true, outcomes.drop_first())[i - 1]);
            }
        }
    }
}

/// Once either capability flag is down, no later call attempts a clone or
/// emits a warning: every call goes straight to the fallback copy, and the
/// latch state never recovers.
pub proof fn lemma_downgraded_latch_never_clones(cow: bool, same_fs: bool, outcomes: Seq<CloneOutcome>)
    requires
        !cow || !same_fs,
    ensures
        model_run(cow, same_fs, outcomes).len() == outcomes.len(),
        forall|i: int| 0 <= i < outcomes.len() ==> {
            let record = #[trigger] model_run(cow, same_fs, outcomes)[i];
            !record.attempted_clone && record.performed_fallback_copy && !record.warned_cow
                && !record.warned_same_filesystem && !record.propagated_fault
        },
    decreases outcomes.len(),
{
    if outcomes.len() > 0 {
        assert(model_next(cow, same_fs, outcomes[0]) == (cow, same_fs));
        lemma_downgraded_latch_never_clones(cow, same_fs, outcomes.drop_first());
        assert forall|i: int| 0 <= i < outcomes.len() implies {
            let record = #[trigger] model_run(cow, same_fs, outcomes)[i];
            !record.attempted_clone && record.performed_fallback_copy && !record.warned_cow
                && !record.warned_same_filesystem && !record.propagated_fault
        } by {
            if i > 0 {
                assert(model_run(cow, same_fs, outcomes)[i]
                    == model_run(cow, same_fs, outcomes.drop_first())[i - 1]);
            }
        }
    }
}

/// Sticky downgrade with a single warning: when the clone primitive reports
/// "unsupported" on the first call and on every later one, only the first
/// call attempts a clone and warns; every call after the first performs a
/// full copy without a clone attempt and without any warning.
pub proof fn lemma_sticky_downgrade_single_warning(outcomes: Seq<CloneOutcome>)
    requires
        outcomes.len() > 0,
        forall|i: int| 0 <= i < outcomes.len() ==> outcomes[i] == CloneOutcome::Unsupported,
    ensures
        model_run(true, true, outcomes).len() == outcomes.len(),
        model_run(true, true, outcomes)[0].attempted_clone,
        model_run(true, true, outcomes)[0].warned_cow,
        model_run(true, true, outcomes)[0].performed_fallback_copy,
        forall|i: int| 1 <= i < outcomes.len() ==> {
            let record = #[trigger] model_run(true, true, outcomes)[i];
            !record.attempted_clone && record.performed_fallback_copy && !record.warned_cow
                && !record.warned_same_filesystem
        },
{
    assert(model_next(true, true, outcomes[0]) == (false, true));
    lemma_downgraded_latch_never_clones(false, true, outcomes.drop_first());
    assert forall|i: int| 1 <= i < outcomes.len() implies {
        let record = #[trigger] model_run(true, true, outcomes)[i];
        !record.attempted_clone && record.performed_fallback_copy && !record.warned_cow
            && !record.warned_same_filesystem
    } by {
        assert(model_run(true, true, outcomes)[i]
            == model_run(false, true, outcomes.drop_first())[i - 1]);
    }
}

/// The two capability flags are independent: an outcome other than
/// "unsupported" never moves the copy-on-write flag, and an outcome other
/// than "different filesystems" never moves the same-filesystem flag. In
/// particular each downgrade leaves the other flag exactly as it was.
pub proof fn lemma_independent_flags(cow: bool, same_fs: bool, outcome: CloneOutcome)
    ensures
        !(outcome matches CloneOutcome::Unsupported) ==> model_next(cow, same_fs, outcome).0 == cow,
        !(outcome matches CloneOutcome::DifferentFileSystems) ==> model_next(
            cow,
            same_fs,
            outcome,
        ).1 == same_fs,
        model_next(cow, same_fs, CloneOutcome::DifferentFileSystems).0 == cow,
        model_next(cow, same_fs, CloneOutcome::Unsupported).1 == same_fs,
{
}

/// A genuine I/O fault of an attempted clone passes through: no fallback
/// copy is performed, no warning is emitted, and the latch is unchanged.
pub proof fn lemma_fault_passes_through(cow: bool, same_fs: bool, fault: IoFault)
    requires
        model_attempts_clone(cow, same_fs),
    ensures
        !model_record(cow, same_fs, CloneOutcome::Fault(fault)).performed_fallback_copy,
        !model_record(cow, same_fs, CloneOutcome::Fault(fault)).warned_cow,
        !model_record(cow, same_fs, CloneOutcome::Fault(fault)).warned_same_filesystem,
        model_record(cow, same_fs, CloneOutcome::Fault(fault)).propagated_fault,
        model_next(cow, same_fs, CloneOutcome::Fault(fault)) == (cow, same_fs),
{
}

/// Interprets what the sparse-aware full copy reported: success stands, and
/// a failure is wrapped with both paths, its kind kept.
pub fn resolve_fallback_result(
    result: Result<(), IoFault>,
    source: &str,
    destination: &str,
) -> (translated: Result<(), IoFault>)
    ensures
        result is Ok <==> translated is Ok,
        result matches Err(fault) ==> {
            &&& translated matches Err(wrapped)
            &&& wrapped.kind == fault.kind
            &&& wrapped.message@ == crate::fault::copy_fault_text(source@, destination@, fault.message@)
        },
{
    match result {
        Ok(()) => Ok(()),
        Err(fault) => Err(crate::fault::translate_copy_fault(fault, source, destination)),
    }
}

} // verus!
