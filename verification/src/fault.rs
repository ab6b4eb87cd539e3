//! The crate's model of a low-level I/O failure, and the translation that
//! wraps such a failure with source/destination context while preserving its
//! classification.

use vstd::prelude::*;
use vstd::string::StringExecFns;

verus! {

/// Classification of a low-level I/O failure. Translation never changes the
/// kind: a caller that branches on it sees the original classification.
#[derive(Clone, Copy, PartialEq, Eq, Structural, Debug)]
pub enum FaultKind {
    NotFound,
    PermissionDenied,
    AlreadyExists,
    InvalidInput,
    StorageFull,
    Interrupted,
    Unsupported,
    Other,
}

/// A low-level I/O failure: its classification and its message.
pub struct IoFault {
    pub kind: FaultKind,
    pub message: String,
}

/// The message of a fallback-copy failure wrapped with the two paths involved.
pub open spec fn copy_fault_text(source: Seq<char>, destination: Seq<char>, detail: Seq<char>) -> Seq<char> {
    "failed to copy "@ + source + " -> "@ + destination + ": "@ + detail
}

/// The message of a clone failure wrapped with the two paths involved.
pub open spec fn clone_fault_text(source: Seq<char>, destination: Seq<char>, detail: Seq<char>) -> Seq<char> {
    "failed to clone "@ + source + " -> "@ + destination + ": "@ + detail
}

/// Wraps a failure of the full-copy step with both paths. The kind is kept;
/// only the message gains context.
pub fn translate_copy_fault(fault: IoFault, source: &str, destination: &str) -> (translated: IoFault)
    ensures
        translated.kind == fault.kind,
        translated.message@ == copy_fault_text(source@, destination@, fault.message@),
{
    let mut message = String::new();
    message.append("failed to copy ");
    message.append(source);
    message.append(" -> ");
    message.append(destination);
    message.append(": ");
    message.append(fault.message.as_str());
    IoFault { kind: fault.kind, message }
}

/// Wraps a genuine I/O failure of the clone step with both paths. The kind is
/// kept; only the message gains context.
pub fn translate_clone_fault(fault: IoFault, source: &str, destination: &str) -> (translated: IoFault)
    ensures
        translated.kind == fault.kind,
        translated.message@ == clone_fault_text(source@, destination@, fault.message@),
{
    let mut message = String::new();
    message.append("failed to clone ");
    message.append(source);
    message.append(" -> ");
    message.append(destination);
    message.append(": ");
    message.append(fault.message.as_str());
    IoFault { kind: fault.kind, message }
}

} // verus!
