//! Adaptive file-duplication policy for a checkpoint/state-synchronization
//! subsystem.
//!
//! The crate decides how a file should be duplicated — by a copy-on-write
//! clone, by a sparse-aware full copy, or by a hardlink to an immutable
//! source — and remembers, in a monotonically downgrading capability latch,
//! which strategies the filesystem has already refused. The filesystem
//! primitives themselves (clone, sparse copy, hardlink, permission changes)
//! are collaborators supplied by the caller; this crate sequences them and
//! falls back between them.

pub mod duplication;
pub mod fault;
pub mod latch;
pub mod sharing;
pub mod text;
