//! Planning for hardlink sharing: a source file may only be hardlinked into
//! a shared checkpoint tree once it is immutable, and the plan establishes
//! that immutability itself when it is not yet in place.

use vstd::prelude::*;
use crate::text::{has_substring, str_has_substring};

verus! {

/// What the sharing logic reads of a source file's metadata: its read-only
/// permission bit and, where the platform exposes it, its hardlink count.
/// The permission bit only ever moves from writable to read-only; no
/// operation of this crate moves it back.
pub struct SourceMetadata {
    readonly: bool,
    link_count: u64,
}

impl SourceMetadata {
    /// Whether the file's permission bit says read-only.
    pub closed spec fn readonly(self) -> bool {
        self.readonly
    }

    /// The file's hardlink count.
    pub closed spec fn link_count(self) -> u64 {
        self.link_count
    }

    /// Metadata as read from disk.
    pub fn new(readonly: bool, link_count: u64) -> (metadata: Self)
        ensures
            metadata.readonly() == readonly,
            metadata.link_count() == link_count,
    {
        SourceMetadata { readonly, link_count }
    }

    /// Records that the file's permission bit was flipped to read-only. The
    /// transition is one-way: nothing here turns a read-only file writable.
    pub fn mark_readonly(&mut self)
        ensures
            final(self).readonly(),
            final(self).link_count() == old(self).link_count(),
    {
        self.readonly = true;
    }
}

/// The steps a sharing operation must run, in order: first make the source
/// read-only if it is not already, then clear the destination if something
/// sits there, and finally hardlink the destination to the source.
pub struct SharePlan {
    pub set_source_readonly: bool,
    pub remove_destination: bool,
}

/// The plan for sharing a source with the given metadata into a destination
/// that does or does not already exist.
pub open spec fn share_plan(source_readonly: bool, destination_exists: bool) -> SharePlan {
    SharePlan {
        set_source_readonly: !source_readonly,
        remove_destination: destination_exists,
    }
}

/// Plans one sharing operation. The source's permissions are touched exactly
/// when it is still writable — an already read-only source is left alone —
/// and the destination is removed exactly when it exists, since the hardlink
/// primitive requires a non-existent target.
pub fn plan_share(source: &SourceMetadata, destination_exists: bool) -> (plan: SharePlan)
    ensures
        plan == share_plan(source.readonly(), destination_exists),
        plan.set_source_readonly == !source.readonly(),
        plan.remove_destination == destination_exists,
{
    SharePlan {
        set_source_readonly: !source.readonly,
        remove_destination: destination_exists,
    }
}

/// The source's metadata after the plan ran: read-only either way, with its
/// link count untouched by the permission change.
pub closed spec fn source_after_plan(metadata: SourceMetadata, plan: SharePlan) -> SourceMetadata {
    if plan.set_source_readonly {
        SourceMetadata { readonly: true, ..metadata }
    } else {
        metadata
    }
}

/// What running a plan does to the source's metadata: the permission bit is
/// set exactly when the plan says so, and the link count is untouched.
pub proof fn lemma_source_after_plan(metadata: SourceMetadata, plan: SharePlan)
    ensures
        source_after_plan(metadata, plan).readonly() == (metadata.readonly()
            || plan.set_source_readonly),
        source_after_plan(metadata, plan).link_count() == metadata.link_count(),
{
}

/// Whatever state the source starts in, running its share plan leaves it
/// read-only before the hardlink is created: no path of this crate creates
/// a shared alias to a writable file.
pub proof fn lemma_share_leaves_source_readonly(metadata: SourceMetadata, destination_exists: bool)
    ensures
        source_after_plan(
            metadata,
            share_plan(metadata.readonly(), destination_exists),
        ).readonly(),
{
}

/// Sharing an already read-only source is idempotent on the source: the plan
/// touches no permissions and the source's metadata is left exactly as it
/// was.
pub proof fn lemma_idempotent_immutability(metadata: SourceMetadata, destination_exists: bool)
    requires
        metadata.readonly(),
    ensures
        !share_plan(metadata.readonly(), destination_exists).set_source_readonly,
        source_after_plan(
            metadata,
            share_plan(metadata.readonly(), destination_exists),
        ) == metadata,
{
}

/// Whether a still-writable source looks freshly materialized outside the
/// shared checkpoint tree: its path names the synchronization cache and not
/// a checkpoint, and it has exactly one hardlink, so it is not already
/// shared. A writable source that fails this check signals a caller bug.
pub open spec fn fresh_download_ok(path: Seq<char>, link_count: u64) -> bool {
    &&& has_substring(path, "state_sync_cache"@)
    &&& !has_substring(path, "checkpoint"@)
    &&& link_count == 1
}

/// Checks the internal-consistency expectation on a writable source before
/// its permissions are flipped: the caller should be establishing
/// immutability on a freshly downloaded file, not on one already inside a
/// checkpoint or already shared.
pub fn check_fresh_download(source_path: &str, metadata: &SourceMetadata) -> (ok: bool)
    ensures
        ok == fresh_download_ok(source_path@, metadata.link_count()),
{
    let in_cache = str_has_substring(source_path, "state_sync_cache");
    let in_checkpoint = str_has_substring(source_path, "checkpoint");
    in_cache && !in_checkpoint && metadata.link_count == 1
}

} // verus!
