//! A process-wide, monotonically downgrading belief about two independent
//! filesystem capabilities: whether copy-on-write cloning is supported, and
//! whether source and destination are believed to live on one filesystem.

use vstd::prelude::*;

verus! {

/// Two sticky boolean capability flags. Each starts optimistic (`true`) and
/// can be downgraded to `false` at most once; no operation ever sets a flag
/// back to `true`.
pub struct CapabilityLatch {
    cow_supported: bool,
    same_filesystem: bool,
}

impl CapabilityLatch {
    /// Current belief that the filesystem supports copy-on-write cloning.
    pub closed spec fn cow_supported(self) -> bool {
        self.cow_supported
    }

    /// Current belief that source and destination share one filesystem.
    pub closed spec fn same_filesystem(self) -> bool {
        self.same_filesystem
    }

    /// A fresh latch believes in both capabilities.
    pub fn new() -> (latch: Self)
        ensures
            latch.cow_supported(),
            latch.same_filesystem(),
    {
        CapabilityLatch { cow_supported: true, same_filesystem: true }
    }

    /// Reads the current belief about both capabilities.
    pub fn read(&self) -> (flags: (bool, bool))
        ensures
            flags.0 == self.cow_supported(),
            flags.1 == self.same_filesystem(),
    {
        (self.cow_supported, self.same_filesystem)
    }

    /// Records that the filesystem does not support copy-on-write cloning.
    /// Returns whether this call performed the downgrade: `true` exactly on
    /// the first call, `false` on every later one, which is the sole signal
    /// used to emit the one-time warning. The other flag is untouched.
    pub fn downgrade_cow_supported(&mut self) -> (first: bool)
        ensures
            !final(self).cow_supported(),
            final(self).same_filesystem() == old(self).same_filesystem(),
            first == old(self).cow_supported(),
    {
        let first = self.cow_supported;
        self.cow_supported = false;
        first
    }

    /// Records that source and destination span different filesystems.
    /// Returns whether this call performed the downgrade, as
    /// `downgrade_cow_supported` does. The other flag is untouched.
    pub fn downgrade_same_filesystem(&mut self) -> (first: bool)
        ensures
            !final(self).same_filesystem(),
            final(self).cow_supported() == old(self).cow_supported(),
            first == old(self).same_filesystem(),
    {
        let first = self.same_filesystem;
        self.same_filesystem = false;
        first
    }
}

} // verus!
