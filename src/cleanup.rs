//! Junk files and the tally of a cleanup.

use vstd::prelude::*;

verus! {

/// Where a junk file was found.
#[derive(Clone, Copy, Debug, PartialEq, Eq, Structural)]
pub enum JunkCategory {
    Temporary,
    Cache,
    Log,
    BrowserData,
    Thumbnail,
    Trash,
    OldFiles,
    Duplicate,
    BrokenShortcut,
    MemoryDump,
}

/// A file that can be removed to free space.
#[derive(Debug)]
pub struct JunkFile {
    pub path: String,
    pub size: u64,
    pub category: JunkCategory,
    pub description: String,
}

/// What a cleanup removed and what it could not.
#[derive(Debug)]
pub struct CleanupResult {
    pub files_removed: usize,
    /// Bytes freed; the count stops at `u64::MAX`.
    pub space_freed: u64,
    pub errors: Vec<String>,
}

impl CleanupResult {
    /// Nothing removed yet.
    pub fn new() -> (r: CleanupResult)
        ensures
            r.files_removed == 0,
            r.space_freed == 0,
            r.errors@.len() == 0,
    {
        CleanupResult { files_removed: 0, space_freed: 0, errors: Vec::new() }
    }

    /// Counts one removed file of `size` bytes.
    pub fn record_removed(&mut self, size: u64)
        ensures
            final(self).files_removed == if old(self).files_removed == usize::MAX {
                usize::MAX as int
            } else {
                old(self).files_removed + 1
            },
            final(self).space_freed == if old(self).space_freed + size > u64::MAX {
                u64::MAX as int
            } else {
                old(self).space_freed + size
            },
            final(self).errors == old(self).errors,
    {
        self.files_removed = self.files_removed.saturating_add(1);
        self.space_freed = self.space_freed.saturating_add(size);
    }

    /// Keeps the message of a file that could not be removed.
    pub fn record_error(&mut self, message: String)
        ensures
            final(self).files_removed == old(self).files_removed,
            final(self).space_freed == old(self).space_freed,
            final(self).errors@ == old(self).errors@.push(message),
    {
        self.errors.push(message);
    }
}

} // verus!
