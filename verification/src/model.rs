//! Core data model: scan categories, roots, entries, records and summaries.

use vstd::prelude::*;

verus! {

/// Files strictly larger than this many bytes count as "large files".
pub const LARGE_FILE_THRESHOLD: u64 = 104857600;

/// Cap on the length of a ranked large-file result list.
pub const LARGE_FILE_RESULT_CAP: usize = 200;

/// A scan category selects the roots, caps and predicate of one operation.
#[derive(Clone, Copy, PartialEq, Eq, Structural, Debug)]
pub enum Category {
    Cache,
    Trash,
    Logs,
    LargeFiles,
}

/// One directory tree to scan: its path, how deep the walk may descend
/// below it, and (optionally) how many entries the walk may visit.
#[derive(Debug)]
pub struct ScanRoot {
    pub path: String,
    pub max_depth: usize,
    pub entry_cap: Option<usize>,
}

impl ScanRoot {
    /// The visited-entry budget of this root; an absent cap means the walk
    /// is bounded only by the machine.
    pub open spec fn spec_effective_cap(self) -> usize {
        match self.entry_cap {
            Some(c) => c,
            None => usize::MAX,
        }
    }

    pub fn effective_cap(&self) -> (r: usize)
        ensures
            r == self.spec_effective_cap(),
    {
        match self.entry_cap {
            Some(c) => c,
            None => usize::MAX,
        }
    }
}

/// One regular file met during a walk, as plain values.
#[derive(Debug)]
pub struct FileEntry {
    /// Absolute path of the file.
    pub path: String,
    /// Final path component.
    pub name: String,
    /// Size in bytes.
    pub size: u64,
    /// Last-modified time, in whole seconds since the epoch.
    pub modified: u64,
    /// How many levels below the scan root the file was found.
    pub depth: usize,
}

/// A category record handed across the boundary: the timestamp is already
/// rendered as a local-time string, and `name` is present only for the
/// categories that report one.
#[derive(Debug)]
pub struct FileRecord {
    pub name: Option<String>,
    pub path: String,
    pub size: u64,
    pub modified: String,
}

impl Clone for ScanRoot {
    fn clone(&self) -> (r: Self)
        ensures
            r == *self,
    {
        ScanRoot { path: self.path.clone(), max_depth: self.max_depth, entry_cap: self.entry_cap }
    }
}

impl Clone for FileEntry {
    fn clone(&self) -> (r: Self)
        ensures
            r == *self,
    {
        FileEntry {
            path: self.path.clone(),
            name: self.name.clone(),
            size: self.size,
            modified: self.modified,
            depth: self.depth,
        }
    }
}

impl Clone for FileRecord {
    fn clone(&self) -> (r: Self)
        ensures
            r == *self,
    {
        FileRecord {
            name: match &self.name {
                Some(n) => Some(n.clone()),
                None => None,
            },
            path: self.path.clone(),
            size: self.size,
            modified: self.modified.clone(),
        }
    }
}

/// A (total size, file count) pair; the value of an Aggregate-mode scan.
#[derive(Clone, Copy, PartialEq, Eq, Structural, Debug)]
pub struct AggregateSummary {
    pub total_size: u64,
    pub file_count: u64,
}

} // verus!
