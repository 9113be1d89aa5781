//! The path catalog: which roots each scan category searches, how deep,
//! and under which visited-entry cap.  Pure configuration, computed from
//! the host-resolved base directories.

use vstd::prelude::*;

use vstd::string::StringExecFns;

use crate::model::ScanRoot;
use crate::text::concat2;

verus! {

/// Depth below the cache directory a cache scan may descend.
pub const CACHE_SCAN_DEPTH: usize = 4;

/// Entries a cache file listing may visit.
pub const CACHE_LIST_CAP: usize = 1000;

/// Entries a cache summary may visit.
pub const CACHE_SUMMARY_CAP: usize = 2000;

/// Depth below /var/log a log listing may descend.
pub const LOG_LIST_DEPTH: usize = 3;

/// Depth below /var/log a log summary may descend.
pub const LOG_SUMMARY_DEPTH: usize = 2;

/// Entries a log scan may visit.
pub const LOG_SCAN_CAP: usize = 500;

/// Depth below each user directory a large-file scan may descend.
pub const LARGE_SCAN_DEPTH: usize = 3;

/// The trash directory, relative to the home directory.
pub open spec fn trash_suffix() -> Seq<char> {
    "/.local/share/Trash/files"@
}

/// The root of a cache scan.
pub fn cache_root(cache_dir: String, cap: usize) -> (r: ScanRoot)
    ensures
        r.path == cache_dir,
        r.max_depth == CACHE_SCAN_DEPTH,
        r.entry_cap == Some(cap),
{
    ScanRoot { path: cache_dir, max_depth: CACHE_SCAN_DEPTH, entry_cap: Some(cap) }
}

/// The root of a trash scan: one level of the user's trash file
/// directory, unbounded in count.
pub fn trash_root(home: &str) -> (r: ScanRoot)
    ensures
        r.path@ == home@ + trash_suffix(),
        r.max_depth == 1,
        r.entry_cap is None,
{
    ScanRoot {
        path: concat2(home, "/.local/share/Trash/files"),
        max_depth: 1,
        entry_cap: None,
    }
}

/// The root of a system log scan.
pub fn log_root(depth: usize) -> (r: ScanRoot)
    ensures
        r.path@ == "/var/log"@,
        r.max_depth == depth,
        r.entry_cap == Some(LOG_SCAN_CAP),
{
    ScanRoot {
        path: String::from_str("/var/log"),
        max_depth: depth,
        entry_cap: Some(LOG_SCAN_CAP),
    }
}

/// The five user directories a large-file scan searches.
pub open spec fn large_file_suffixes() -> Seq<Seq<char>> {
    seq![
        "/Downloads"@,
        "/Documents"@,
        "/Videos"@,
        "/Pictures"@,
        "/Desktop"@,
    ]
}

/// The roots of a large-file scan: the five user directories, each
/// walked to the configured depth, unbounded in count.
pub fn large_file_roots(home: &str) -> (r: Vec<ScanRoot>)
    ensures
        r@.len() == 5,
        forall|i: int|
            0 <= i < 5 ==> (#[trigger] r@[i]).path@ == home@ + large_file_suffixes()[i]
                && r@[i].max_depth == LARGE_SCAN_DEPTH && r@[i].entry_cap is None,
{
    let mut r: Vec<ScanRoot> = Vec::new();
    r.push(ScanRoot {
        path: concat2(home, "/Downloads"),
        max_depth: LARGE_SCAN_DEPTH,
        entry_cap: None,
    });
    r.push(ScanRoot {
        path: concat2(home, "/Documents"),
        max_depth: LARGE_SCAN_DEPTH,
        entry_cap: None,
    });
    r.push(ScanRoot {
        path: concat2(home, "/Videos"),
        max_depth: LARGE_SCAN_DEPTH,
        entry_cap: None,
    });
    r.push(ScanRoot {
        path: concat2(home, "/Pictures"),
        max_depth: LARGE_SCAN_DEPTH,
        entry_cap: None,
    });
    r.push(ScanRoot {
        path: concat2(home, "/Desktop"),
        max_depth: LARGE_SCAN_DEPTH,
        entry_cap: None,
    });
    r
}

} // verus!
