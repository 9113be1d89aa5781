//! Scenario tests for the walk/reduce/rank pipeline over real
//! directory trees.

use std::io::Write;

use scanclean::cleaner::scan_large_root;
use scanclean::model::{AggregateSummary, Category, FileEntry, ScanRoot, LARGE_FILE_THRESHOLD};
use scanclean::rank::{rank, sort_desc};
use scanclean::reduce::{aggregate_parallel, collect_parallel};
use scanclean::walker::walk_root;

fn temp_file_with_size(dir: &std::path::Path, size: u64) -> tempfile::NamedTempFile {
    let f = tempfile::NamedTempFile::new_in(dir).expect("temp file");
    f.as_file().set_len(size).expect("set_len");
    f
}

fn temp_file_with_bytes(dir: &std::path::Path, bytes: &[u8]) -> tempfile::NamedTempFile {
    let mut f = tempfile::NamedTempFile::new_in(dir).expect("temp file");
    f.write_all(bytes).expect("write");
    f.flush().expect("flush");
    f
}

fn root_of(dir: &std::path::Path, max_depth: usize, cap: Option<usize>) -> ScanRoot {
    ScanRoot { path: dir.to_str().expect("utf8 path").to_string(), max_depth, entry_cap: cap }
}

#[test]
fn walk_respects_entry_cap() {
    let dir = tempfile::tempdir().expect("tempdir");
    let _keep: Vec<_> = (0..6).map(|_| temp_file_with_bytes(dir.path(), b"x")).collect();
    let entries = walk_root(&root_of(dir.path(), 2, Some(3)));
    assert!(entries.len() <= 3);
    let unbounded = walk_root(&root_of(dir.path(), 2, None));
    assert_eq!(unbounded.len(), 6);
}

#[test]
fn walk_respects_depth() {
    let dir = tempfile::tempdir().expect("tempdir");
    let _top = temp_file_with_bytes(dir.path(), b"top");
    let sub = tempfile::tempdir_in(dir.path()).expect("subdir");
    let _mid = temp_file_with_bytes(sub.path(), b"mid");
    let subsub = tempfile::tempdir_in(sub.path()).expect("subsubdir");
    let _deep = temp_file_with_bytes(subsub.path(), b"deep");

    let shallow = walk_root(&root_of(dir.path(), 1, None));
    assert_eq!(shallow.len(), 1);
    for e in &shallow {
        assert!(e.depth <= 1);
    }

    let deeper = walk_root(&root_of(dir.path(), 3, None));
    assert_eq!(deeper.len(), 3);
    for e in &deeper {
        assert!(e.depth <= 3);
    }
}

#[test]
fn walk_missing_root_is_empty_not_fatal() {
    let dir = tempfile::tempdir().expect("tempdir");
    let missing = dir.path().join("no-such-subdir");
    let root = ScanRoot {
        path: missing.to_str().expect("utf8").to_string(),
        max_depth: 3,
        entry_cap: None,
    };
    let entries = walk_root(&root);
    assert!(entries.is_empty());
}

#[test]
fn trash_summary_scenario() {
    // A trash directory with files of 10, 20 and 30 bytes sums to
    // (60, 3).
    let dir = tempfile::tempdir().expect("tempdir");
    let _a = temp_file_with_size(dir.path(), 10);
    let _b = temp_file_with_size(dir.path(), 20);
    let _c = temp_file_with_size(dir.path(), 30);
    let entries = walk_root(&root_of(dir.path(), 1, None));
    let summary = aggregate_parallel(&entries, Category::Trash);
    assert_eq!(summary, AggregateSummary { total_size: 60, file_count: 3 });
}

#[test]
fn large_file_multi_root_scenario() {
    // Five scan roots, only two exist; one holds two files above the
    // threshold and one below: the result is exactly the two
    // qualifying files, sorted descending, and the summary counts 2.
    let base = tempfile::tempdir().expect("tempdir");
    let dir_a = tempfile::tempdir_in(base.path()).expect("dir a");
    let dir_b = tempfile::tempdir_in(base.path()).expect("dir b");
    let big1 = temp_file_with_size(dir_a.path(), LARGE_FILE_THRESHOLD + 2);
    let big2 = temp_file_with_size(dir_a.path(), LARGE_FILE_THRESHOLD + 1);
    let _small = temp_file_with_size(dir_a.path(), 100);

    let mut roots = vec![
        root_of(dir_a.path(), 3, None),
        root_of(dir_b.path(), 3, None),
    ];
    for name in ["gone1", "gone2", "gone3"] {
        let missing = base.path().join(name);
        roots.push(ScanRoot {
            path: missing.to_str().expect("utf8").to_string(),
            max_depth: 3,
            entry_cap: None,
        });
    }

    let mut merged: Vec<FileEntry> = Vec::new();
    for root in &roots {
        merged.extend(scan_large_root(root));
    }
    assert_eq!(merged.len(), 2);

    let ranked = rank(&merged, 200);
    assert_eq!(ranked.len(), 2);
    assert_eq!(ranked[0].size, LARGE_FILE_THRESHOLD + 2);
    assert_eq!(ranked[1].size, LARGE_FILE_THRESHOLD + 1);
    assert_eq!(ranked[0].path, big1.path().to_str().expect("utf8"));
    assert_eq!(ranked[1].path, big2.path().to_str().expect("utf8"));

    let summary = aggregate_parallel(&merged, Category::LargeFiles);
    assert_eq!(summary.file_count, 2);
    assert_eq!(summary.total_size, 2 * LARGE_FILE_THRESHOLD + 3);
}

#[test]
fn threshold_boundary_scenario() {
    // A file of exactly the threshold size is excluded; one byte
    // larger is included.
    let dir = tempfile::tempdir().expect("tempdir");
    let _at = temp_file_with_size(dir.path(), LARGE_FILE_THRESHOLD);
    let over = temp_file_with_size(dir.path(), LARGE_FILE_THRESHOLD + 1);
    let kept = scan_large_root(&root_of(dir.path(), 3, None));
    assert_eq!(kept.len(), 1);
    assert_eq!(kept[0].size, LARGE_FILE_THRESHOLD + 1);
    assert_eq!(kept[0].path, over.path().to_str().expect("utf8"));
}

#[test]
fn collect_keeps_everything_for_plain_categories() {
    let dir = tempfile::tempdir().expect("tempdir");
    let _a = temp_file_with_size(dir.path(), 5);
    let _b = temp_file_with_size(dir.path(), 7);
    let entries = walk_root(&root_of(dir.path(), 1, None));
    let kept = collect_parallel(&entries, Category::Cache);
    assert_eq!(kept.len(), entries.len());
}

#[test]
fn sort_desc_orders_by_size() {
    let mk = |path: &str, size: u64| FileEntry {
        path: path.to_string(),
        name: path.to_string(),
        size,
        modified: 0,
        depth: 1,
    };
    let records = vec![mk("/a", 3), mk("/b", 9), mk("/c", 1), mk("/d", 7)];
    let sorted = sort_desc(&records);
    let sizes: Vec<u64> = sorted.iter().map(|e| e.size).collect();
    assert_eq!(sizes, vec![9, 7, 3, 1]);
}

#[test]
fn rank_truncates_after_global_sort() {
    let mk = |path: &str, size: u64| FileEntry {
        path: path.to_string(),
        name: path.to_string(),
        size,
        modified: 0,
        depth: 1,
    };
    // The largest sizes appear late in encounter order: a pre-sort
    // truncation would lose them.
    let records = vec![mk("/a", 1), mk("/b", 2), mk("/c", 100), mk("/d", 50)];
    let top2 = rank(&records, 2);
    let paths: Vec<&str> = top2.iter().map(|e| e.path.as_str()).collect();
    assert_eq!(paths, vec!["/c", "/d"]);
}

#[test]
fn sort_is_stable_on_ties() {
    let mk = |path: &str, size: u64| FileEntry {
        path: path.to_string(),
        name: path.to_string(),
        size,
        modified: 0,
        depth: 1,
    };
    // Equal-size entries keep their encounter order through the sort
    // and through ranking.
    let records = vec![mk("/x", 5), mk("/a", 7), mk("/y", 5), mk("/b", 7), mk("/z", 5)];
    let sorted = sort_desc(&records);
    let paths: Vec<&str> = sorted.iter().map(|e| e.path.as_str()).collect();
    assert_eq!(paths, vec!["/a", "/b", "/x", "/y", "/z"]);
    let top4 = rank(&records, 4);
    let paths: Vec<&str> = top4.iter().map(|e| e.path.as_str()).collect();
    assert_eq!(paths, vec!["/a", "/b", "/x", "/y"]);
}

#[test]
fn ranking_deterministic_across_merge_orders() {
    let mk = |path: &str, size: u64| FileEntry {
        path: path.to_string(),
        name: path.to_string(),
        size,
        modified: 0,
        depth: 1,
    };
    let one = vec![mk("/a", 4), mk("/b", 8), mk("/c", 2), mk("/d", 6)];
    let other = vec![mk("/d", 6), mk("/c", 2), mk("/b", 8), mk("/a", 4)];
    let r1 = rank(&one, 3);
    let r2 = rank(&other, 3);
    let p1: Vec<&str> = r1.iter().map(|e| e.path.as_str()).collect();
    let p2: Vec<&str> = r2.iter().map(|e| e.path.as_str()).collect();
    assert_eq!(p1, p2);
    assert_eq!(p1, vec!["/b", "/d", "/a"]);
}
