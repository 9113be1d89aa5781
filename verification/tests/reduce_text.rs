//! Unit tests for the aggregation monoid, the text helpers, the parser
//! and the base64 encoder, on concrete values.

use scanclean::model::{AggregateSummary, Category, FileEntry, LARGE_FILE_THRESHOLD};
use scanclean::preview::base64_encode;
use scanclean::reduce::{aggregate_parallel, aggregate_vec};
use scanclean::summary::entry_kept;
use scanclean::text::{decimal_string, join_with, trim_ascii};

fn entry(size: u64) -> FileEntry {
    FileEntry {
        path: format!("/f{}", size),
        name: format!("f{}", size),
        size,
        modified: 0,
        depth: 1,
    }
}

#[test]
fn aggregate_independent_of_partitioning() {
    // The parallel reduction must match a single sequential pass for
    // any worker partitioning; compare both entry points on several
    // set sizes so different chunkings are exercised.
    for n in [0u64, 1, 2, 3, 7, 64, 257] {
        let entries: Vec<FileEntry> = (1..=n).map(entry).collect();
        let par = aggregate_parallel(&entries, Category::Cache);
        let seq = aggregate_vec(&entries, Category::Cache);
        assert_eq!(par, seq);
        assert_eq!(par.file_count, n);
        assert_eq!(par.total_size, n * (n + 1) / 2);
    }
}

#[test]
fn aggregate_filters_by_category() {
    let entries = vec![
        entry(LARGE_FILE_THRESHOLD),
        entry(LARGE_FILE_THRESHOLD + 5),
        entry(10),
    ];
    let summary = aggregate_parallel(&entries, Category::LargeFiles);
    assert_eq!(
        summary,
        AggregateSummary { total_size: LARGE_FILE_THRESHOLD + 5, file_count: 1 }
    );
}

#[test]
fn threshold_is_strictly_greater() {
    assert!(!entry_kept(Category::LargeFiles, LARGE_FILE_THRESHOLD));
    assert!(entry_kept(Category::LargeFiles, LARGE_FILE_THRESHOLD + 1));
    assert!(entry_kept(Category::Cache, 0));
    assert!(entry_kept(Category::Trash, 0));
    assert!(entry_kept(Category::Logs, 0));
}

#[test]
fn decimal_renders_exactly() {
    assert_eq!(decimal_string(0), "0");
    assert_eq!(decimal_string(7), "7");
    assert_eq!(decimal_string(1234), "1234");
    assert_eq!(decimal_string(1000000), "1000000");
    assert_eq!(decimal_string(u64::MAX), "18446744073709551615");
}

#[test]
fn join_with_separator() {
    let parts = vec!["a".to_string(), "b".to_string(), "c".to_string()];
    assert_eq!(join_with(&parts, "; "), "a; b; c");
    assert_eq!(join_with(&parts, " "), "a b c");
    let one = vec!["only".to_string()];
    assert_eq!(join_with(&one, "; "), "only");
    let none: Vec<String> = Vec::new();
    assert_eq!(join_with(&none, "; "), "");
}

#[test]
fn trim_ascii_strips_both_ends() {
    let bytes: Vec<u8> = b" \t hello world\r\n".to_vec();
    assert_eq!(trim_ascii(&bytes), b"hello world".to_vec());
    let clean: Vec<u8> = b"x".to_vec();
    assert_eq!(trim_ascii(&clean), b"x".to_vec());
    let all_space: Vec<u8> = b" \n\t".to_vec();
    assert_eq!(trim_ascii(&all_space), Vec::<u8>::new());
}

#[test]
fn base64_known_values() {
    assert_eq!(base64_encode(&b"Man".to_vec()), b"TWFu".to_vec());
    assert_eq!(base64_encode(&b"Ma".to_vec()), b"TWE=".to_vec());
    assert_eq!(base64_encode(&b"M".to_vec()), b"TQ==".to_vec());
    assert_eq!(base64_encode(&Vec::new()), Vec::<u8>::new());
    assert_eq!(
        base64_encode(&b"hello world".to_vec()),
        b"aGVsbG8gd29ybGQ=".to_vec()
    );
    assert_eq!(base64_encode(&vec![0xFF, 0xFF, 0xFE]), b"///+".to_vec());
}
