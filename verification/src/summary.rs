//! The aggregation monoid: saturating (total size, file count) pairs,
//! combined pointwise.  Because the combination is associative and
//! commutative with identity (0, 0), partial summaries computed over an
//! arbitrary partition of the entries merge to the same value as a single
//! sequential pass; `lemma_aggregate_partition` states exactly that.

use vstd::prelude::*;

use crate::model::{AggregateSummary, Category, FileEntry, LARGE_FILE_THRESHOLD};

verus! {

/// Addition on byte and file counts that pins at `u64::MAX` instead of
/// wrapping.
pub open spec fn spec_sat_add(a: u64, b: u64) -> u64 {
    if a + b > u64::MAX {
        u64::MAX
    } else {
        (a + b) as u64
    }
}

pub fn sat_add(a: u64, b: u64) -> (r: u64)
    ensures
        r == spec_sat_add(a, b),
{
    if u64::MAX - a < b {
        u64::MAX
    } else {
        a + b
    }
}

/// The monoid identity: nothing scanned yet.
pub open spec fn empty_summary() -> AggregateSummary {
    AggregateSummary { total_size: 0, file_count: 0 }
}

/// Pointwise saturating addition of two partial summaries.
pub open spec fn spec_combine(a: AggregateSummary, b: AggregateSummary) -> AggregateSummary {
    AggregateSummary {
        total_size: spec_sat_add(a.total_size, b.total_size),
        file_count: spec_sat_add(a.file_count, b.file_count),
    }
}

/// Whether an entry of `size` bytes passes `cat`'s predicate: large-file
/// scans keep strictly-larger-than-threshold files, all other categories
/// keep everything.
pub open spec fn keeps(cat: Category, size: u64) -> bool {
    match cat {
        Category::LargeFiles => size > LARGE_FILE_THRESHOLD,
        _ => true,
    }
}

pub fn entry_kept(cat: Category, size: u64) -> (r: bool)
    ensures
        r == keeps(cat, size),
{
    match cat {
        Category::LargeFiles => size > LARGE_FILE_THRESHOLD,
        _ => true,
    }
}

/// The contribution of a single entry to a summary.
pub open spec fn entry_summary(e: FileEntry, cat: Category) -> AggregateSummary {
    if keeps(cat, e.size) {
        AggregateSummary { total_size: e.size, file_count: 1 }
    } else {
        empty_summary()
    }
}

/// The summary of a whole entry sequence: exactly the sizes and count of
/// the entries the category keeps.
pub open spec fn summary_spec(es: Seq<FileEntry>, cat: Category) -> AggregateSummary
    decreases es.len(),
{
    if es.len() == 0 {
        empty_summary()
    } else {
        spec_combine(entry_summary(es.first(), cat), summary_spec(es.drop_first(), cat))
    }
}

impl AggregateSummary {
    pub fn identity() -> (r: AggregateSummary)
        ensures
            r == empty_summary(),
    {
        AggregateSummary { total_size: 0, file_count: 0 }
    }

    pub fn combine(self, other: AggregateSummary) -> (r: AggregateSummary)
        ensures
            r == spec_combine(self, other),
    {
        AggregateSummary {
            total_size: sat_add(self.total_size, other.total_size),
            file_count: sat_add(self.file_count, other.file_count),
        }
    }
}

pub proof fn lemma_combine_identity(a: AggregateSummary)
    ensures
        spec_combine(a, empty_summary()) == a,
        spec_combine(empty_summary(), a) == a,
{
}

pub proof fn lemma_combine_commutes(a: AggregateSummary, b: AggregateSummary)
    ensures
        spec_combine(a, b) == spec_combine(b, a),
{
}

pub proof fn lemma_combine_assoc(a: AggregateSummary, b: AggregateSummary, c: AggregateSummary)
    ensures
        spec_combine(spec_combine(a, b), c) == spec_combine(a, spec_combine(b, c)),
{
}

/// Splitting an entry sequence anywhere splits its summary.
pub proof fn lemma_summary_concat(a: Seq<FileEntry>, b: Seq<FileEntry>, cat: Category)
    ensures
        summary_spec(a + b, cat) == spec_combine(summary_spec(a, cat), summary_spec(b, cat)),
    decreases a.len(),
{
    if a.len() == 0 {
        assert(a + b =~= b);
        lemma_combine_identity(summary_spec(b, cat));
    } else {
        assert((a + b).first() == a.first());
        assert((a + b).drop_first() =~= a.drop_first() + b);
        lemma_summary_concat(a.drop_first(), b, cat);
        lemma_combine_assoc(
            entry_summary(a.first(), cat),
            summary_spec(a.drop_first(), cat),
            summary_spec(b, cat),
        );
    }
}

/// A summary never counts more files than it saw entries.
pub proof fn lemma_summary_count_le(es: Seq<FileEntry>, cat: Category)
    ensures
        summary_spec(es, cat).file_count <= es.len(),
    decreases es.len(),
{
    if es.len() > 0 {
        lemma_summary_count_le(es.drop_first(), cat);
    }
}

/// Folding a sequence of partial summaries into one, front to back.
pub open spec fn fold_summaries(parts: Seq<AggregateSummary>) -> AggregateSummary
    decreases parts.len(),
{
    if parts.len() == 0 {
        empty_summary()
    } else {
        spec_combine(parts.first(), fold_summaries(parts.drop_first()))
    }
}

/// Aggregate correctness: however the entries are partitioned across
/// workers, combining the per-partition summaries yields the summary of
/// the whole entry sequence.
pub proof fn lemma_aggregate_partition(parts: Seq<Seq<FileEntry>>, cat: Category)
    ensures
        fold_summaries(parts.map_values(|p: Seq<FileEntry>| summary_spec(p, cat)))
            == summary_spec(parts.flatten(), cat),
    decreases parts.len(),
{
    let mapped = parts.map_values(|p: Seq<FileEntry>| summary_spec(p, cat));
    if parts.len() == 0 {
        assert(parts.flatten() =~= Seq::<FileEntry>::empty());
    } else {
        lemma_aggregate_partition(parts.drop_first(), cat);
        assert(parts.drop_first().map_values(|p: Seq<FileEntry>| summary_spec(p, cat))
            =~= mapped.drop_first());
        lemma_summary_concat(parts.first(), parts.drop_first().flatten(), cat);
    }
}

} // verus!
