//! The parallel filter/reducer.  The capped entry sequence is cut into
//! chunks; rayon evaluates the verified sequential reducer on every chunk
//! behind a trusted wrapper; verified code merges the partial results and
//! proves the merge equal to one sequential pass over the whole sequence.

use vstd::prelude::*;

use rayon::iter::{IntoParallelRefIterator, ParallelIterator, IndexedParallelIterator};

use crate::model::{AggregateSummary, Category, FileEntry};
use crate::platform::worker_count;
use crate::summary::{
    empty_summary, entry_kept, entry_summary, fold_summaries, keeps, lemma_aggregate_partition,
    lemma_combine_assoc, lemma_combine_identity, lemma_summary_concat, summary_spec,
};

verus! {

/// The keep/drop predicate of a category, over whole entries.
pub open spec fn keep_pred(cat: Category) -> spec_fn(FileEntry) -> bool {
    |e: FileEntry| keeps(cat, e.size)
}

/// The entries a category keeps, in order: the value of a Collect-mode
/// reduction.
pub open spec fn kept_spec(es: Seq<FileEntry>, cat: Category) -> Seq<FileEntry> {
    es.filter(keep_pred(cat))
}

/// The views of a chunk list, flattened back into one entry sequence.
pub open spec fn chunks_flat(chunks: Seq<Vec<FileEntry>>) -> Seq<FileEntry> {
    chunks.map_values(|v: Vec<FileEntry>| v@).flatten()
}

/// One sequential Aggregate-mode pass; the unit of work a worker runs.
pub fn aggregate_vec(entries: &Vec<FileEntry>, cat: Category) -> (r: AggregateSummary)
    ensures
        r == summary_spec(entries@, cat),
{
    let mut acc = AggregateSummary::identity();
    let mut i: usize = 0;
    while i < entries.len()
        invariant
            i <= entries@.len(),
            acc == summary_spec(entries@.take(i as int), cat),
        decreases entries@.len() - i,
    {
        let e = &entries[i];
        let contribution = if entry_kept(cat, e.size) {
            AggregateSummary { total_size: e.size, file_count: 1 }
        } else {
            AggregateSummary::identity()
        };
        proof {
            lemma_summary_snoc(entries@.take(i as int), entries@[i as int], cat);
            assert(entries@.take(i + 1) =~= entries@.take(i as int).push(entries@[i as int]));
        }
        acc = acc.combine(contribution);
        i = i + 1;
    }
    proof {
        assert(entries@.take(entries@.len() as int) =~= entries@);
    }
    acc
}

/// Appending one entry extends a summary by that entry's contribution.
pub proof fn lemma_summary_snoc(s: Seq<FileEntry>, e: FileEntry, cat: Category)
    ensures
        summary_spec(s.push(e), cat) == crate::summary::spec_combine(
            summary_spec(s, cat),
            entry_summary(e, cat),
        ),
{
    lemma_summary_concat(s, seq![e], cat);
    assert(s.push(e) =~= s + seq![e]);
    let single = seq![e];
    assert(single.drop_first() =~= Seq::<FileEntry>::empty());
    assert(summary_spec(Seq::<FileEntry>::empty(), cat) == empty_summary());
    assert(single.first() == e);
    assert(summary_spec(single, cat) == crate::summary::spec_combine(
        entry_summary(e, cat),
        empty_summary(),
    ));
    lemma_combine_identity(entry_summary(e, cat));
}

/// One sequential Collect-mode pass; the unit of work a worker runs.
pub fn keep_vec(entries: &Vec<FileEntry>, cat: Category) -> (r: Vec<FileEntry>)
    ensures
        r@ == kept_spec(entries@, cat),
{
    let mut out: Vec<FileEntry> = Vec::new();
    let mut i: usize = 0;
    while i < entries.len()
        invariant
            i <= entries@.len(),
            out@ == kept_spec(entries@.take(i as int), cat),
        decreases entries@.len() - i,
    {
        let e = &entries[i];
        proof {
            entries@.take(i as int).lemma_filter_push(entries@[i as int], keep_pred(cat));
            assert(entries@.take(i + 1) =~= entries@.take(i as int).push(entries@[i as int]));
        }
        if entry_kept(cat, e.size) {
            out.push(e.clone());
        }
        i = i + 1;
    }
    proof {
        assert(entries@.take(entries@.len() as int) =~= entries@);
    }
    out
}

/// Cut the entry sequence into chunks of at most `chunk` entries, in
/// order, so that the chunks flatten back to the input.
pub fn make_chunks(entries: &Vec<FileEntry>, chunk: usize) -> (r: Vec<Vec<FileEntry>>)
    requires
        chunk >= 1,
    ensures
        chunks_flat(r@) == entries@,
    decreases entries@.len(),
{
    let mut r: Vec<Vec<FileEntry>> = Vec::new();
    let mut i: usize = 0;
    while i < entries.len()
        invariant
            chunk >= 1,
            i <= entries@.len(),
            chunks_flat(r@) == entries@.take(i as int),
        decreases entries@.len() - i,
    {
        let mut cur: Vec<FileEntry> = Vec::new();
        let start = i;
        while i < entries.len() && i - start < chunk
            invariant
                start <= i <= entries@.len(),
                i - start <= chunk,
                cur@ == entries@.subrange(start as int, i as int),
            decreases entries@.len() - i,
        {
            cur.push(entries[i].clone());
            proof {
                assert(entries@.subrange(start as int, i + 1) =~= entries@.subrange(
                    start as int,
                    i as int,
                ).push(entries@[i as int]));
            }
            i = i + 1;
        }
        proof {
            let ghost prev = r@.map_values(|v: Vec<FileEntry>| v@);
            prev.lemma_flatten_push(cur@);
            assert(r@.push(cur).map_values(|v: Vec<FileEntry>| v@) =~= prev.push(cur@));
            assert(entries@.take(i as int) =~= entries@.take(start as int) + entries@.subrange(
                start as int,
                i as int,
            ));
        }
        r.push(cur);
        proof {
            assert(i - start >= 1);
        }
    }
    proof {
        assert(entries@.take(entries@.len() as int) =~= entries@);
    }
    r
}

/// Relies on rayon's parallel iterator over the chunk list (par_iter,
/// map, collect on an indexed parallel iterator, which keeps order): one
/// partial summary per chunk, each computed by the verified sequential
/// reducer `aggregate_vec`.
#[verifier::external_body]
fn par_summaries(chunks: &Vec<Vec<FileEntry>>, cat: Category) -> (r: Vec<AggregateSummary>)
    ensures
        r@.len() == chunks@.len(),
        forall|i: int| 0 <= i < r@.len() ==> r@[i] == summary_spec(chunks@[i]@, cat),
{
    chunks.par_iter().map(|c| aggregate_vec(c, cat)).collect()
}

/// Relies on rayon's parallel iterator over the chunk list (par_iter,
/// map, collect on an indexed parallel iterator, which keeps order): one
/// kept-entry list per chunk, each computed by the verified sequential
/// reducer `keep_vec`.
#[verifier::external_body]
fn par_kept(chunks: &Vec<Vec<FileEntry>>, cat: Category) -> (r: Vec<Vec<FileEntry>>)
    ensures
        r@.len() == chunks@.len(),
        forall|i: int| 0 <= i < r@.len() ==> r@[i]@ == kept_spec(chunks@[i]@, cat),
{
    chunks.par_iter().map(|c| keep_vec(c, cat)).collect()
}

/// Aggregate-mode reduction over the worker pool: the result equals one
/// sequential pass over the whole entry sequence, however the pool
/// partitioned it.
pub fn aggregate_parallel(entries: &Vec<FileEntry>, cat: Category) -> (r: AggregateSummary)
    ensures
        r == summary_spec(entries@, cat),
{
    let workers = worker_count();
    let per = entries.len() / workers;
    let chunk = if per == 0 {
        1
    } else {
        per
    };
    let chunks = make_chunks(entries, chunk);
    let partials = par_summaries(&chunks, cat);
    let mut acc = AggregateSummary::identity();
    let mut i: usize = 0;
    while i < partials.len()
        invariant
            i <= partials@.len(),
            acc == fold_summaries(partials@.take(i as int)),
        decreases partials@.len() - i,
    {
        proof {
            lemma_fold_snoc(partials@.take(i as int), partials@[i as int]);
            assert(partials@.take(i + 1) =~= partials@.take(i as int).push(partials@[i as int]));
        }
        acc = acc.combine(partials[i]);
        i = i + 1;
    }
    proof {
        assert(partials@.take(partials@.len() as int) =~= partials@);
        let cviews = chunks@.map_values(|v: Vec<FileEntry>| v@);
        lemma_aggregate_partition(cviews, cat);
        assert(partials@ =~= cviews.map_values(|p: Seq<FileEntry>| summary_spec(p, cat)));
    }
    acc
}

/// Folding one more partial summary onto the end combines it last.
pub proof fn lemma_fold_snoc(s: Seq<AggregateSummary>, x: AggregateSummary)
    ensures
        fold_summaries(s.push(x)) == crate::summary::spec_combine(fold_summaries(s), x),
    decreases s.len(),
{
    if s.len() == 0 {
        lemma_combine_identity(x);
        lemma_combine_identity(fold_summaries(seq![x].drop_first()));
        assert(seq![x].drop_first() =~= Seq::<AggregateSummary>::empty());
        assert(s.push(x) =~= seq![x]);
    } else {
        assert(s.push(x).drop_first() =~= s.drop_first().push(x));
        lemma_fold_snoc(s.drop_first(), x);
        lemma_combine_assoc(s.first(), fold_summaries(s.drop_first()), x);
    }
}

/// Collect-mode reduction over the worker pool: the merged output is
/// exactly the kept entries of the whole sequence, in order, however the
/// pool partitioned it.
pub fn collect_parallel(entries: &Vec<FileEntry>, cat: Category) -> (r: Vec<FileEntry>)
    ensures
        r@ == kept_spec(entries@, cat),
{
    let workers = worker_count();
    let per = entries.len() / workers;
    let chunk = if per == 0 {
        1
    } else {
        per
    };
    let chunks = make_chunks(entries, chunk);
    let parts = par_kept(&chunks, cat);
    let mut out: Vec<FileEntry> = Vec::new();
    let mut i: usize = 0;
    while i < parts.len()
        invariant
            i <= parts@.len(),
            parts@.len() == chunks@.len(),
            forall|k: int| 0 <= k < parts@.len() ==> parts@[k]@ == kept_spec(chunks@[k]@, cat),
            out@ == kept_spec(chunks_flat(chunks@.take(i as int)), cat),
        decreases parts@.len() - i,
    {
        let part = &parts[i];
        let mut j: usize = 0;
        while j < part.len()
            invariant
                j <= part@.len(),
                out@ == kept_spec(chunks_flat(chunks@.take(i as int)), cat) + part@.take(j as int),
            decreases part@.len() - j,
        {
            out.push(part[j].clone());
            proof {
                assert(part@.take(j + 1) =~= part@.take(j as int).push(part@[j as int]));
                assert(out@ =~= kept_spec(chunks_flat(chunks@.take(i as int)), cat) + part@.take(
                    j + 1,
                ));
            }
            j = j + 1;
        }
        proof {
            assert(part@.take(part@.len() as int) =~= part@);
            let pre = chunks@.take(i as int).map_values(|v: Vec<FileEntry>| v@);
            pre.lemma_flatten_push(chunks@[i as int]@);
            assert(chunks@.take(i + 1).map_values(|v: Vec<FileEntry>| v@) =~= pre.push(
                chunks@[i as int]@,
            ));
            Seq::filter_distributes_over_add(
                chunks_flat(chunks@.take(i as int)),
                chunks@[i as int]@,
                keep_pred(cat),
            );
        }
        i = i + 1;
    }
    proof {
        assert(chunks@.take(chunks@.len() as int) =~= chunks@);
    }
    out
}

} // verus!
