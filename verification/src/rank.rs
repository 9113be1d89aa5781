//! The ranked-result builder: sort candidate entries by descending size
//! (insertion sort, so ties keep their encounter order) and only then
//! truncate to the result cap.  `lemma_ranking_deterministic` shows that
//! for candidates with pairwise distinct sizes the ranked sequence is a
//! function of the candidate multiset alone, independent of the order in
//! which workers or roots produced them.

use vstd::prelude::*;

use crate::model::FileEntry;

verus! {

/// Sizes never increase along the sequence.
pub open spec fn sorted_desc(s: Seq<FileEntry>) -> bool {
    forall|i: int, j: int| 0 <= i <= j < s.len() ==> s[i].size >= s[j].size
}

/// No two entries share a size.
pub open spec fn distinct_sizes(s: Seq<FileEntry>) -> bool {
    forall|i: int, j: int| 0 <= i < j < s.len() ==> s[i].size != s[j].size
}

/// The subsequence of entries of one size, in order: the unit that tie
/// stability is stated over.
pub open spec fn same_size_entries(s: Seq<FileEntry>, v: u64) -> Seq<FileEntry> {
    s.filter(|e: FileEntry| e.size == v)
}

/// A stable rearrangement: for every size, the entries of that size
/// appear in the same order as in the input, so ties keep their
/// encounter order.
pub open spec fn stable_wrt_sizes(r: Seq<FileEntry>, input: Seq<FileEntry>) -> bool {
    forall|v: u64| #[trigger] same_size_entries(r, v) == same_size_entries(input, v)
}

/// Insert one entry into an already descending list, after any entries of
/// equal size, keeping it descending.
fn insert_desc(out: &mut Vec<FileEntry>, e: FileEntry)
    requires
        sorted_desc(old(out)@),
    ensures
        sorted_desc(final(out)@),
        final(out)@.to_multiset() == old(out)@.to_multiset().insert(e),
        final(out)@.len() == old(out)@.len() + 1,
        forall|v: u64| #[trigger] same_size_entries(final(out)@, v) == (if v == e.size {
            same_size_entries(old(out)@, v).push(e)
        } else {
            same_size_entries(old(out)@, v)
        }),
{
    let mut p: usize = 0;
    while p < out.len() && out[p].size >= e.size
        invariant
            p <= out@.len(),
            forall|q: int| 0 <= q < p ==> (#[trigger] out@[q]).size >= e.size,
            sorted_desc(out@),
            out@ == old(out)@,
        decreases out@.len() - p,
    {
        p = p + 1;
    }
    let ghost before = out@;
    out.insert(p, e);
    proof {
        vstd::seq_lib::to_multiset_insert(before, p as int, e);
        assert(sorted_desc(out@)) by {
            assert forall|i: int, j: int| 0 <= i <= j < out@.len() implies out@[i].size
                >= out@[j].size by {
                if j < p {
                } else if i > p {
                    assert(out@[i] == before[i - 1] && out@[j] == before[j - 1]);
                } else if i == p && j == p {
                } else if i < p && j == p {
                    assert(out@[i] == before[i]);
                } else if i == p && j > p {
                    assert(out@[j] == before[j - 1]);
                    assert(p < before.len() ==> before[p as int].size < e.size);
                } else {
                    // i < p < j
                    assert(out@[i] == before[i] && out@[j] == before[j - 1]);
                }
            }
        }
        assert forall|v: u64| #[trigger] same_size_entries(out@, v) == (if v == e.size {
            same_size_entries(before, v).push(e)
        } else {
            same_size_entries(before, v)
        }) by {
            lemma_insert_filter_step(before, e, p as int, v);
        }
    }
}

/// Inserting an entry after every entry of at least its size extends
/// exactly its own size group, at that group's end, and no other.
proof fn lemma_insert_filter_step(before: Seq<FileEntry>, e: FileEntry, p: int, v: u64)
    requires
        sorted_desc(before),
        0 <= p <= before.len(),
        forall|q: int| 0 <= q < p ==> (#[trigger] before[q]).size >= e.size,
        p < before.len() ==> before[p].size < e.size,
    ensures
        same_size_entries(before.insert(p, e), v) == (if v == e.size {
            same_size_entries(before, v).push(e)
        } else {
            same_size_entries(before, v)
        }),
{
    let pred = |e: FileEntry| e.size == v;
    let head = before.subrange(0, p);
    let tail = before.subrange(p, before.len() as int);
    assert(before.insert(p, e) == head.push(e) + tail);
    assert(before =~= head + tail);
    Seq::filter_distributes_over_add(head.push(e), tail, pred);
    Seq::filter_distributes_over_add(head, tail, pred);
    head.lemma_filter_push(e, pred);
    if v == e.size {
        // Everything past the insertion point is strictly smaller, so
        // the tail holds nothing of this size.
        assert(tail.all(|x: FileEntry| !pred(x))) by {
            assert forall|j: int| 0 <= j < tail.len() implies !pred(#[trigger] tail[j]) by {
                assert(tail[j] == before[p + j]);
                assert(before[p].size >= before[p + j].size);
            }
        }
        tail.lemma_all_neg_filter_empty(pred);
        assert(tail.filter(pred) =~= Seq::<FileEntry>::empty());
        assert(head.push(e).filter(pred) + tail.filter(pred) =~= head.filter(pred).push(e));
        assert(head.filter(pred) + tail.filter(pred) =~= head.filter(pred));
    } else {
        assert(head.push(e).filter(pred) + tail.filter(pred) =~= head.filter(pred) + tail.filter(
            pred,
        ));
    }
}

/// Sort entries by strictly descending size with a stable insertion sort:
/// the output is descending and holds exactly the input entries.
pub fn sort_desc(records: &Vec<FileEntry>) -> (r: Vec<FileEntry>)
    ensures
        sorted_desc(r@),
        r@.to_multiset() == records@.to_multiset(),
        r@.len() == records@.len(),
        stable_wrt_sizes(r@, records@),
{
    let mut out: Vec<FileEntry> = Vec::new();
    let mut i: usize = 0;
    proof {
        assert(records@.take(0) =~= out@);
    }
    proof {
        assert forall|v: u64| #[trigger] same_size_entries(out@, v) == same_size_entries(
            records@.take(0),
            v,
        ) by {
            assert(out@ =~= records@.take(0));
        }
    }
    while i < records.len()
        invariant
            i <= records@.len(),
            sorted_desc(out@),
            out@.to_multiset() == records@.take(i as int).to_multiset(),
            out@.len() == i,
            stable_wrt_sizes(out@, records@.take(i as int)),
        decreases records@.len() - i,
    {
        proof {
            records@.take(i + 1).lemma_add_last_back();
            assert(records@.take(i + 1).drop_last() =~= records@.take(i as int));
            vstd::seq_lib::to_multiset_build(records@.take(i as int), records@[i as int]);
            assert(records@.take(i as int).push(records@[i as int]) =~= records@.take(i + 1));
        }
        let ghost snapshot = out@;
        insert_desc(&mut out, records[i].clone());
        proof {
            assert forall|v: u64| #[trigger] same_size_entries(out@, v) == same_size_entries(
                records@.take(i + 1),
                v,
            ) by {
                records@.take(i as int).lemma_filter_push(
                    records@[i as int],
                    |e: FileEntry| e.size == v,
                );
                assert(same_size_entries(snapshot, v) == same_size_entries(
                    records@.take(i as int),
                    v,
                ));
            }
        }
        i = i + 1;
    }
    proof {
        assert(records@.take(records@.len() as int) =~= records@);
    }
    out
}

/// Build the ranked result set: sort all candidates by descending size,
/// then keep the first `max_results`.  Truncation happens only after the
/// global sort, so the kept records are the largest of the whole
/// candidate set, not of whichever partition finished first.
pub fn rank(records: &Vec<FileEntry>, max_results: usize) -> (r: Vec<FileEntry>)
    ensures
        sorted_desc(r@),
        r@.len() == vstd::math::min(records@.len() as int, max_results as int),
        exists|sorted: Seq<FileEntry>|
            #![auto]
            sorted_desc(sorted) && sorted.to_multiset() == records@.to_multiset()
                && sorted.len() == records@.len() && stable_wrt_sizes(sorted, records@) && r@
                == sorted.take(r@.len() as int),
        forall|i: int|
            0 <= i < r@.len() ==> records@.to_multiset().count(#[trigger] r@[i]) > 0,
{
    let sorted = sort_desc(records);
    let keep = if sorted.len() < max_results {
        sorted.len()
    } else {
        max_results
    };
    let mut r: Vec<FileEntry> = Vec::new();
    let mut i: usize = 0;
    while i < keep
        invariant
            i <= keep,
            keep <= sorted@.len(),
            r@ == sorted@.take(i as int),
        decreases keep - i,
    {
        r.push(sorted[i].clone());
        proof {
            assert(sorted@.take(i + 1) =~= sorted@.take(i as int).push(sorted@[i as int]));
        }
        i = i + 1;
    }
    proof {
        assert(r@ == sorted@.take(keep as int));
        assert(sorted_desc(r@)) by {
            assert(forall|k: int| 0 <= k < keep ==> r@[k] == sorted@[k]);
        }
        broadcast use vstd::seq_lib::group_to_multiset_ensures;

        assert forall|k: int| 0 <= k < r@.len() implies records@.to_multiset().count(
            #[trigger] r@[k],
        ) > 0 by {
            assert(r@[k] == sorted@[k]);
            assert(sorted@.contains(sorted@[k]));
            assert(sorted@.to_multiset().count(sorted@[k]) > 0);
        }
    }
    r
}

/// Two descending arrangements of the same entries, with pairwise
/// distinct sizes, are the same sequence.
pub proof fn lemma_sorted_desc_unique(x: Seq<FileEntry>, y: Seq<FileEntry>)
    requires
        sorted_desc(x),
        sorted_desc(y),
        distinct_sizes(x),
        x.to_multiset() == y.to_multiset(),
    ensures
        x == y,
    decreases x.len(),
{
    broadcast use vstd::seq_lib::group_to_multiset_ensures;
    broadcast use vstd::multiset::group_multiset_axioms;

    vstd::seq_lib::to_multiset_len(x);
    vstd::seq_lib::to_multiset_len(y);
    if x.len() == 0 {
        assert(x =~= y);
    } else {
        assert(x.to_multiset().contains(x[0]));
        assert(y.to_multiset().contains(y[0]));
        assert(x.contains(y[0]));
        let i = choose|i: int| 0 <= i < x.len() && x[i] == y[0];
        assert(y.contains(x[0]));
        let j = choose|j: int| 0 <= j < y.len() && y[j] == x[0];
        assert(x[0].size >= x[i].size);
        assert(y[0].size >= y[j].size);
        assert(x[0].size == y[0].size);
        assert(i == 0) by {
            if i != 0 {
                assert(x[0].size != x[i].size);
            }
        }
        assert(x[0] == y[0]);
        assert(x.drop_first() =~= x.remove(0));
        assert(y.drop_first() =~= y.remove(0));
        vstd::seq_lib::to_multiset_remove(x, 0);
        vstd::seq_lib::to_multiset_remove(y, 0);
        assert(distinct_sizes(x.drop_first())) by {
            assert(forall|a: int, b: int|
                0 <= a < b < x.drop_first().len() ==> x.drop_first()[a] == x[a + 1]
                    && x.drop_first()[b] == x[b + 1]);
        }
        lemma_sorted_desc_unique(x.drop_first(), y.drop_first());
        assert(x =~= seq![x[0]] + x.drop_first());
        assert(y =~= seq![y[0]] + y.drop_first());
    }
}

/// Ranking determinism: for a candidate set whose sizes are pairwise
/// distinct, any two descending arrangements of the same candidates are
/// equal, so the ranked prefix of length `k` is a function of the
/// candidate multiset alone, whatever order workers or roots produced
/// the candidates in.
pub proof fn lemma_ranking_deterministic(x: Seq<FileEntry>, y: Seq<FileEntry>, k: int)
    requires
        sorted_desc(x),
        sorted_desc(y),
        distinct_sizes(x),
        x.to_multiset() == y.to_multiset(),
    ensures
        x == y,
        x.take(k) == y.take(k),
{
    lemma_sorted_desc_unique(x, y);
}

} // verus!
