//! Verified splitting of captured command output: lines (newline
//! separated, one trailing carriage return stripped per line) and
//! whitespace-separated columns within a line.

use vstd::prelude::*;

use crate::text::is_ascii_space;

verus! {

/// The first index at which `pred` holds, if any.
pub open spec fn first_idx(s: Seq<u8>, pred: spec_fn(u8) -> bool) -> Option<int>
    decreases s.len(),
{
    if s.len() == 0 {
        None
    } else if pred(s.first()) {
        Some(0)
    } else {
        match first_idx(s.drop_first(), pred) {
            None => None,
            Some(i) => Some(i + 1),
        }
    }
}

/// `first_idx` finds exactly the first matching index.
pub proof fn lemma_first_idx(s: Seq<u8>, pred: spec_fn(u8) -> bool)
    ensures
        match first_idx(s, pred) {
            None => forall|i: int| 0 <= i < s.len() ==> !pred(s[i]),
            Some(k) => 0 <= k < s.len() && pred(s[k]) && forall|i: int| 0 <= i < k ==> !pred(s[i]),
        },
    decreases s.len(),
{
    if s.len() > 0 {
        lemma_first_idx(s.drop_first(), pred);
        assert(forall|i: int| 1 <= i < s.len() ==> s[i] == s.drop_first()[i - 1]);
    }
}

/// A sequence with no matching byte before `k`, and a match at `k` (or no
/// match at all), pins `first_idx` down.
pub proof fn lemma_first_idx_is(s: Seq<u8>, pred: spec_fn(u8) -> bool, k: int)
    requires
        0 <= k <= s.len(),
        forall|i: int| 0 <= i < k ==> !pred(s[i]),
        k < s.len() ==> pred(s[k]),
    ensures
        k < s.len() ==> first_idx(s, pred) == Some(k),
        k == s.len() ==> first_idx(s, pred) is None,
    decreases s.len(),
{
    if s.len() > 0 {
        if k == 0 {
        } else {
            assert(forall|i: int| 0 <= i < k - 1 ==> s.drop_first()[i] == s[i + 1]);
            lemma_first_idx_is(s.drop_first(), pred, k - 1);
        }
    }
}

pub open spec fn is_newline(b: u8) -> bool {
    b == 10
}

/// A line with any trailing carriage return removed.
pub open spec fn strip_cr(line: Seq<u8>) -> Seq<u8> {
    if line.len() > 0 && line.last() == 13 {
        line.drop_last()
    } else {
        line
    }
}

/// The lines of a byte text: split at every newline, one trailing
/// carriage return stripped from every line (a final unterminated line
/// included), and no empty final line after a terminating newline.
pub open spec fn line_split(bytes: Seq<u8>) -> Seq<Seq<u8>>
    decreases bytes.len(),
    via line_split_dec
{
    if bytes.len() == 0 {
        Seq::empty()
    } else {
        match first_idx(bytes, |b: u8| is_newline(b)) {
            None => seq![strip_cr(bytes)],
            Some(i) => seq![strip_cr(bytes.take(i))] + line_split(bytes.skip(i + 1)),
        }
    }
}

#[via_fn]
proof fn line_split_dec(bytes: Seq<u8>) {
    lemma_first_idx(bytes, |b: u8| is_newline(b));
}

/// The whitespace-separated columns of one line, in order, never empty.
pub open spec fn ws_split(s: Seq<u8>) -> Seq<Seq<u8>>
    decreases s.len(),
    via ws_split_dec
{
    if s.len() == 0 {
        Seq::empty()
    } else if is_ascii_space(s.first()) {
        ws_split(s.drop_first())
    } else {
        match first_idx(s, |b: u8| is_ascii_space(b)) {
            None => seq![s],
            Some(i) => seq![s.take(i)] + ws_split(s.skip(i)),
        }
    }
}

#[via_fn]
proof fn ws_split_dec(s: Seq<u8>) {
    lemma_first_idx(s, |b: u8| is_ascii_space(b));
}

/// Split captured output into lines.
pub fn split_lines(bytes: &Vec<u8>) -> (r: Vec<Vec<u8>>)
    ensures
        r@.map_values(|l: Vec<u8>| l@) == line_split(bytes@),
{
    let mut r: Vec<Vec<u8>> = Vec::new();
    let mut p: usize = 0;
    proof {
        assert(r@.map_values(|l: Vec<u8>| l@) =~= Seq::<Seq<u8>>::empty());
        assert(bytes@.skip(0) =~= bytes@);
    }
    while p < bytes.len()
        invariant
            p <= bytes@.len(),
            line_split(bytes@) == r@.map_values(|l: Vec<u8>| l@) + line_split(bytes@.skip(p as int)),
        decreases bytes@.len() - p,
    {
        let ghost rest = bytes@.skip(p as int);
        let mut j = p;
        let mut line: Vec<u8> = Vec::new();
        while j < bytes.len() && bytes[j] != 10
            invariant
                p <= j <= bytes@.len(),
                line@ == bytes@.subrange(p as int, j as int),
                forall|m: int| p <= m < j ==> bytes@[m] != 10,
            decreases bytes@.len() - j,
        {
            line.push(bytes[j]);
            proof {
                assert(bytes@.subrange(p as int, j + 1) =~= bytes@.subrange(
                    p as int,
                    j as int,
                ).push(bytes@[j as int]));
            }
            j = j + 1;
        }
        proof {
            assert(forall|m: int| 0 <= m < j - p ==> rest[m] == bytes@[m + p] && rest[m] != 10);
            lemma_first_idx_is(rest, |b: u8| is_newline(b), j - p);
            assert(rest.take(j - p) =~= line@);
            if j < bytes.len() {
                assert(line_split(rest) == seq![strip_cr(line@)] + line_split(rest.skip(j - p + 1)));
                assert(rest.skip(j - p + 1) =~= bytes@.skip(j + 1));
            } else {
                assert(rest =~= line@);
                assert(line_split(rest) == seq![strip_cr(line@)]);
            }
        }
        if line.len() > 0 && line[line.len() - 1] == 13 {
            line.pop();
            proof {
                assert(line@ =~= strip_cr(bytes@.subrange(p as int, j as int)));
            }
        }
        let ghost before = r@;
        r.push(line);
        proof {
            assert(r@.map_values(|l: Vec<u8>| l@) =~= before.map_values(|l: Vec<u8>| l@).push(
                line@,
            ));
            assert(before.map_values(|l: Vec<u8>| l@).push(line@) =~= before.map_values(
                |l: Vec<u8>| l@,
            ) + seq![line@]);
            if j < bytes.len() {
                assert((before.map_values(|l: Vec<u8>| l@) + seq![line@]) + line_split(
                    bytes@.skip(j + 1),
                ) =~= before.map_values(|l: Vec<u8>| l@) + (seq![line@] + line_split(
                    bytes@.skip(j + 1),
                )));
            } else {
                assert(bytes@.skip(bytes@.len() as int) =~= Seq::<u8>::empty());
                assert((before.map_values(|l: Vec<u8>| l@) + seq![line@]) + line_split(
                    bytes@.skip(bytes@.len() as int),
                ) =~= before.map_values(|l: Vec<u8>| l@) + seq![line@]);
            }
        }
        if j < bytes.len() {
            p = j + 1;
        } else {
            p = j;
        }
    }
    proof {
        assert(bytes@.skip(p as int) =~= Seq::<u8>::empty());
        assert(line_split(bytes@) =~= r@.map_values(|l: Vec<u8>| l@));
    }
    r
}

/// Split one line into its whitespace-separated columns.
pub fn split_columns(line: &Vec<u8>) -> (r: Vec<Vec<u8>>)
    ensures
        r@.map_values(|t: Vec<u8>| t@) == ws_split(line@),
{
    let mut r: Vec<Vec<u8>> = Vec::new();
    let mut p: usize = 0;
    proof {
        assert(r@.map_values(|t: Vec<u8>| t@) =~= Seq::<Seq<u8>>::empty());
        assert(line@.skip(0) =~= line@);
    }
    while p < line.len()
        invariant
            p <= line@.len(),
            ws_split(line@) == r@.map_values(|t: Vec<u8>| t@) + ws_split(line@.skip(p as int)),
        decreases line@.len() - p,
    {
        if is_space_exec(line[p]) {
            proof {
                assert(line@.skip(p as int).drop_first() =~= line@.skip(p + 1));
            }
            p = p + 1;
        } else {
            let ghost rest = line@.skip(p as int);
            let start = p;
            let mut tok: Vec<u8> = Vec::new();
            let mut j = p;
            while j < line.len() && !is_space_exec(line[j])
                invariant
                    p <= j <= line@.len(),
                    tok@ == line@.subrange(p as int, j as int),
                    forall|m: int| p <= m < j ==> !is_ascii_space(line@[m]),
                decreases line@.len() - j,
            {
                tok.push(line[j]);
                proof {
                    assert(line@.subrange(p as int, j + 1) =~= line@.subrange(
                        p as int,
                        j as int,
                    ).push(line@[j as int]));
                }
                j = j + 1;
            }
            proof {
                assert(forall|m: int|
                    0 <= m < j - p ==> rest[m] == line@[m + p] && !is_ascii_space(rest[m]));
                lemma_first_idx_is(rest, |b: u8| is_ascii_space(b), j - p);
                assert(rest.take(j - p) =~= tok@);
                if j < line.len() {
                    assert(ws_split(rest) == seq![tok@] + ws_split(rest.skip(j - p)));
                    assert(rest.skip(j - p) =~= line@.skip(j as int));
                } else {
                    assert(rest =~= tok@);
                    assert(ws_split(rest) == seq![tok@]);
                    assert(line@.skip(line@.len() as int) =~= Seq::<u8>::empty());
                }
            }
            let ghost before = r@;
            r.push(tok);
            proof {
                assert(r@.map_values(|t: Vec<u8>| t@) =~= before.map_values(|t: Vec<u8>| t@)
                    + seq![line@.subrange(start as int, j as int)]);
                assert((before.map_values(|t: Vec<u8>| t@) + seq![
                    line@.subrange(start as int, j as int),
                ]) + ws_split(line@.skip(j as int)) =~= before.map_values(|t: Vec<u8>| t@) + (seq![
                    line@.subrange(start as int, j as int),
                ] + ws_split(line@.skip(j as int))));
            }
            p = j;
        }
    }
    proof {
        assert(line@.skip(p as int) =~= Seq::<u8>::empty());
        assert(ws_split(line@) =~= r@.map_values(|t: Vec<u8>| t@));
    }
    r
}

fn is_space_exec(b: u8) -> (r: bool)
    ensures
        r == is_ascii_space(b),
{
    b == 32 || b == 9 || b == 10 || b == 13
}

/// Whether `s` ends with `suffix`.
pub open spec fn ends_with(s: Seq<u8>, suffix: Seq<u8>) -> bool {
    s.len() >= suffix.len() && s.skip(s.len() - suffix.len()) == suffix
}

/// Byte-for-byte equality of two byte vectors.
pub fn bytes_eq(a: &Vec<u8>, b: &[u8]) -> (r: bool)
    ensures
        r == (a@ == b@),
{
    if a.len() != b.len() {
        proof {
            assert(a@.len() != b@.len());
        }
        return false;
    }
    let mut i: usize = 0;
    while i < a.len()
        invariant
            i <= a@.len(),
            a@.len() == b@.len(),
            forall|m: int| 0 <= m < i ==> a@[m] == b@[m],
        decreases a@.len() - i,
    {
        if a[i] != b[i] {
            return false;
        }
        i = i + 1;
    }
    proof {
        assert(a@ =~= b@);
    }
    true
}

/// Whether the byte vector ends with the given suffix.
pub fn bytes_end_with(s: &Vec<u8>, suffix: &[u8]) -> (r: bool)
    ensures
        r == ends_with(s@, suffix@),
{
    if s.len() < suffix.len() {
        return false;
    }
    let off = s.len() - suffix.len();
    let mut i: usize = 0;
    while i < suffix.len()
        invariant
            i <= suffix@.len(),
            off == s@.len() - suffix@.len(),
            s@.len() >= suffix@.len(),
            s@.len() <= usize::MAX,
            forall|m: int| 0 <= m < i ==> s@[off + m] == suffix@[m],
        decreases suffix@.len() - i,
    {
        proof {
            assert(off + i < s@.len());
        }
        if s[off + i] != suffix[i] {
            proof {
                assert(s@.skip(off as int)[i as int] != suffix@[i as int]);
            }
            return false;
        }
        i = i + 1;
    }
    proof {
        assert(s@.skip(off as int) =~= suffix@);
    }
    true
}

} // verus!
