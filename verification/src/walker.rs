//! The tree walker: a bounded traversal of one scan root.  walkdir drives
//! the physical walk behind trusted wrappers; the verified loop enforces
//! the visited-entry cap, drops unreadable and non-file entries, and
//! filters on depth.  `select_spec` is the pure selection the loop
//! computes, and `lemma_soft_failure_isolation` shows that one unreadable
//! entry changes the selection by nothing but its own absence.

use vstd::prelude::*;

use crate::model::{FileEntry, ScanRoot};

verus! {

/// One traversal step reported by the walk, as plain values: either an
/// entry that could not be read, or an entry with its metadata.
pub enum RawEntry {
    Unreadable,
    Present {
        path: String,
        name: String,
        depth: usize,
        is_file: bool,
        size: u64,
        modified: u64,
    },
}

#[verifier::external_type_specification]
#[verifier::external_body]
pub struct ExWalkIter(walkdir::IntoIter);

#[verifier::external_type_specification]
#[verifier::external_body]
pub struct ExWalkDirEntry(walkdir::DirEntry);

#[verifier::external_type_specification]
#[verifier::external_body]
pub struct ExWalkError(walkdir::Error);

/// Relies on walkdir::WalkDir::new, max_depth and into_iter: starts a
/// traversal of `root` that does not descend more than `max_depth` levels
/// below it.
#[verifier::external_body]
pub(crate) fn begin_walk(root: &String, max_depth: usize) -> (it: walkdir::IntoIter) {
    walkdir::WalkDir::new(root.as_str()).max_depth(max_depth).into_iter()
}

/// Relies on walkdir::IntoIter::next and the DirEntry accessors (path,
/// file_name, depth, file_type, metadata): hands the next entry of the
/// traversal back as plain values; an entry whose directory listing or
/// metadata read failed comes back as `RawEntry::Unreadable`, and a
/// missing modified time as 0 seconds.
#[verifier::external_body]
pub(crate) fn next_raw(it: &mut walkdir::IntoIter) -> (r: Option<RawEntry>) {
    let e = match it.next()? {
        Err(_) => return Some(RawEntry::Unreadable),
        Ok(e) => e,
    };
    let m = match e.metadata() {
        Err(_) => return Some(RawEntry::Unreadable),
        Ok(m) => m,
    };
    Some(RawEntry::Present {
        path: e.path().to_string_lossy().into_owned(),
        name: e.file_name().to_string_lossy().into_owned(),
        depth: e.depth(), is_file: e.file_type().is_file(), size: m.len(),
        modified: m.modified().ok().and_then(|t| t.duration_since(std::time::UNIX_EPOCH).ok()).map_or(0, |d| d.as_secs()),
    })
}

/// The file entry a readable raw entry stands for.
pub open spec fn entry_of(raw: RawEntry) -> FileEntry {
    match raw {
        RawEntry::Present { path, name, depth, is_file, size, modified } => FileEntry {
            path,
            name,
            size,
            modified,
            depth,
        },
        RawEntry::Unreadable => arbitrary(),
    }
}

/// Whether a raw entry survives selection: it was readable, it is a
/// regular file, and it lies at most `max_depth` levels below the root.
pub open spec fn selected(raw: RawEntry, max_depth: int) -> bool {
    match raw {
        RawEntry::Present { depth, is_file, .. } => is_file && depth <= max_depth,
        RawEntry::Unreadable => false,
    }
}

/// The pure selection a bounded walk performs on the raw entries it
/// visits: unreadable entries, non-files and too-deep entries are dropped
/// silently, everything else is kept in visit order.
pub open spec fn select_spec(raws: Seq<RawEntry>, max_depth: int) -> Seq<FileEntry>
    decreases raws.len(),
{
    if raws.len() == 0 {
        Seq::empty()
    } else if selected(raws.last(), max_depth) {
        select_spec(raws.drop_last(), max_depth).push(entry_of(raws.last()))
    } else {
        select_spec(raws.drop_last(), max_depth)
    }
}

/// Every selected entry lies within the depth bound.
pub proof fn lemma_select_depths(raws: Seq<RawEntry>, max_depth: int)
    ensures
        forall|i: int|
            0 <= i < select_spec(raws, max_depth).len() ==> (#[trigger] select_spec(
                raws,
                max_depth,
            )[i]).depth <= max_depth,
        select_spec(raws, max_depth).len() <= raws.len(),
    decreases raws.len(),
{
    if raws.len() > 0 {
        lemma_select_depths(raws.drop_last(), max_depth);
    }
}

/// Soft-failure isolation: an unreadable entry anywhere in the visit
/// order leaves the selection of its siblings untouched.
pub proof fn lemma_soft_failure_isolation(
    pre: Seq<RawEntry>,
    bad: RawEntry,
    post: Seq<RawEntry>,
    max_depth: int,
)
    requires
        bad is Unreadable,
    ensures
        select_spec(pre + seq![bad] + post, max_depth) == select_spec(pre + post, max_depth),
    decreases post.len(),
{
    if post.len() == 0 {
        assert(pre + seq![bad] + post =~= (pre + seq![bad]));
        assert(pre + post =~= pre);
        assert((pre + seq![bad]).drop_last() =~= pre);
    } else {
        lemma_soft_failure_isolation(pre, bad, post.drop_last(), max_depth);
        assert((pre + seq![bad] + post).drop_last() =~= pre + seq![bad] + post.drop_last());
        assert((pre + post).drop_last() =~= pre + post.drop_last());
        assert((pre + seq![bad] + post).last() == post.last());
        assert((pre + post).last() == post.last());
    }
}

/// Walk one root: visit at most its entry cap, keep the readable regular
/// files within the depth bound, in visit order.  The result is exactly
/// `select_spec` of the raw entries the traversal yielded.
pub fn walk_root(root: &ScanRoot) -> (out: Vec<FileEntry>)
    ensures
        out@.len() <= root.spec_effective_cap(),
        forall|i: int|
            0 <= i < out@.len() ==> (#[trigger] out@[i]).depth <= root.max_depth,
        exists|raws: Seq<RawEntry>|
            raws.len() <= root.spec_effective_cap() && out@ == select_spec(
                raws,
                root.max_depth as int,
            ),
{
    let cap = root.effective_cap();
    let mut it = begin_walk(&root.path, root.max_depth);
    let mut out: Vec<FileEntry> = Vec::new();
    let mut visited: usize = 0;
    let ghost mut raws: Seq<RawEntry> = Seq::empty();
    loop
        invariant
            visited <= cap,
            raws.len() == visited,
            out@ == select_spec(raws, root.max_depth as int),
            out@.len() <= visited,
        ensures
            raws.len() <= cap,
            out@ == select_spec(raws, root.max_depth as int),
            out@.len() <= cap,
        decreases cap - visited,
    {
        if visited >= cap {
            break;
        }
        match next_raw(&mut it) {
            None => {
                break;
            },
            Some(raw) => {
                let ghost prev = raws;
                proof {
                    raws = raws.push(raw);
                    assert(raws.drop_last() =~= prev);
                }
                visited = visited + 1;
                match raw {
                    RawEntry::Unreadable => {},
                    RawEntry::Present { path, name, depth, is_file, size, modified } => {
                        if is_file && depth <= root.max_depth {
                            out.push(FileEntry { path, name, size, modified, depth });
                        }
                    },
                }
            },
        }
    }
    proof {
        lemma_select_depths(raws, root.max_depth as int);
        assert(raws.len() <= root.spec_effective_cap() && out@ == select_spec(
            raws,
            root.max_depth as int,
        ));
    }
    out
}

} // verus!
