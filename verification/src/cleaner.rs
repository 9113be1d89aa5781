//! The cleaning operations: list scans per category, and the clearing
//! operations layered on top of them.  Scans compose the bounded walker,
//! the parallel reducer and the ranked-result builder; clearing functions
//! judge the host's per-path deletion outcomes and build the exact
//! response envelope.

use vstd::prelude::*;

use vstd::string::StringExecFns;

use crate::catalog::{
    cache_root, large_file_roots, log_root, trash_root, CACHE_LIST_CAP, LOG_LIST_DEPTH,
};
use crate::command::CommandOutcome;
use crate::envelope::{DataValue, ResponseModel};
use crate::model::{Category, FileEntry, ScanRoot, LARGE_FILE_RESULT_CAP, LARGE_FILE_THRESHOLD};
use crate::platform::{bytes_to_string_lossy, lossy_chars, platform_cache_dir, platform_home_dir};
use crate::rank::rank;
use crate::reduce::{collect_parallel, keep_pred};
use crate::text::{
    concat2, concat3, decimal_string, join_with, spec_decimal, spec_join_semicolon, spec_trim,
    trim_ascii,
};
use crate::walker::walk_root;

use rayon::iter::{IntoParallelRefIterator, ParallelIterator, IndexedParallelIterator};

verus! {

/// What the host reports of one attempted file deletion: the path, and
/// the failure reason if the deletion failed.
#[derive(Debug)]
pub struct DeletionAttempt {
    pub path: String,
    pub error: Option<String>,
}

/// How many of the attempts succeeded.
pub open spec fn ok_count(atts: Seq<DeletionAttempt>) -> int {
    atts.filter(|a: DeletionAttempt| a.error is None).len() as int
}

/// The "path: reason" texts of the failed attempts, in order.
pub open spec fn failure_texts(atts: Seq<DeletionAttempt>) -> Seq<Seq<char>> {
    atts.filter(|a: DeletionAttempt| !(a.error is None)).map_values(
        |a: DeletionAttempt| a.path@ + ": "@ + a.error->0@,
    )
}

/// Count successes and render the failure reasons of a deletion batch.
fn tally_attempts(atts: &Vec<DeletionAttempt>) -> (res: (u64, Vec<String>))
    ensures
        res.0 == ok_count(atts@),
        res.1@.map_values(|s: String| s@) == failure_texts(atts@),
{
    let mut cleared: u64 = 0;
    let mut errors: Vec<String> = Vec::new();
    let mut i: usize = 0;
    proof {
        assert(atts@.take(0) =~= Seq::<DeletionAttempt>::empty());
        assert(errors@.map_values(|s: String| s@) =~= failure_texts(atts@.take(0)));
    }
    while i < atts.len()
        invariant
            i <= atts@.len(),
            cleared == ok_count(atts@.take(i as int)),
            cleared <= i,
            errors@.map_values(|s: String| s@) == failure_texts(atts@.take(i as int)),
        decreases atts@.len() - i,
    {
        let a = &atts[i];
        proof {
            let prefix = atts@.take(i as int);
            prefix.lemma_filter_push(atts@[i as int], |x: DeletionAttempt| x.error is None);
            prefix.lemma_filter_push(atts@[i as int], |x: DeletionAttempt| !(x.error is None));
            assert(atts@.take(i + 1) =~= prefix.push(atts@[i as int]));
        }
        match &a.error {
            None => {
                cleared = cleared + 1;
            },
            Some(e) => {
                let text = concat3(a.path.as_str(), ": ", e.as_str());
                let ghost before = errors@;
                errors.push(text);
                proof {
                    assert(errors@.map_values(|s: String| s@) =~= before.map_values(
                        |s: String| s@,
                    ).push(text@));
                    assert(failure_texts(atts@.take(i + 1)) =~= failure_texts(
                        atts@.take(i as int),
                    ).push(atts@[i as int].path@ + ": "@ + atts@[i as int].error->0@));
                }
            },
        }
        i = i + 1;
    }
    proof {
        assert(atts@.take(atts@.len() as int) =~= atts@);
    }
    (cleared, errors)
}

/// Judge one deletion batch: success only if every path was deleted; on
/// any failure, an error envelope that counts the successes and joins
/// the per-path reasons.
fn clear_selected(atts: &Vec<DeletionAttempt>, noun: &str) -> (res: Result<
    ResponseModel,
    ResponseModel,
>)
    ensures
        failure_texts(atts@).len() == 0 ==> (res matches Ok(m) && m.status is Success
            && m.message@ == "Successfully cleared "@ + spec_decimal(ok_count(atts@)) + noun@
            && (m.data matches DataValue::Text(t) && t@.len() == 0)),
        failure_texts(atts@).len() != 0 ==> (res matches Err(m) && m.status is Error && m.message@
            == "Cleared "@ + spec_decimal(ok_count(atts@)) + " files, failed on: "@
            + spec_join_semicolon(failure_texts(atts@)) && (m.data matches DataValue::Text(t)
            && t@.len() == 0)),
{
    let (cleared, errors) = tally_attempts(atts);
    let count = decimal_string(cleared);
    if errors.len() == 0 {
        let message = concat3("Successfully cleared ", count.as_str(), noun);
        proof {
            assert(failure_texts(atts@).len() == errors@.map_values(|s: String| s@).len());
        }
        Ok(ResponseModel::success(message, DataValue::Text(String::new())))
    } else {
        let joined = join_with(&errors, "; ");
        let message = concat2(
            concat3("Cleared ", count.as_str(), " files, failed on: ").as_str(),
            joined.as_str(),
        );
        proof {
            assert(failure_texts(atts@).len() == errors@.map_values(|s: String| s@).len());
        }
        Err(ResponseModel::error(message, DataValue::Text(String::new())))
    }
}

/// Entries this large-file scan may hand out: every one strictly above
/// the threshold.
pub open spec fn all_large(es: Seq<FileEntry>) -> bool {
    forall|i: int| 0 <= i < es.len() ==> (#[trigger] es[i]).size > LARGE_FILE_THRESHOLD
}

/// Scan one root for large files: bounded walk, then the large-file
/// predicate over the worker pool.
pub fn scan_large_root(root: &ScanRoot) -> (r: Vec<FileEntry>)
    ensures
        all_large(r@),
{
    let entries = walk_root(root);
    let kept = collect_parallel(&entries, Category::LargeFiles);
    proof {
        broadcast use vstd::seq_lib::group_filter_ensures;

        assert(kept@ == entries@.filter(keep_pred(Category::LargeFiles)));
    }
    kept
}

/// Relies on rayon's parallel iterator over the root list (par_iter, map,
/// collect on an indexed parallel iterator, which keeps order): one entry
/// list per root, each computed by the verified `scan_large_root`.
#[verifier::external_body]
fn par_scan_roots(roots: &Vec<ScanRoot>) -> (r: Vec<Vec<FileEntry>>)
    ensures
        r@.len() == roots@.len(),
        forall|i: int| 0 <= i < r@.len() ==> all_large(r@[i]@),
{
    roots.par_iter().map(|rt| scan_large_root(rt)).collect()
}

/// The paths of a batch of entries, in order.
pub fn entry_paths(es: &Vec<FileEntry>) -> (r: Vec<String>)
    ensures
        r@.len() == es@.len(),
        forall|i: int| 0 <= i < r@.len() ==> r@[i] == es@[i].path,
{
    let mut r: Vec<String> = Vec::new();
    let mut i: usize = 0;
    while i < es.len()
        invariant
            i <= es@.len(),
            r@.len() == i,
            forall|k: int| 0 <= k < i ==> r@[k] == es@[k].path,
        decreases es@.len() - i,
    {
        r.push(es[i].path.clone());
        i = i + 1;
    }
    r
}

/// How the host finished a whole-trash clearing pass: either the trash
/// directory could not be listed, or every regular file in it was
/// attempted, each with its own result.
#[derive(Debug)]
pub enum TrashClearOutcome {
    /// The trash directory could not be listed.
    ReadFailed(String),
    /// One deletion attempt per regular file, in listing order; the
    /// host attempts every file, never stopping at a failure.
    Attempted(Vec<DeletionAttempt>),
}

/// How the host finished a whole-cache clearing pass.
#[derive(Debug)]
pub enum CacheClearOutcome {
    /// No cache directory is defined on this host.
    NoCacheDir,
    /// The cache directory does not exist; nothing to clear.
    Missing,
    /// The directory tree was removed (and recreated empty).
    Removed,
    /// Removal failed, for this reason.
    RemoveFailed(String),
}

/// The stateless cleaning service.
pub struct CleanerService;

impl CleanerService {
    /// List cache files: walk the platform cache directory under its
    /// depth and entry caps.
    #[allow(non_snake_case)]
    pub fn getCacheFiles(&self) -> (res: Result<ResponseModel, ResponseModel>)
        ensures
            cache_files_post(res),
    {
        match platform_cache_dir() {
            None => Err(
                ResponseModel::error(
                    String::from_str("Cache directory not found"),
                    DataValue::Empty,
                ),
            ),
            Some(dir) => {
                let root = cache_root(dir, CACHE_LIST_CAP);
                let entries = walk_root(&root);
                let kept = collect_parallel(&entries, Category::Cache);
                proof {
                    entries@.lemma_filter_len(keep_pred(Category::Cache));
                }
                let records = crate::envelope::render_records(&kept, false);
                Ok(
                    ResponseModel::success(
                        String::from_str("Cache files retrieved successfully"),
                        DataValue::Records(records),
                    ),
                )
            },
        }
    }

    /// List trash files: one level of the user's trash directory, with
    /// file names and deletion timestamps.
    #[allow(non_snake_case)]
    pub fn getTrashFiles(&self) -> (res: Result<ResponseModel, ResponseModel>)
        ensures
            trash_files_post(res),
    {
        match platform_home_dir() {
            None => Err(
                ResponseModel::error(
                    String::from_str("Home directory not found"),
                    DataValue::Empty,
                ),
            ),
            Some(home) => {
                let root = trash_root(home.as_str());
                let entries = walk_root(&root);
                let kept = collect_parallel(&entries, Category::Trash);
                let records = crate::envelope::render_records(&kept, true);
                Ok(
                    ResponseModel::success(
                        String::from_str("Trash files retrieved successfully"),
                        DataValue::Records(records),
                    ),
                )
            },
        }
    }

    /// List system log files under /var/log.
    #[allow(non_snake_case)]
    pub fn getSystemLogs(&self) -> (res: Result<ResponseModel, ResponseModel>)
        ensures
            system_logs_post(res),
    {
        let root = log_root(LOG_LIST_DEPTH);
        let entries = walk_root(&root);
        let kept = collect_parallel(&entries, Category::Logs);
        proof {
            entries@.lemma_filter_len(keep_pred(Category::Logs));
        }
        let records = crate::envelope::render_records(&kept, false);
        Ok(
            ResponseModel::success(
                String::from_str("System logs retrieved successfully"),
                DataValue::Records(records),
            ),
        )
    }

    /// The large-file candidates of the five user directories, scanned
    /// in parallel across roots; every candidate is strictly above the
    /// threshold.
    pub fn large_file_candidates(&self) -> (res: Result<Vec<FileEntry>, ResponseModel>)
        ensures
            res matches Err(m) ==> m.status is Error && m.message@ == "Home directory not found"@
                && m.data is Empty,
            res matches Ok(es) ==> all_large(es@),
    {
        match platform_home_dir() {
            None => Err(
                ResponseModel::error(
                    String::from_str("Home directory not found"),
                    DataValue::Empty,
                ),
            ),
            Some(home) => {
                let roots = large_file_roots(home.as_str());
                let parts = par_scan_roots(&roots);
                let mut merged: Vec<FileEntry> = Vec::new();
                let mut i: usize = 0;
                while i < parts.len()
                    invariant
                        i <= parts@.len(),
                        forall|k: int| 0 <= k < parts@.len() ==> all_large(parts@[k]@),
                        all_large(merged@),
                    decreases parts@.len() - i,
                {
                    let part = &parts[i];
                    let mut j: usize = 0;
                    while j < part.len()
                        invariant
                            j <= part@.len(),
                            all_large(part@),
                            all_large(merged@),
                        decreases part@.len() - j,
                    {
                        merged.push(part[j].clone());
                        j = j + 1;
                    }
                    i = i + 1;
                }
                Ok(merged)
            },
        }
    }

    /// List large files: every candidate above the threshold from the
    /// five user directories, globally sorted by descending size, then
    /// capped.
    #[allow(non_snake_case)]
    pub fn getLargeFiles(&self) -> (res: Result<ResponseModel, ResponseModel>)
        ensures
            large_files_post(res),
    {
        let candidates = match self.large_file_candidates() {
            Err(m) => {
                return Err(m);
            },
            Ok(es) => es,
        };
        let ranked = rank(&candidates, LARGE_FILE_RESULT_CAP);
        proof {
            lemma_ranked_still_large(candidates@, ranked@);
        }
        let records = crate::envelope::render_records(&ranked, true);
        Ok(
            ResponseModel::success(
                String::from_str("Large files retrieved successfully"),
                DataValue::Records(records),
            ),
        )
    }

    /// Build a file preview from the host's observations of the path.
    #[allow(non_snake_case)]
    pub fn previewFile(&self, path: &String, input: &crate::preview::PreviewInput) -> (res: Result<
        ResponseModel,
        ResponseModel,
    >)
        ensures
            crate::preview::preview_post(res, path@, *input),
    {
        crate::preview::preview_file(path, input)
    }

    /// Judge a selected-cache-file deletion batch.
    #[allow(non_snake_case)]
    pub fn clearSelectedCacheFiles(&self, attempts: &Vec<DeletionAttempt>) -> (res: Result<
        ResponseModel,
        ResponseModel,
    >)
        ensures
            clear_selected_post(res, attempts@, " cache files"@),
    {
        clear_selected(attempts, " cache files")
    }

    /// Judge a selected-trash-file deletion batch.
    #[allow(non_snake_case)]
    pub fn clearSelectedTrashFiles(&self, attempts: &Vec<DeletionAttempt>) -> (res: Result<
        ResponseModel,
        ResponseModel,
    >)
        ensures
            clear_selected_post(res, attempts@, " trash files"@),
    {
        clear_selected(attempts, " trash files")
    }

    /// Judge a selected-large-file deletion batch.
    #[allow(non_snake_case)]
    pub fn clearSelectedLargeFiles(&self, attempts: &Vec<DeletionAttempt>) -> (res: Result<
        ResponseModel,
        ResponseModel,
    >)
        ensures
            clear_selected_post(res, attempts@, " large files"@),
    {
        clear_selected(attempts, " large files")
    }

    /// Judge the elevated batch removal of selected log files.  The host
    /// runs the planned command only when paths were selected.
    #[allow(non_snake_case)]
    pub fn clearSelectedLogFiles(&self, paths: &Vec<String>, outcome: &CommandOutcome) -> (res:
        Result<ResponseModel, ResponseModel>)
        ensures
            paths@.len() == 0 ==> (res matches Ok(m) && m.status is Success && m.message@
                == "No log files selected"@ && (m.data matches DataValue::Text(t) && t@.len() == 0)),
            paths@.len() > 0 ==> match outcome {
                CommandOutcome::LaunchFailed(e) => res matches Err(m) && m.status is Error
                    && m.message@ == "Failed to run pkexec: "@ + e@,
                CommandOutcome::Finished { success: true, .. } => res matches Ok(m) && m.status
                    is Success && m.message@ == "Successfully cleared "@ + spec_decimal(
                    paths@.len() as int,
                ) + " log files"@,
                CommandOutcome::Finished { success: false, stderr, .. } => res matches Err(m)
                    && m.status is Error && m.message@ == "Failed to clear log files: "@
                    + lossy_chars(spec_trim(stderr@)),
            },
    {
        if paths.len() == 0 {
            return Ok(
                ResponseModel::success(
                    String::from_str("No log files selected"),
                    DataValue::Text(String::new()),
                ),
            );
        }
        match outcome {
            CommandOutcome::LaunchFailed(e) => Err(
                ResponseModel::error(
                    concat2("Failed to run pkexec: ", e.as_str()),
                    DataValue::Text(String::new()),
                ),
            ),
            CommandOutcome::Finished { success, stderr, .. } => {
                if *success {
                    let count = decimal_string(paths.len() as u64);
                    Ok(
                        ResponseModel::success(
                            concat3("Successfully cleared ", count.as_str(), " log files"),
                            DataValue::Text(String::new()),
                        ),
                    )
                } else {
                    let trimmed = trim_ascii(stderr);
                    let reason = bytes_to_string_lossy(&trimmed);
                    Err(
                        ResponseModel::error(
                            concat2("Failed to clear log files: ", reason.as_str()),
                            DataValue::Text(String::new()),
                        ),
                    )
                }
            },
        }
    }

    /// Judge a whole-trash clearing pass: success only if every file
    /// was deleted; any failures are accumulated and reported with the
    /// success count.
    #[allow(non_snake_case)]
    pub fn clearTrash(&self, outcome: &TrashClearOutcome) -> (res: Result<
        ResponseModel,
        ResponseModel,
    >)
        ensures
            clear_trash_post(res, *outcome),
    {
        match outcome {
            TrashClearOutcome::ReadFailed(e) => Err(
                ResponseModel::error(
                    concat2("Failed to read trash: ", e.as_str()),
                    DataValue::Text(String::new()),
                ),
            ),
            TrashClearOutcome::Attempted(atts) => {
                let (cleared, errors) = tally_attempts(atts);
                if errors.len() == 0 {
                    proof {
                        assert(failure_texts(atts@).len() == errors@.map_values(
                            |s: String| s@,
                        ).len());
                    }
                    Ok(
                        ResponseModel::success(
                            String::from_str("Trash cleared successfully"),
                            DataValue::Text(String::new()),
                        ),
                    )
                } else {
                    let count = decimal_string(cleared);
                    let joined = join_with(&errors, "; ");
                    let message = concat2(
                        concat3("Cleared ", count.as_str(), " files, failed on: ").as_str(),
                        joined.as_str(),
                    );
                    proof {
                        assert(failure_texts(atts@).len() == errors@.map_values(
                            |s: String| s@,
                        ).len());
                    }
                    Err(ResponseModel::error(message, DataValue::Text(String::new())))
                }
            },
        }
    }

    /// The directory a whole-cache clearing pass must remove, if the
    /// host defines one.
    pub fn cache_clear_target(&self) -> (r: Option<String>) {
        platform_cache_dir()
    }

    /// Judge a whole-cache clearing pass.
    #[allow(non_snake_case)]
    pub fn clearCache(&self, outcome: &CacheClearOutcome) -> (res: Result<
        ResponseModel,
        ResponseModel,
    >)
        ensures
            match outcome {
                CacheClearOutcome::NoCacheDir => res matches Err(m) && m.status is Error
                    && m.message@ == "Cache directory not found"@,
                CacheClearOutcome::Missing => res matches Ok(m) && m.status is Info && m.message@
                    == "No cache to clear"@,
                CacheClearOutcome::Removed => res matches Ok(m) && m.status is Success
                    && m.message@ == "Cache directory cleared successfully"@,
                CacheClearOutcome::RemoveFailed(e) => res matches Err(m) && m.status is Error
                    && m.message@ == "Failed to clear cache directory: "@ + e@,
            },
    {
        match outcome {
            CacheClearOutcome::NoCacheDir => Err(
                ResponseModel::error(
                    String::from_str("Cache directory not found"),
                    DataValue::Text(String::new()),
                ),
            ),
            CacheClearOutcome::Missing => Ok(
                ResponseModel::info(
                    String::from_str("No cache to clear"),
                    DataValue::Text(String::new()),
                ),
            ),
            CacheClearOutcome::Removed => Ok(
                ResponseModel::success(
                    String::from_str("Cache directory cleared successfully"),
                    DataValue::Text(String::new()),
                ),
            ),
            CacheClearOutcome::RemoveFailed(e) => Err(
                ResponseModel::error(
                    concat2("Failed to clear cache directory: ", e.as_str()),
                    DataValue::Text(String::new()),
                ),
            ),
        }
    }

    /// The log files a clear-all-logs pass would remove.
    pub fn clear_all_logs_scan(&self) -> (r: Vec<FileEntry>)
        ensures
            r@.len() <= crate::catalog::LOG_SCAN_CAP,
    {
        let root = log_root(LOG_LIST_DEPTH);
        let entries = walk_root(&root);
        let kept = collect_parallel(&entries, Category::Logs);
        proof {
            entries@.lemma_filter_len(keep_pred(Category::Logs));
        }
        kept
    }

    /// Judge a clear-all-logs pass over the scanned files and the
    /// elevated batch removal's outcome (ignored when nothing was found).
    #[allow(non_snake_case)]
    pub fn clearAllLogs(&self, files: &Vec<FileEntry>, outcome: &CommandOutcome) -> (res: Result<
        ResponseModel,
        ResponseModel,
    >)
        ensures
            files@.len() == 0 ==> (res matches Ok(m) && m.status is Success && m.message@
                == "No log files found to clear"@ && (m.data matches DataValue::Text(t) && t@
                == "0"@)),
            files@.len() > 0 ==> match outcome {
                CommandOutcome::LaunchFailed(e) => res matches Err(m) && m.status is Error
                    && m.message@ == "Failed to run pkexec: "@ + e@ && (m.data matches
                    DataValue::Text(t) && t@ == "0"@),
                CommandOutcome::Finished { success: true, .. } => res matches Ok(m) && m.status
                    is Success && m.message@ == "Cleared "@ + spec_decimal(files@.len() as int)
                    + " log files"@ && (m.data matches DataValue::Text(t) && t@ == spec_decimal(
                    files@.len() as int,
                )),
                CommandOutcome::Finished { success: false, stderr, .. } => res matches Err(m)
                    && m.status is Error && m.message@ == "Failed to clear logs: "@ + lossy_chars(
                    spec_trim(stderr@),
                ) && (m.data matches DataValue::Text(t) && t@ == "0"@),
            },
    {
        if files.len() == 0 {
            return Ok(
                ResponseModel::success(
                    String::from_str("No log files found to clear"),
                    DataValue::Text(String::from_str("0")),
                ),
            );
        }
        match outcome {
            CommandOutcome::LaunchFailed(e) => Err(
                ResponseModel::error(
                    concat2("Failed to run pkexec: ", e.as_str()),
                    DataValue::Text(String::from_str("0")),
                ),
            ),
            CommandOutcome::Finished { success, stderr, .. } => {
                if *success {
                    let count = decimal_string(files.len() as u64);
                    Ok(
                        ResponseModel::success(
                            concat3("Cleared ", count.as_str(), " log files"),
                            DataValue::Text(count),
                        ),
                    )
                } else {
                    let trimmed = trim_ascii(stderr);
                    let reason = bytes_to_string_lossy(&trimmed);
                    Err(
                        ResponseModel::error(
                            concat2("Failed to clear logs: ", reason.as_str()),
                            DataValue::Text(String::from_str("0")),
                        ),
                    )
                }
            },
        }
    }

    /// Judge a clear-all-large-files pass: the host attempts every
    /// candidate; success only if every deletion succeeded, else an
    /// error that counts the successes and joins the per-path reasons.
    #[allow(non_snake_case)]
    pub fn clearAllLargeFiles(&self, attempts: &Vec<DeletionAttempt>) -> (res: Result<
        ResponseModel,
        ResponseModel,
    >)
        ensures
            clear_all_large_post(res, attempts@),
    {
        let (cleared, errors) = tally_attempts(attempts);
        let count = decimal_string(cleared);
        if errors.len() == 0 {
            proof {
                assert(failure_texts(attempts@).len() == errors@.map_values(|s: String| s@).len());
            }
            let message = concat3("Cleared ", count.as_str(), " large files");
            Ok(ResponseModel::success(message, DataValue::Text(count)))
        } else {
            let joined = join_with(&errors, "; ");
            let message = concat2(
                concat3("Cleared ", count.as_str(), " files, failed on: ").as_str(),
                joined.as_str(),
            );
            proof {
                assert(failure_texts(attempts@).len() == errors@.map_values(|s: String| s@).len());
            }
            Err(ResponseModel::error(message, DataValue::Text(count)))
        }
    }
}

/// The exact envelope a whole-trash clearing pass must produce.
pub open spec fn clear_trash_post(
    res: Result<ResponseModel, ResponseModel>,
    outcome: TrashClearOutcome,
) -> bool {
    match outcome {
        TrashClearOutcome::ReadFailed(e) => res matches Err(m) && m.status is Error && m.message@
            == "Failed to read trash: "@ + e@,
        TrashClearOutcome::Attempted(atts) => {
            &&& failure_texts(atts@).len() == 0 ==> (res matches Ok(m) && m.status is Success
                && m.message@ == "Trash cleared successfully"@)
            &&& failure_texts(atts@).len() != 0 ==> (res matches Err(m) && m.status is Error
                && m.message@ == "Cleared "@ + spec_decimal(ok_count(atts@))
                + " files, failed on: "@ + spec_join_semicolon(failure_texts(atts@)))
        },
    }
}

/// The exact envelope a clear-all-large-files pass must produce: the
/// success count travels in the payload either way.
pub open spec fn clear_all_large_post(
    res: Result<ResponseModel, ResponseModel>,
    atts: Seq<DeletionAttempt>,
) -> bool {
    &&& failure_texts(atts).len() == 0 ==> (res matches Ok(m) && m.status is Success && m.message@
        == "Cleared "@ + spec_decimal(ok_count(atts)) + " large files"@ && (m.data matches
        DataValue::Text(t) && t@ == spec_decimal(ok_count(atts))))
    &&& failure_texts(atts).len() != 0 ==> (res matches Err(m) && m.status is Error && m.message@
        == "Cleared "@ + spec_decimal(ok_count(atts)) + " files, failed on: "@
        + spec_join_semicolon(failure_texts(atts)) && (m.data matches DataValue::Text(t) && t@
        == spec_decimal(ok_count(atts))))
}

/// The exact envelope a selected-file clearing batch must produce, for
/// one category noun.
pub open spec fn clear_selected_post(
    res: Result<ResponseModel, ResponseModel>,
    atts: Seq<DeletionAttempt>,
    noun: Seq<char>,
) -> bool {
    &&& failure_texts(atts).len() == 0 ==> (res matches Ok(m) && m.status is Success && m.message@
        == "Successfully cleared "@ + spec_decimal(ok_count(atts)) + noun && (m.data matches
        DataValue::Text(t) && t@.len() == 0))
    &&& failure_texts(atts).len() != 0 ==> (res matches Err(m) && m.status is Error && m.message@
        == "Cleared "@ + spec_decimal(ok_count(atts)) + " files, failed on: "@
        + spec_join_semicolon(failure_texts(atts)) && (m.data matches DataValue::Text(t) && t@.len()
        == 0))
}

/// The envelope a cache file listing must produce.
pub open spec fn cache_files_post(res: Result<ResponseModel, ResponseModel>) -> bool {
    &&& res matches Err(m) ==> m.status is Error && m.message@ == "Cache directory not found"@
        && m.data is Empty
    &&& res matches Ok(m) ==> m.status is Success && m.message@
        == "Cache files retrieved successfully"@ && (m.data matches DataValue::Records(rs)
        && rs@.len() <= CACHE_LIST_CAP && (forall|i: int|
        0 <= i < rs@.len() ==> (#[trigger] rs@[i]).name is None))
}

/// The envelope a trash file listing must produce.
pub open spec fn trash_files_post(res: Result<ResponseModel, ResponseModel>) -> bool {
    &&& res matches Err(m) ==> m.status is Error && m.message@ == "Home directory not found"@
        && m.data is Empty
    &&& res matches Ok(m) ==> m.status is Success && m.message@
        == "Trash files retrieved successfully"@ && (m.data matches DataValue::Records(rs) && (
    forall|i: int| 0 <= i < rs@.len() ==> (#[trigger] rs@[i]).name is Some))
}

/// The envelope a system log listing must produce.
pub open spec fn system_logs_post(res: Result<ResponseModel, ResponseModel>) -> bool {
    res matches Ok(m) && m.status is Success && m.message@ == "System logs retrieved successfully"@
        && (m.data matches DataValue::Records(rs) && rs@.len() <= crate::catalog::LOG_SCAN_CAP && (
    forall|i: int| 0 <= i < rs@.len() ==> (#[trigger] rs@[i]).name is None))
}

/// The envelope a large file listing must produce: capped, every record
/// above the threshold, named, and sorted by descending size.
pub open spec fn large_files_post(res: Result<ResponseModel, ResponseModel>) -> bool {
    &&& res matches Err(m) ==> m.status is Error && m.message@ == "Home directory not found"@
        && m.data is Empty
    &&& res matches Ok(m) ==> m.status is Success && m.message@
        == "Large files retrieved successfully"@ && (m.data matches DataValue::Records(rs)
        && rs@.len() <= LARGE_FILE_RESULT_CAP && (forall|i: int|
        0 <= i < rs@.len() ==> (#[trigger] rs@[i]).name is Some && rs@[i].size
            > LARGE_FILE_THRESHOLD) && (forall|i: int, j: int|
        0 <= i <= j < rs@.len() ==> (#[trigger] rs@[i]).size >= (#[trigger] rs@[j]).size))
}

/// What survives ranking still came from the candidate set, so it is
/// still above the threshold.
proof fn lemma_ranked_still_large(candidates: Seq<FileEntry>, ranked: Seq<FileEntry>)
    requires
        all_large(candidates),
        forall|i: int|
            0 <= i < ranked.len() ==> candidates.to_multiset().count(#[trigger] ranked[i]) > 0,
    ensures
        all_large(ranked),
{
    broadcast use vstd::seq_lib::group_to_multiset_ensures;

    assert forall|i: int| 0 <= i < ranked.len() implies (#[trigger] ranked[i]).size
        > LARGE_FILE_THRESHOLD by {
        assert(candidates.to_multiset().count(ranked[i]) > 0);
        assert(candidates.contains(ranked[i]));
        let j = choose|j: int| 0 <= j < candidates.len() && candidates[j] == ranked[i];
        assert(candidates[j].size > LARGE_FILE_THRESHOLD);
    }
}

/// The cleaning controller: the caller-facing face of the cleaning
/// service, delegating each operation unchanged.
#[allow(non_snake_case)]
pub struct CleanerController {
    cleanerService: CleanerService,
}

impl CleanerController {
    pub fn new() -> (r: CleanerController) {
        CleanerController { cleanerService: CleanerService }
    }

    #[allow(non_snake_case)]
    pub fn getCacheFiles(&self) -> (res: Result<ResponseModel, ResponseModel>)
        ensures
            cache_files_post(res),
    {
        self.cleanerService.getCacheFiles()
    }

    #[allow(non_snake_case)]
    pub fn getTrashFiles(&self) -> (res: Result<ResponseModel, ResponseModel>)
        ensures
            trash_files_post(res),
    {
        self.cleanerService.getTrashFiles()
    }

    #[allow(non_snake_case)]
    pub fn getSystemLogs(&self) -> (res: Result<ResponseModel, ResponseModel>)
        ensures
            system_logs_post(res),
    {
        self.cleanerService.getSystemLogs()
    }

    #[allow(non_snake_case)]
    pub fn getLargeFiles(&self) -> (res: Result<ResponseModel, ResponseModel>)
        ensures
            large_files_post(res),
    {
        self.cleanerService.getLargeFiles()
    }

    #[allow(non_snake_case)]
    pub fn previewFile(&self, path: &String, input: &crate::preview::PreviewInput) -> (res: Result<
        ResponseModel,
        ResponseModel,
    >)
        ensures
            crate::preview::preview_post(res, path@, *input),
    {
        self.cleanerService.previewFile(path, input)
    }

    #[allow(non_snake_case)]
    pub fn clearSelectedCacheFiles(&self, attempts: &Vec<DeletionAttempt>) -> (res: Result<
        ResponseModel,
        ResponseModel,
    >)
        ensures
            clear_selected_post(res, attempts@, " cache files"@),
    {
        self.cleanerService.clearSelectedCacheFiles(attempts)
    }

    #[allow(non_snake_case)]
    pub fn clearSelectedTrashFiles(&self, attempts: &Vec<DeletionAttempt>) -> (res: Result<
        ResponseModel,
        ResponseModel,
    >)
        ensures
            clear_selected_post(res, attempts@, " trash files"@),
    {
        self.cleanerService.clearSelectedTrashFiles(attempts)
    }

    #[allow(non_snake_case)]
    pub fn clearSelectedLogFiles(&self, paths: &Vec<String>, outcome: &CommandOutcome) -> (res:
        Result<ResponseModel, ResponseModel>)
        ensures
            paths@.len() == 0 ==> (res matches Ok(m) && m.status is Success && m.message@
                == "No log files selected"@),
            paths@.len() > 0 ==> match outcome {
                CommandOutcome::LaunchFailed(e) => res matches Err(m) && m.status is Error
                    && m.message@ == "Failed to run pkexec: "@ + e@,
                CommandOutcome::Finished { success: true, .. } => res matches Ok(m) && m.status
                    is Success && m.message@ == "Successfully cleared "@ + spec_decimal(
                    paths@.len() as int,
                ) + " log files"@,
                CommandOutcome::Finished { success: false, stderr, .. } => res matches Err(m)
                    && m.status is Error && m.message@ == "Failed to clear log files: "@
                    + lossy_chars(spec_trim(stderr@)),
            },
    {
        self.cleanerService.clearSelectedLogFiles(paths, outcome)
    }

    #[allow(non_snake_case)]
    pub fn clearSelectedLargeFiles(&self, attempts: &Vec<DeletionAttempt>) -> (res: Result<
        ResponseModel,
        ResponseModel,
    >)
        ensures
            clear_selected_post(res, attempts@, " large files"@),
    {
        self.cleanerService.clearSelectedLargeFiles(attempts)
    }

    #[allow(non_snake_case)]
    pub fn clearTrash(&self, outcome: &TrashClearOutcome) -> (res: Result<
        ResponseModel,
        ResponseModel,
    >)
        ensures
            clear_trash_post(res, *outcome),
    {
        self.cleanerService.clearTrash(outcome)
    }

    #[allow(non_snake_case)]
    pub fn clearCache(&self, outcome: &CacheClearOutcome) -> (res: Result<
        ResponseModel,
        ResponseModel,
    >)
        ensures
            match outcome {
                CacheClearOutcome::NoCacheDir => res matches Err(m) && m.status is Error
                    && m.message@ == "Cache directory not found"@,
                CacheClearOutcome::Missing => res matches Ok(m) && m.status is Info && m.message@
                    == "No cache to clear"@,
                CacheClearOutcome::Removed => res matches Ok(m) && m.status is Success
                    && m.message@ == "Cache directory cleared successfully"@,
                CacheClearOutcome::RemoveFailed(e) => res matches Err(m) && m.status is Error
                    && m.message@ == "Failed to clear cache directory: "@ + e@,
            },
    {
        self.cleanerService.clearCache(outcome)
    }

    #[allow(non_snake_case)]
    pub fn clearAllLogs(&self, files: &Vec<FileEntry>, outcome: &CommandOutcome) -> (res: Result<
        ResponseModel,
        ResponseModel,
    >)
        ensures
            files@.len() == 0 ==> (res matches Ok(m) && m.status is Success && m.message@
                == "No log files found to clear"@),
            files@.len() > 0 ==> match outcome {
                CommandOutcome::LaunchFailed(e) => res matches Err(m) && m.status is Error
                    && m.message@ == "Failed to run pkexec: "@ + e@,
                CommandOutcome::Finished { success: true, .. } => res matches Ok(m) && m.status
                    is Success && m.message@ == "Cleared "@ + spec_decimal(files@.len() as int)
                    + " log files"@,
                CommandOutcome::Finished { success: false, stderr, .. } => res matches Err(m)
                    && m.status is Error && m.message@ == "Failed to clear logs: "@ + lossy_chars(
                    spec_trim(stderr@),
                ),
            },
    {
        self.cleanerService.clearAllLogs(files, outcome)
    }

    #[allow(non_snake_case)]
    pub fn clearAllLargeFiles(&self, attempts: &Vec<DeletionAttempt>) -> (res: Result<
        ResponseModel,
        ResponseModel,
    >)
        ensures
            clear_all_large_post(res, attempts@),
    {
        self.cleanerService.clearAllLargeFiles(attempts)
    }
}

} // verus!
