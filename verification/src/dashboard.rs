//! The dashboard operations: Aggregate-mode summaries per category, and
//! the running-service listing parsed from the service manager's
//! captured output.

use vstd::prelude::*;

use vstd::string::StringExecFns;

use crate::catalog::{cache_root, log_root, trash_root, CACHE_SUMMARY_CAP, LOG_SUMMARY_DEPTH};
use crate::cleaner::CleanerService;
use crate::command::CommandOutcome;
use crate::envelope::{DataValue, ResponseModel, ServiceRecord};
use crate::model::Category;
use crate::parse::{line_split, split_columns, split_lines, ws_split};
use crate::platform::{
    bytes_to_string_lossy, lossy_chars, platform_cache_dir, platform_home_dir,
};
use crate::preview::{str_utf8_bytes, utf8_bytes};
use crate::reduce::aggregate_parallel;
use crate::summary::lemma_summary_count_le;
use crate::text::{concat2, join_with, spec_join};
use crate::walker::walk_root;

verus! {

/// The whitespace columns of every output line past the header, for
/// lines with at least the four expected columns.
pub open spec fn running_rows(lines: Seq<Seq<u8>>) -> Seq<Seq<Seq<u8>>> {
    if lines.len() == 0 {
        Seq::empty()
    } else {
        lines.skip(1).map_values(|l: Seq<u8>| ws_split(l)).filter(
            |t: Seq<Seq<u8>>| t.len() >= 4,
        )
    }
}

/// How one running-service record mirrors its output row: unit name,
/// raw status column, the running flag from that column, and the
/// remaining columns joined as the description.
pub open spec fn running_record_ok(rec: ServiceRecord, row: Seq<Seq<u8>>) -> bool {
    &&& rec.name@ == lossy_chars(row[0])
    &&& rec.status@ == lossy_chars(row[3])
    &&& rec.is_running == (row[3] == utf8_bytes("running"@))
    &&& rec.load is None
    &&& rec.active is None
    &&& row.len() > 4 ==> (rec.description matches Some(d) && d@ == spec_join(
        row.skip(4).map_values(|t: Seq<u8>| lossy_chars(t)),
        " "@,
    ))
    &&& row.len() <= 4 ==> (rec.description matches Some(d) && d@ == "No description"@)
}

/// Parse one qualifying output row into a running-service record.
fn running_record(cols: &Vec<Vec<u8>>) -> (rec: ServiceRecord)
    requires
        cols@.len() >= 4,
    ensures
        running_record_ok(rec, cols@.map_values(|t: Vec<u8>| t@)),
{
    let ghost row = cols@.map_values(|t: Vec<u8>| t@);
    let name = bytes_to_string_lossy(&cols[0]);
    let status = bytes_to_string_lossy(&cols[3]);
    let running_b = str_utf8_bytes("running");
    let is_running = crate::parse::bytes_eq(&cols[3], running_b.as_slice());
    let description = if cols.len() > 4 {
        let mut parts: Vec<String> = Vec::new();
        let mut i: usize = 4;
        proof {
            assert(parts@.map_values(|s: String| s@) =~= row.skip(4).map_values(
                |t: Seq<u8>| lossy_chars(t),
            ).take(0));
        }
        while i < cols.len()
            invariant
                4 <= i <= cols@.len(),
                row == cols@.map_values(|t: Vec<u8>| t@),
                row.len() == cols@.len(),
                parts@.map_values(|s: String| s@) == row.skip(4).map_values(
                    |t: Seq<u8>| lossy_chars(t),
                ).take(i - 4),
            decreases cols@.len() - i,
        {
            let ghost before = parts@;
            parts.push(bytes_to_string_lossy(&cols[i]));
            proof {
                let mapped = row.skip(4).map_values(|t: Seq<u8>| lossy_chars(t));
                assert(parts@.map_values(|s: String| s@) =~= before.map_values(|s: String| s@).push(
                    lossy_chars(row[i as int]),
                ));
                assert(mapped.take(i - 4).push(mapped[i - 4]) =~= mapped.take(i - 3));
                assert(mapped[i - 4] == lossy_chars(row[i as int]));
            }
            i = i + 1;
        }
        proof {
            let mapped = row.skip(4).map_values(|t: Seq<u8>| lossy_chars(t));
            assert(mapped.take(mapped.len() as int) =~= mapped);
        }
        Some(join_with(&parts, " "))
    } else {
        Some(String::from_str("No description"))
    };
    ServiceRecord { name, description, load: None, active: None, status, is_running }
}

/// The stateless dashboard service.
pub struct DashboardService;

/// The envelope a category summary must produce, given its resolution
/// error message, success message, and file-count cap (0 for none).
pub open spec fn summary_post(
    res: Result<ResponseModel, ResponseModel>,
    missing_msg: Seq<char>,
    ok_msg: Seq<char>,
    count_cap: int,
) -> bool {
    &&& res matches Err(m) ==> m.status is Error && m.message@ == missing_msg && m.data is Empty
    &&& res matches Ok(m) ==> m.status is Success && m.message@ == ok_msg && (m.data matches
        DataValue::Summary(s) && (count_cap > 0 ==> s.file_count <= count_cap))
}

/// The envelope a running-service listing must produce.
pub open spec fn running_services_post(
    res: Result<ResponseModel, ResponseModel>,
    outcome: CommandOutcome,
) -> bool {
    match outcome {
        CommandOutcome::LaunchFailed(e) => res matches Err(m) && m.status is Error && m.message@
            == "Failed to run systemctl: "@ + e@,
        CommandOutcome::Finished { success: false, stderr, .. } => res matches Err(m) && m.status
            is Error && m.message@ == lossy_chars(stderr@),
        CommandOutcome::Finished { success: true, stdout, .. } => res matches Ok(m) && m.status
            is Success && m.message@ == "Running services retrieved successfully"@ && (m.data
            matches DataValue::Services(svcs) && svcs@.len() == running_rows(
            line_split(stdout@),
        ).len() && (forall|i: int|
            0 <= i < svcs@.len() ==> running_record_ok(
                #[trigger] svcs@[i],
                running_rows(line_split(stdout@))[i],
            ))),
    }
}

impl DashboardService {
    /// List the running services from the service manager's captured
    /// listing: one record per output row with at least four columns,
    /// past the header line.
    #[allow(non_snake_case)]
    pub fn getRunningServices(&self, outcome: &CommandOutcome) -> (res: Result<
        ResponseModel,
        ResponseModel,
    >)
        ensures
            running_services_post(res, *outcome),
    {
        match outcome {
            CommandOutcome::LaunchFailed(e) => Err(
                ResponseModel::error(
                    concat2("Failed to run systemctl: ", e.as_str()),
                    DataValue::Text(String::new()),
                ),
            ),
            CommandOutcome::Finished { success, stdout, stderr } => {
                if !*success {
                    return Err(
                        ResponseModel::error(
                            bytes_to_string_lossy(stderr),
                            DataValue::Text(String::new()),
                        ),
                    );
                }
                let lines = split_lines(stdout);
                let ghost lviews = lines@.map_values(|l: Vec<u8>| l@);
                let mut svcs: Vec<ServiceRecord> = Vec::new();
                let mut i: usize = 1;
                proof {
                    if lviews.len() > 0 {
                        assert(svcs@ =~= Seq::<ServiceRecord>::empty());
                        assert(lviews.skip(1).take(0) =~= Seq::<Seq<u8>>::empty());
                        assert(rows_of(lviews.skip(1).take(0)) =~= Seq::<Seq<Seq<u8>>>::empty());
                    }
                }
                while i < lines.len()
                    invariant
                        1 <= i,
                        lines@.map_values(|l: Vec<u8>| l@) == lviews,
                        i <= lines@.len() || i == 1,
                        lviews.len() > 0 ==> i <= lviews.len() || i == 1,
                        svcs@.len() == rows_matched(lviews, i as int),
                        forall|k: int|
                            0 <= k < svcs@.len() ==> running_record_ok(
                                #[trigger] svcs@[k],
                                rows_upto(lviews, i as int)[k],
                            ),
                        rows_upto(lviews, i as int).len() == svcs@.len(),
                    decreases lines@.len() - i,
                {
                    let cols = split_columns(&lines[i]);
                    proof {
                        assert(lviews.skip(1).take(i - 1).push(lviews[i as int]) =~= lviews.skip(
                            1,
                        ).take(i as int));
                        lviews.skip(1).take(i - 1).map_values(
                            |l: Seq<u8>| ws_split(l),
                        ).lemma_filter_push(
                            ws_split(lviews[i as int]),
                            |t: Seq<Seq<u8>>| t.len() >= 4,
                        );
                        assert(lviews.skip(1).take(i - 1).push(lviews[i as int]).map_values(
                            |l: Seq<u8>| ws_split(l),
                        ) =~= lviews.skip(1).take(i - 1).map_values(|l: Seq<u8>| ws_split(l)).push(
                            ws_split(lviews[i as int]),
                        ));
                    }
                    if cols.len() >= 4 {
                        let rec = running_record(&cols);
                        proof {
                            assert(cols@.map_values(|t: Vec<u8>| t@) == ws_split(lviews[i as int]));
                        }
                        svcs.push(rec);
                    }
                    i = i + 1;
                }
                proof {
                    if lviews.len() > 0 {
                        assert(lviews.skip(1).take(lviews.len() - 1) =~= lviews.skip(1));
                    }
                }
                Ok(
                    ResponseModel::success(
                        String::from_str("Running services retrieved successfully"),
                        DataValue::Services(svcs),
                    ),
                )
            },
        }
    }

    /// Summarize cache usage: total size and count of the files the
    /// bounded cache walk visits.
    #[allow(non_snake_case)]
    pub fn getCacheSummary(&self) -> (res: Result<ResponseModel, ResponseModel>)
        ensures
            summary_post(
                res,
                "Cache directory not found"@,
                "Cache summary retrieved successfully"@,
                CACHE_SUMMARY_CAP as int,
            ),
    {
        match platform_cache_dir() {
            None => Err(
                ResponseModel::error(
                    String::from_str("Cache directory not found"),
                    DataValue::Empty,
                ),
            ),
            Some(dir) => {
                let root = cache_root(dir, CACHE_SUMMARY_CAP);
                let entries = walk_root(&root);
                let summary = aggregate_parallel(&entries, Category::Cache);
                proof {
                    lemma_summary_count_le(entries@, Category::Cache);
                }
                Ok(
                    ResponseModel::success(
                        String::from_str("Cache summary retrieved successfully"),
                        DataValue::Summary(summary),
                    ),
                )
            },
        }
    }

    /// Summarize trash usage over one level of the trash directory.
    #[allow(non_snake_case)]
    pub fn getTrashSummary(&self) -> (res: Result<ResponseModel, ResponseModel>)
        ensures
            summary_post(
                res,
                "Home directory not found"@,
                "Trash summary retrieved successfully"@,
                0,
            ),
    {
        match platform_home_dir() {
            None => Err(
                ResponseModel::error(
                    String::from_str("Home directory not found"),
                    DataValue::Empty,
                ),
            ),
            Some(home) => {
                let root = trash_root(home.as_str());
                let entries = walk_root(&root);
                let summary = aggregate_parallel(&entries, Category::Trash);
                Ok(
                    ResponseModel::success(
                        String::from_str("Trash summary retrieved successfully"),
                        DataValue::Summary(summary),
                    ),
                )
            },
        }
    }

    /// Summarize system log usage under /var/log.
    #[allow(non_snake_case)]
    pub fn getLogSummary(&self) -> (res: Result<ResponseModel, ResponseModel>)
        ensures
            summary_post(
                res,
                ""@,
                "Log summary retrieved successfully"@,
                crate::catalog::LOG_SCAN_CAP as int,
            ),
            res is Ok,
    {
        let root = log_root(LOG_SUMMARY_DEPTH);
        let entries = walk_root(&root);
        let summary = aggregate_parallel(&entries, Category::Logs);
        proof {
            lemma_summary_count_le(entries@, Category::Logs);
        }
        Ok(
            ResponseModel::success(
                String::from_str("Log summary retrieved successfully"),
                DataValue::Summary(summary),
            ),
        )
    }

    /// Summarize large-file usage across the five user directories.
    #[allow(non_snake_case)]
    pub fn getLargeFilesSummary(&self) -> (res: Result<ResponseModel, ResponseModel>)
        ensures
            summary_post(
                res,
                "Home directory not found"@,
                "Large files summary retrieved successfully"@,
                0,
            ),
    {
        let cleaner = CleanerService;
        match cleaner.large_file_candidates() {
            Err(m) => Err(m),
            Ok(candidates) => {
                let summary = aggregate_parallel(&candidates, Category::LargeFiles);
                Ok(
                    ResponseModel::success(
                        String::from_str("Large files summary retrieved successfully"),
                        DataValue::Summary(summary),
                    ),
                )
            },
        }
    }
}

/// The qualifying rows among the first `i` lines (header excluded).
pub open spec fn rows_upto(lviews: Seq<Seq<u8>>, i: int) -> Seq<Seq<Seq<u8>>> {
    if lviews.len() == 0 {
        Seq::empty()
    } else {
        rows_of(lviews.skip(1).take(i - 1))
    }
}

/// The qualifying rows of a line batch.
pub open spec fn rows_of(ls: Seq<Seq<u8>>) -> Seq<Seq<Seq<u8>>> {
    ls.map_values(|l: Seq<u8>| ws_split(l)).filter(|t: Seq<Seq<u8>>| t.len() >= 4)
}

/// How many rows the first `i` lines contribute.
pub open spec fn rows_matched(lviews: Seq<Seq<u8>>, i: int) -> int {
    rows_upto(lviews, i).len() as int
}

/// The dashboard controller: the caller-facing face of the dashboard
/// service, delegating each operation unchanged.
#[allow(non_snake_case)]
pub struct DashboardController {
    dashboardService: DashboardService,
}

impl DashboardController {
    pub fn new() -> (r: DashboardController) {
        DashboardController { dashboardService: DashboardService }
    }

    #[allow(non_snake_case)]
    pub fn getRunningServices(&self, outcome: &CommandOutcome) -> (res: Result<
        ResponseModel,
        ResponseModel,
    >)
        ensures
            running_services_post(res, *outcome),
    {
        self.dashboardService.getRunningServices(outcome)
    }

    #[allow(non_snake_case)]
    pub fn getCacheSummary(&self) -> (res: Result<ResponseModel, ResponseModel>)
        ensures
            summary_post(
                res,
                "Cache directory not found"@,
                "Cache summary retrieved successfully"@,
                CACHE_SUMMARY_CAP as int,
            ),
    {
        self.dashboardService.getCacheSummary()
    }

    #[allow(non_snake_case)]
    pub fn getTrashSummary(&self) -> (res: Result<ResponseModel, ResponseModel>)
        ensures
            summary_post(
                res,
                "Home directory not found"@,
                "Trash summary retrieved successfully"@,
                0,
            ),
    {
        self.dashboardService.getTrashSummary()
    }

    #[allow(non_snake_case)]
    pub fn getLogSummary(&self) -> (res: Result<ResponseModel, ResponseModel>)
        ensures
            summary_post(
                res,
                ""@,
                "Log summary retrieved successfully"@,
                crate::catalog::LOG_SCAN_CAP as int,
            ),
            res is Ok,
    {
        self.dashboardService.getLogSummary()
    }

    #[allow(non_snake_case)]
    pub fn getLargeFilesSummary(&self) -> (res: Result<ResponseModel, ResponseModel>)
        ensures
            summary_post(
                res,
                "Home directory not found"@,
                "Large files summary retrieved successfully"@,
                0,
            ),
    {
        self.dashboardService.getLargeFilesSummary()
    }
}

} // verus!
