//! The service-management operations: each one plans a service-manager
//! command for the host to run, then judges the captured outcome —
//! parsing unit listings, or shaping success and failure envelopes.

use vstd::prelude::*;

use vstd::string::StringExecFns;

use crate::command::{systemctl_plan, CommandOutcome, CommandPlan};
use crate::envelope::{DataValue, ResponseModel, ServiceRecord};
use crate::parse::{bytes_end_with, bytes_eq, ends_with, split_columns, split_lines, ws_split};
use crate::platform::{bytes_to_string_lossy, lossy_chars};
use crate::preview::{str_utf8_bytes, utf8_bytes};
use crate::text::{concat2, concat3, decimal_string, spec_decimal, spec_trim, trim_ascii};

verus! {

/// The qualifying unit rows of a full-listing output: lines with at
/// least four columns whose first column names a service unit.
pub open spec fn unit_rows(lines: Seq<Seq<u8>>) -> Seq<Seq<Seq<u8>>> {
    lines.map_values(|l: Seq<u8>| ws_split(l)).filter(
        |t: Seq<Seq<u8>>| t.len() >= 4 && ends_with(t[0], utf8_bytes(".service"@)),
    )
}

/// How one full-listing record mirrors its row: name, load and active
/// columns, raw status, and the running flag from the active column.
pub open spec fn unit_record_ok(rec: ServiceRecord, row: Seq<Seq<u8>>) -> bool {
    &&& rec.name@ == lossy_chars(row[0])
    &&& rec.load matches Some(l) && l@ == lossy_chars(row[1])
    &&& rec.active matches Some(a) && a@ == lossy_chars(row[2])
    &&& rec.status@ == lossy_chars(row[3])
    &&& rec.is_running == (row[2] == utf8_bytes("active"@))
    &&& rec.description is None
}

/// The qualifying rows of an enabled-unit-file listing: any line whose
/// first column names a service unit.
pub open spec fn enabled_rows(lines: Seq<Seq<u8>>) -> Seq<Seq<Seq<u8>>> {
    lines.map_values(|l: Seq<u8>| ws_split(l)).filter(
        |t: Seq<Seq<u8>>| t.len() >= 1 && ends_with(t[0], utf8_bytes(".service"@)),
    )
}

/// How one enabled-unit record mirrors its row.
pub open spec fn enabled_record_ok(rec: ServiceRecord, row: Seq<Seq<u8>>) -> bool {
    &&& rec.name@ == lossy_chars(row[0])
    &&& rec.status@ == "enabled"@
    &&& !rec.is_running
    &&& rec.description is None
    &&& rec.load is None
    &&& rec.active is None
}

/// The envelope a single-service action must produce, for one verb's
/// past participle ("stopped", "enabled", "started").
pub open spec fn single_service_post(
    res: Result<ResponseModel, ResponseModel>,
    service: Seq<char>,
    done: Seq<char>,
    outcome: CommandOutcome,
) -> bool {
    match outcome {
        CommandOutcome::LaunchFailed(e) => res matches Err(m) && m.status is Error && m.message@
            == "Failed to run command: "@ + e@,
        CommandOutcome::Finished { success: true, .. } => res matches Ok(m) && m.status is Success
            && m.message@ == "Service "@ + service + done && (m.data matches DataValue::Text(t)
            && t@ == service),
        CommandOutcome::Finished { success: false, stderr, .. } => res matches Err(m) && m.status
            is Error && m.message@ == lossy_chars(stderr@),
    }
}

/// The envelope a batch service action must produce, for one verb's
/// texts.
pub open spec fn batch_service_post(
    res: Result<ResponseModel, ResponseModel>,
    services: Seq<String>,
    done_msg_prefix: Seq<char>,
    fail_msg_prefix: Seq<char>,
    outcome: CommandOutcome,
) -> bool {
    if services.len() == 0 {
        res matches Ok(m) && m.status is Success && m.message@ == "No services selected"@ && (
        m.data matches DataValue::Names(n) && n@.len() == 0)
    } else {
        match outcome {
            CommandOutcome::LaunchFailed(e) => res matches Err(m) && m.status is Error
                && m.message@ == "Failed to run pkexec: "@ + e@,
            CommandOutcome::Finished { success: true, .. } => res matches Ok(m) && m.status
                is Success && m.message@ == done_msg_prefix + spec_decimal(services.len() as int)
                + " services successfully"@ && (m.data matches DataValue::Names(n) && n@
                == services),
            CommandOutcome::Finished { success: false, stderr, .. } => res matches Err(m)
                && m.status is Error && m.message@ == fail_msg_prefix + lossy_chars(
                spec_trim(stderr@),
            ),
        }
    }
}

/// The envelope a unit-listing operation must produce.
pub open spec fn all_services_post(
    res: Result<ResponseModel, ResponseModel>,
    outcome: CommandOutcome,
) -> bool {
    match outcome {
        CommandOutcome::LaunchFailed(e) => res matches Err(m) && m.status is Error && m.message@
            == "Failed to list services: "@ + e@,
        CommandOutcome::Finished { success: false, stderr, .. } => res matches Err(m) && m.status
            is Error && m.message@ == lossy_chars(stderr@),
        CommandOutcome::Finished { success: true, stdout, .. } => res matches Ok(m) && m.status
            is Success && m.message@ == "Found "@ + spec_decimal(
            unit_rows(crate::parse::line_split(stdout@)).len() as int,
        ) + " services"@ && (m.data matches DataValue::Services(svcs) && svcs@.len() == unit_rows(
            crate::parse::line_split(stdout@),
        ).len() && (forall|i: int|
            0 <= i < svcs@.len() ==> unit_record_ok(
                #[trigger] svcs@[i],
                unit_rows(crate::parse::line_split(stdout@))[i],
            ))),
    }
}

/// The envelope an enabled-unit listing must produce.
pub open spec fn enabled_services_post(
    res: Result<ResponseModel, ResponseModel>,
    outcome: CommandOutcome,
) -> bool {
    match outcome {
        CommandOutcome::LaunchFailed(e) => res matches Err(m) && m.status is Error && m.message@
            == "Failed to list services: "@ + e@,
        CommandOutcome::Finished { success: false, stderr, .. } => res matches Err(m) && m.status
            is Error && m.message@ == lossy_chars(stderr@),
        CommandOutcome::Finished { success: true, stdout, .. } => res matches Ok(m) && m.status
            is Success && m.message@ == "Found "@ + spec_decimal(
            enabled_rows(crate::parse::line_split(stdout@)).len() as int,
        ) + " enabled services"@ && (m.data matches DataValue::Services(svcs) && svcs@.len()
            == enabled_rows(crate::parse::line_split(stdout@)).len() && (forall|i: int|
            0 <= i < svcs@.len() ==> enabled_record_ok(
                #[trigger] svcs@[i],
                enabled_rows(crate::parse::line_split(stdout@))[i],
            ))),
    }
}

/// The stateless service-management service.
pub struct SystemService;

impl SystemService {
    /// The elevated command that stops one service.
    pub fn stop_service_command(&self, service: &str) -> (r: CommandPlan)
        ensures
            r.program@ == "pkexec"@,
            r.args@.len() == 3,
            r.args@[0]@ == "systemctl"@,
            r.args@[1]@ == "stop"@,
            r.args@[2]@ == service@,
    {
        let mut units: Vec<String> = Vec::new();
        units.push(String::from_str(service));
        let plan = systemctl_plan("stop", &units);
        proof {
            assert(plan.args@[0int + 2] == units@[0int]);
        }
        plan
    }

    /// Judge a stop-service outcome.
    #[allow(non_snake_case)]
    pub fn stopService(&self, service: &str, outcome: &CommandOutcome) -> (res: Result<
        ResponseModel,
        ResponseModel,
    >)
        ensures
            single_service_post(res, service@, " stopped"@, *outcome),
    {
        single_service(service, " stopped", outcome)
    }

    /// Judge a batch stop outcome.
    #[allow(non_snake_case)]
    pub fn stopSelectedServices(&self, services: &Vec<String>, outcome: &CommandOutcome) -> (res:
        Result<ResponseModel, ResponseModel>)
        ensures
            batch_service_post(
                res,
                services@,
                "Stopped "@,
                "Failed to stop services: "@,
                *outcome,
            ),
    {
        batch_service(services, "Stopped ", "Failed to stop services: ", outcome)
    }

    /// The command that opens a file with the chosen or default opener.
    pub fn open_file_command(&self, path: &str, command: &Option<String>) -> (r: CommandPlan)
        ensures
            !r.elevated,
            r.args@.len() == 1,
            r.args@[0]@ == path@,
            match command {
                Some(c) => r.program@ == c@,
                None => r.program@ == "xdg-open"@,
            },
    {
        let program = match command {
            Some(c) => c.clone(),
            None => String::from_str("xdg-open"),
        };
        let mut args: Vec<String> = Vec::new();
        args.push(String::from_str(path));
        CommandPlan { program, args, elevated: false }
    }

    /// Judge a file-open spawn: the host reports only whether the
    /// opener could be started.
    #[allow(non_snake_case)]
    pub fn openFile(&self, path: &str, spawn_error: &Option<String>) -> (res: Result<
        ResponseModel,
        ResponseModel,
    >)
        ensures
            match spawn_error {
                None => res matches Ok(m) && m.status is Success && m.message@
                    == "Started editor for file: "@ + path@ && (m.data matches DataValue::Text(t)
                    && t@ == path@),
                Some(e) => res matches Err(m) && m.status is Error && m.message@
                    == "Failed to start editor: "@ + e@,
            },
    {
        match spawn_error {
            None => Ok(
                ResponseModel::success(
                    concat2("Started editor for file: ", path),
                    DataValue::Text(String::from_str(path)),
                ),
            ),
            Some(e) => Err(
                ResponseModel::error(
                    concat2("Failed to start editor: ", e.as_str()),
                    DataValue::Text(String::new()),
                ),
            ),
        }
    }

    /// Parse a full unit listing into service records.
    #[allow(non_snake_case)]
    pub fn getAllServices(&self, outcome: &CommandOutcome) -> (res: Result<
        ResponseModel,
        ResponseModel,
    >)
        ensures
            all_services_post(res, *outcome),
    {
        match outcome {
            CommandOutcome::LaunchFailed(e) => Err(
                ResponseModel::error(
                    concat2("Failed to list services: ", e.as_str()),
                    DataValue::Names(Vec::new()),
                ),
            ),
            CommandOutcome::Finished { success, stdout, stderr } => {
                if !*success {
                    return Err(
                        ResponseModel::error(
                            bytes_to_string_lossy(stderr),
                            DataValue::Names(Vec::new()),
                        ),
                    );
                }
                let svcs = parse_unit_rows(stdout);
                let count = decimal_string(svcs.len() as u64);
                Ok(
                    ResponseModel::success(
                        concat3("Found ", count.as_str(), " services"),
                        DataValue::Services(svcs),
                    ),
                )
            },
        }
    }

    /// Parse an enabled-unit-file listing into service records.
    #[allow(non_snake_case)]
    pub fn getDisabledServices(&self, outcome: &CommandOutcome) -> (res: Result<
        ResponseModel,
        ResponseModel,
    >)
        ensures
            enabled_services_post(res, *outcome),
    {
        match outcome {
            CommandOutcome::LaunchFailed(e) => Err(
                ResponseModel::error(
                    concat2("Failed to list services: ", e.as_str()),
                    DataValue::Names(Vec::new()),
                ),
            ),
            CommandOutcome::Finished { success, stdout, stderr } => {
                if !*success {
                    return Err(
                        ResponseModel::error(
                            bytes_to_string_lossy(stderr),
                            DataValue::Names(Vec::new()),
                        ),
                    );
                }
                let svcs = parse_enabled_rows(stdout);
                let count = decimal_string(svcs.len() as u64);
                Ok(
                    ResponseModel::success(
                        concat3("Found ", count.as_str(), " enabled services"),
                        DataValue::Services(svcs),
                    ),
                )
            },
        }
    }

    /// Judge an enable-service outcome.
    #[allow(non_snake_case)]
    pub fn enableService(&self, service: &str, outcome: &CommandOutcome) -> (res: Result<
        ResponseModel,
        ResponseModel,
    >)
        ensures
            single_service_post(res, service@, " enabled"@, *outcome),
    {
        single_service(service, " enabled", outcome)
    }

    /// Judge a start-service outcome.
    #[allow(non_snake_case)]
    pub fn startService(&self, service: &str, outcome: &CommandOutcome) -> (res: Result<
        ResponseModel,
        ResponseModel,
    >)
        ensures
            single_service_post(res, service@, " started"@, *outcome),
    {
        single_service(service, " started", outcome)
    }

    /// Judge a batch enable outcome.
    #[allow(non_snake_case)]
    pub fn enableSelectedServices(&self, services: &Vec<String>, outcome: &CommandOutcome) -> (res:
        Result<ResponseModel, ResponseModel>)
        ensures
            batch_service_post(
                res,
                services@,
                "Enabled "@,
                "Failed to enable services: "@,
                *outcome,
            ),
    {
        batch_service(services, "Enabled ", "Failed to enable services: ", outcome)
    }
}

/// Shape a single-service action's envelope.
fn single_service(service: &str, done: &str, outcome: &CommandOutcome) -> (res: Result<
    ResponseModel,
    ResponseModel,
>)
    ensures
        single_service_post(res, service@, done@, *outcome),
{
    match outcome {
        CommandOutcome::LaunchFailed(e) => Err(
            ResponseModel::error(
                concat2("Failed to run command: ", e.as_str()),
                DataValue::Text(String::new()),
            ),
        ),
        CommandOutcome::Finished { success, stderr, .. } => {
            if *success {
                Ok(
                    ResponseModel::success(
                        concat3("Service ", service, done),
                        DataValue::Text(String::from_str(service)),
                    ),
                )
            } else {
                Err(
                    ResponseModel::error(
                        bytes_to_string_lossy(stderr),
                        DataValue::Text(String::new()),
                    ),
                )
            }
        },
    }
}

/// Shape a batch service action's envelope.
fn batch_service(
    services: &Vec<String>,
    done_prefix: &str,
    fail_prefix: &str,
    outcome: &CommandOutcome,
) -> (res: Result<ResponseModel, ResponseModel>)
    ensures
        batch_service_post(res, services@, done_prefix@, fail_prefix@, *outcome),
{
    if services.len() == 0 {
        return Ok(
            ResponseModel::success(
                String::from_str("No services selected"),
                DataValue::Names(Vec::new()),
            ),
        );
    }
    match outcome {
        CommandOutcome::LaunchFailed(e) => Err(
            ResponseModel::error(
                concat2("Failed to run pkexec: ", e.as_str()),
                DataValue::Names(Vec::new()),
            ),
        ),
        CommandOutcome::Finished { success, stderr, .. } => {
            if *success {
                let count = decimal_string(services.len() as u64);
                let message = concat2(
                    concat2(done_prefix, count.as_str()).as_str(),
                    " services successfully",
                );
                let mut names: Vec<String> = Vec::new();
                let mut i: usize = 0;
                while i < services.len()
                    invariant
                        i <= services@.len(),
                        names@ == services@.take(i as int),
                    decreases services@.len() - i,
                {
                    names.push(services[i].clone());
                    proof {
                        assert(services@.take(i + 1) =~= services@.take(i as int).push(
                            services@[i as int],
                        ));
                    }
                    i = i + 1;
                }
                proof {
                    assert(services@.take(services@.len() as int) =~= services@);
                }
                Ok(ResponseModel::success(message, DataValue::Names(names)))
            } else {
                let trimmed = trim_ascii(stderr);
                let reason = bytes_to_string_lossy(&trimmed);
                Err(
                    ResponseModel::error(
                        concat2(fail_prefix, reason.as_str()),
                        DataValue::Names(Vec::new()),
                    ),
                )
            }
        },
    }
}

/// Parse the qualifying rows of a full unit listing.
fn parse_unit_rows(stdout: &Vec<u8>) -> (svcs: Vec<ServiceRecord>)
    ensures
        svcs@.len() == unit_rows(crate::parse::line_split(stdout@)).len(),
        forall|i: int|
            0 <= i < svcs@.len() ==> unit_record_ok(
                #[trigger] svcs@[i],
                unit_rows(crate::parse::line_split(stdout@))[i],
            ),
{
    let lines = split_lines(stdout);
    let ghost lviews = lines@.map_values(|l: Vec<u8>| l@);
    let suffix = str_utf8_bytes(".service");
    let active_b = str_utf8_bytes("active");
    let mut svcs: Vec<ServiceRecord> = Vec::new();
    let mut i: usize = 0;
    proof {
        assert(lviews.take(0) =~= Seq::<Seq<u8>>::empty());
        assert(unit_rows(lviews.take(0)) =~= Seq::<Seq<Seq<u8>>>::empty());
    }
    while i < lines.len()
        invariant
            i <= lines@.len(),
            lines@.map_values(|l: Vec<u8>| l@) == lviews,
            suffix@ == utf8_bytes(".service"@),
            active_b@ == utf8_bytes("active"@),
            svcs@.len() == unit_rows(lviews.take(i as int)).len(),
            forall|k: int|
                0 <= k < svcs@.len() ==> unit_record_ok(
                    #[trigger] svcs@[k],
                    unit_rows(lviews.take(i as int))[k],
                ),
        decreases lines@.len() - i,
    {
        let cols = split_columns(&lines[i]);
        proof {
            assert(lviews.take(i + 1) =~= lviews.take(i as int).push(lviews[i as int]));
            lviews.take(i as int).map_values(|l: Seq<u8>| ws_split(l)).lemma_filter_push(
                ws_split(lviews[i as int]),
                |t: Seq<Seq<u8>>| t.len() >= 4 && ends_with(t[0], utf8_bytes(".service"@)),
            );
            assert(lviews.take(i + 1).map_values(|l: Seq<u8>| ws_split(l)) =~= lviews.take(
                i as int,
            ).map_values(|l: Seq<u8>| ws_split(l)).push(ws_split(lviews[i as int])));
            assert(cols@.map_values(|t: Vec<u8>| t@) == ws_split(lviews[i as int]));
        }
        if cols.len() >= 4 && bytes_end_with(&cols[0], suffix.as_slice()) {
            let name = bytes_to_string_lossy(&cols[0]);
            let load = bytes_to_string_lossy(&cols[1]);
            let active = bytes_to_string_lossy(&cols[2]);
            let status = bytes_to_string_lossy(&cols[3]);
            let is_running = bytes_eq(&cols[2], active_b.as_slice());
            svcs.push(
                ServiceRecord {
                    name,
                    description: None,
                    load: Some(load),
                    active: Some(active),
                    status,
                    is_running,
                },
            );
        }
        i = i + 1;
    }
    proof {
        assert(lviews.take(lviews.len() as int) =~= lviews);
    }
    svcs
}

/// Parse the qualifying rows of an enabled-unit-file listing.
fn parse_enabled_rows(stdout: &Vec<u8>) -> (svcs: Vec<ServiceRecord>)
    ensures
        svcs@.len() == enabled_rows(crate::parse::line_split(stdout@)).len(),
        forall|i: int|
            0 <= i < svcs@.len() ==> enabled_record_ok(
                #[trigger] svcs@[i],
                enabled_rows(crate::parse::line_split(stdout@))[i],
            ),
{
    let lines = split_lines(stdout);
    let ghost lviews = lines@.map_values(|l: Vec<u8>| l@);
    let suffix = str_utf8_bytes(".service");
    let mut svcs: Vec<ServiceRecord> = Vec::new();
    let mut i: usize = 0;
    proof {
        assert(lviews.take(0) =~= Seq::<Seq<u8>>::empty());
        assert(enabled_rows(lviews.take(0)) =~= Seq::<Seq<Seq<u8>>>::empty());
    }
    while i < lines.len()
        invariant
            i <= lines@.len(),
            lines@.map_values(|l: Vec<u8>| l@) == lviews,
            suffix@ == utf8_bytes(".service"@),
            svcs@.len() == enabled_rows(lviews.take(i as int)).len(),
            forall|k: int|
                0 <= k < svcs@.len() ==> enabled_record_ok(
                    #[trigger] svcs@[k],
                    enabled_rows(lviews.take(i as int))[k],
                ),
        decreases lines@.len() - i,
    {
        let cols = split_columns(&lines[i]);
        proof {
            assert(lviews.take(i + 1) =~= lviews.take(i as int).push(lviews[i as int]));
            lviews.take(i as int).map_values(|l: Seq<u8>| ws_split(l)).lemma_filter_push(
                ws_split(lviews[i as int]),
                |t: Seq<Seq<u8>>| t.len() >= 1 && ends_with(t[0], utf8_bytes(".service"@)),
            );
            assert(lviews.take(i + 1).map_values(|l: Seq<u8>| ws_split(l)) =~= lviews.take(
                i as int,
            ).map_values(|l: Seq<u8>| ws_split(l)).push(ws_split(lviews[i as int])));
            assert(cols@.map_values(|t: Vec<u8>| t@) == ws_split(lviews[i as int]));
        }
        if cols.len() >= 1 && bytes_end_with(&cols[0], suffix.as_slice()) {
            let name = bytes_to_string_lossy(&cols[0]);
            svcs.push(
                ServiceRecord {
                    name,
                    description: None,
                    load: None,
                    active: None,
                    status: String::from_str("enabled"),
                    is_running: false,
                },
            );
        }
        i = i + 1;
    }
    proof {
        assert(lviews.take(lviews.len() as int) =~= lviews);
    }
    svcs
}

/// The service-management controller: the caller-facing face of the
/// service, delegating each operation unchanged.
#[allow(non_snake_case)]
pub struct SystemController {
    systemService: SystemService,
}

impl SystemController {
    pub fn new() -> (r: SystemController) {
        SystemController { systemService: SystemService }
    }

    #[allow(non_snake_case)]
    pub fn stopService(&self, service: &str, outcome: &CommandOutcome) -> (res: Result<
        ResponseModel,
        ResponseModel,
    >)
        ensures
            single_service_post(res, service@, " stopped"@, *outcome),
    {
        self.systemService.stopService(service, outcome)
    }

    #[allow(non_snake_case)]
    pub fn stopSelectedServices(&self, services: &Vec<String>, outcome: &CommandOutcome) -> (res:
        Result<ResponseModel, ResponseModel>)
        ensures
            batch_service_post(
                res,
                services@,
                "Stopped "@,
                "Failed to stop services: "@,
                *outcome,
            ),
    {
        self.systemService.stopSelectedServices(services, outcome)
    }

    #[allow(non_snake_case)]
    pub fn openFile(&self, path: &str, spawn_error: &Option<String>) -> (res: Result<
        ResponseModel,
        ResponseModel,
    >)
        ensures
            match spawn_error {
                None => res matches Ok(m) && m.status is Success && m.message@
                    == "Started editor for file: "@ + path@ && (m.data matches DataValue::Text(t)
                    && t@ == path@),
                Some(e) => res matches Err(m) && m.status is Error && m.message@
                    == "Failed to start editor: "@ + e@,
            },
    {
        self.systemService.openFile(path, spawn_error)
    }

    #[allow(non_snake_case)]
    pub fn getAllServices(&self, outcome: &CommandOutcome) -> (res: Result<
        ResponseModel,
        ResponseModel,
    >)
        ensures
            all_services_post(res, *outcome),
    {
        self.systemService.getAllServices(outcome)
    }

    #[allow(non_snake_case)]
    pub fn enableService(&self, service: &str, outcome: &CommandOutcome) -> (res: Result<
        ResponseModel,
        ResponseModel,
    >)
        ensures
            single_service_post(res, service@, " enabled"@, *outcome),
    {
        self.systemService.enableService(service, outcome)
    }

    #[allow(non_snake_case)]
    pub fn startService(&self, service: &str, outcome: &CommandOutcome) -> (res: Result<
        ResponseModel,
        ResponseModel,
    >)
        ensures
            single_service_post(res, service@, " started"@, *outcome),
    {
        self.systemService.startService(service, outcome)
    }

    #[allow(non_snake_case)]
    pub fn enableSelectedServices(&self, services: &Vec<String>, outcome: &CommandOutcome) -> (res:
        Result<ResponseModel, ResponseModel>)
        ensures
            batch_service_post(
                res,
                services@,
                "Enabled "@,
                "Failed to enable services: "@,
                *outcome,
            ),
    {
        self.systemService.enableSelectedServices(services, outcome)
    }
}

} // verus!
