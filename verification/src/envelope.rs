//! The response envelope handed to the caller: a tagged status, a
//! human-readable message, and one of a closed set of payload shapes.

use vstd::prelude::*;

use crate::model::{AggregateSummary, FileEntry, FileRecord};
use crate::platform::format_local_timestamp;

verus! {

/// How an operation ended.
#[derive(Clone, Copy, PartialEq, Eq, Structural, Debug)]
pub enum ResponseStatus {
    Success,
    Error,
    Info,
}

/// One system service, as reported by the service manager's listing.
#[derive(Debug)]
pub struct ServiceRecord {
    pub name: String,
    pub description: Option<String>,
    pub load: Option<String>,
    pub active: Option<String>,
    pub status: String,
    pub is_running: bool,
}

impl Clone for ServiceRecord {
    fn clone(&self) -> (r: Self)
        ensures
            r == *self,
    {
        ServiceRecord {
            name: self.name.clone(),
            description: match &self.description {
                Some(d) => Some(d.clone()),
                None => None,
            },
            load: match &self.load {
                Some(l) => Some(l.clone()),
                None => None,
            },
            active: match &self.active {
                Some(a) => Some(a.clone()),
                None => None,
            },
            status: self.status.clone(),
            is_running: self.is_running,
        }
    }
}

/// The closed set of payload shapes an envelope can carry.
#[derive(Debug)]
pub enum DataValue {
    Records(Vec<FileRecord>),
    Services(Vec<ServiceRecord>),
    Names(Vec<String>),
    Summary(AggregateSummary),
    Preview(crate::preview::PreviewPayload),
    Text(String),
    Empty,
}

/// The envelope itself.
#[derive(Debug)]
pub struct ResponseModel {
    pub status: ResponseStatus,
    pub message: String,
    pub data: DataValue,
}

impl ResponseModel {
    pub fn success(message: String, data: DataValue) -> (r: ResponseModel)
        ensures
            r.status is Success,
            r.message == message,
            r.data == data,
    {
        ResponseModel { status: ResponseStatus::Success, message, data }
    }

    pub fn error(message: String, data: DataValue) -> (r: ResponseModel)
        ensures
            r.status is Error,
            r.message == message,
            r.data == data,
    {
        ResponseModel { status: ResponseStatus::Error, message, data }
    }

    pub fn info(message: String, data: DataValue) -> (r: ResponseModel)
        ensures
            r.status is Info,
            r.message == message,
            r.data == data,
    {
        ResponseModel { status: ResponseStatus::Info, message, data }
    }
}

/// How rendered records must mirror the entries they came from: same
/// order, same path and size, and a name exactly for the categories that
/// report one.  The timestamp string is the local clock's rendering and
/// is not pinned here.
pub open spec fn records_mirror_entries(
    rs: Seq<FileRecord>,
    es: Seq<FileEntry>,
    with_name: bool,
) -> bool {
    rs.len() == es.len() && forall|i: int|
        0 <= i < rs.len() ==> (#[trigger] rs[i]).path == es[i].path && rs[i].size == es[i].size
            && rs[i].name == (if with_name {
            Some(es[i].name)
        } else {
            None::<String>
        })
}

/// Turn walked entries into boundary records, rendering each timestamp
/// through the local clock at this point and nowhere earlier.
pub fn render_records(entries: &Vec<FileEntry>, with_name: bool) -> (r: Vec<FileRecord>)
    ensures
        records_mirror_entries(r@, entries@, with_name),
{
    let mut r: Vec<FileRecord> = Vec::new();
    let mut i: usize = 0;
    while i < entries.len()
        invariant
            i <= entries@.len(),
            r@.len() == i,
            forall|k: int|
                0 <= k < i ==> (#[trigger] r@[k]).path == entries@[k].path && r@[k].size
                    == entries@[k].size && r@[k].name == (if with_name {
                    Some(entries@[k].name)
                } else {
                    None::<String>
                }),
        decreases entries@.len() - i,
    {
        let e = &entries[i];
        let name = if with_name {
            Some(e.name.clone())
        } else {
            None
        };
        r.push(
            FileRecord {
                name,
                path: e.path.clone(),
                size: e.size,
                modified: format_local_timestamp(e.modified),
            },
        );
        i = i + 1;
    }
    r
}

} // verus!
