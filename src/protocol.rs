//! The bodies of the protocol's responses, built from the outcomes of the
//! lifecycle operations. Every response carries an explicit status text.
use vstd::prelude::*;

use crate::error::{error_text, ServiceError};
use crate::lifecycle::{stop_status_text, StopStatus};
use crate::registry::TaskInfo;

verus! {

/// The status text of a listing and of a successful start.
pub open spec fn success_text() -> Seq<char> {
    "successful"@
}

/// One task of a listing: its id and the name it runs under.
pub struct TaskSummary {
    pub id: u64,
    pub name: String,
}

/// The body of a list response.
pub struct ListGetResponse {
    pub status: String,
    pub tasks: Vec<TaskSummary>,
}

impl ListGetResponse {
    /// The response that reports a listing, task for task in the same order.
    pub fn gen_rsp(listed: Vec<TaskInfo>) -> (r: Self)
        ensures
            r.status@ == success_text(),
            r.tasks@.len() == listed@.len(),
            forall|i: int|
                0 <= i < listed@.len() ==> r.tasks@[i].id == listed@[i].id && r.tasks@[i].name@
                    == listed@[i].name@,
    {
        let mut tasks: Vec<TaskSummary> = Vec::new();
        let mut i: usize = 0;
        while i < listed.len()
            invariant
                i <= listed@.len(),
                tasks@.len() == i,
                forall|k: int|
                    0 <= k < i ==> tasks@[k].id == listed@[k].id && tasks@[k].name@
                        == listed@[k].name@,
            decreases listed@.len() - i,
        {
            tasks.push(TaskSummary { id: listed[i].id, name: listed[i].name.clone() });
            i += 1;
        }
        ListGetResponse { status: String::from_str("successful"), tasks }
    }
}

/// The body of a start response: the new task's id on success, no id on
/// failure.
pub struct StartPostResponse {
    pub status: String,
    pub tasks: Vec<u64>,
}

impl StartPostResponse {
    /// The response that reports how a start ended.
    pub fn gen_rsp(started: &Result<u64, ServiceError>) -> (r: Self)
        ensures
            match started {
                Ok(id) => r.status@ == success_text() && r.tasks@ == seq![*id],
                Err(e) => r.status@ == error_text(*e) && r.tasks@.len() == 0,
            },
    {
        match started {
            Ok(id) => {
                let mut tasks: Vec<u64> = Vec::new();
                tasks.push(*id);
                StartPostResponse { status: String::from_str("successful"), tasks }
            },
            Err(e) => StartPostResponse { status: e.message(), tasks: Vec::new() },
        }
    }
}

/// The body of a stop response.
pub struct StopPostResponse {
    pub status: String,
}

impl StopPostResponse {
    /// The response that reports how a stop ended.
    pub fn gen_rsp(stopped: StopStatus) -> (r: Self)
        ensures
            r.status@ == stop_status_text(stopped),
    {
        StopPostResponse { status: stopped.status_text() }
    }

    /// The response to a stop request that was refused before any task was
    /// looked at or removed.
    pub fn rejected(e: &ServiceError) -> (r: Self)
        ensures
            r.status@ == error_text(*e),
    {
        StopPostResponse { status: e.message() }
    }
}

} // verus!
