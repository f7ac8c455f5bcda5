//! The decisions of the lifecycle manager. Launching and terminating a task
//! are done by an execution runtime outside this library; the functions here
//! decide what is launched, record what came of it, and pick what is stopped
//! or streamed.
use vstd::prelude::*;

use crate::error::ServiceError;
use crate::kind::{kind_of_type_name, TaskKind};
use crate::registry::{RegistryState, Task, TaskRegistry};

verus! {

/// The name a task is listed under when the client gives none.
pub open spec fn placeholder_name() -> Seq<char> {
    "unnamed"@
}

/// The name a task is listed under.
pub open spec fn display_name(name: Option<Seq<char>>) -> Seq<char> {
    match name {
        Some(n) => n,
        None => placeholder_name(),
    }
}

/// What a start request with this program type, and with or without program
/// data, leads to before any runtime is involved: the kind to launch, or the
/// error that ends the request.
pub open spec fn start_plan(program_type: Option<Seq<char>>, has_program: bool) -> Result<
    TaskKind,
    ServiceError,
> {
    match program_type {
        None => Err(ServiceError::Validation),
        Some(t) => match kind_of_type_name(t) {
            None => Err(ServiceError::Validation),
            Some(TaskKind::Unsupported) => Err(ServiceError::NotImplemented),
            Some(k) => if has_program {
                Ok(k)
            } else {
                Err(ServiceError::Validation)
            },
        },
    }
}

/// Validates a start request. A missing or unknown program type is a
/// validation error; a recognised kind that no runtime can start is not
/// implemented; a launchable kind without program data is a validation
/// error; otherwise the kind whose runtime is to launch the task.
pub fn plan_start(program_type: Option<&str>, program: Option<&[u8]>) -> (r: Result<
    TaskKind,
    ServiceError,
>)
    ensures
        r == start_plan(
            match program_type {
                Some(t) => Some(t@),
                None => None,
            },
            program.is_some(),
        ),
{
    match program_type {
        None => Err(ServiceError::Validation),
        Some(t) => match TaskKind::from_type_name(t) {
            None => Err(ServiceError::Validation),
            Some(TaskKind::Unsupported) => Err(ServiceError::NotImplemented),
            Some(k) => if program.is_some() {
                Ok(k)
            } else {
                Err(ServiceError::Validation)
            },
        },
    }
}

/// Records the outcome of a launch. A launched task is registered under the
/// next id, which is returned; a failed launch is reported with the runtime's
/// cause and registers nothing, as does a task of a kind that cannot run.
pub fn register_launched<H>(
    registry: &mut TaskRegistry<H>,
    kind: TaskKind,
    name: Option<String>,
    created_at: u64,
    launched: Result<H, String>,
) -> (r: Result<u64, ServiceError>)
    ensures
        kind == TaskKind::Unsupported ==> r == Err::<u64, ServiceError>(ServiceError::NotImplemented)
            && final(registry)@ == old(registry)@,
        kind != TaskKind::Unsupported ==> match launched {
            Err(cause) => r == Err::<u64, ServiceError>(ServiceError::Launch(cause))
                && final(registry)@ == old(registry)@,
            Ok(handle) => if old(registry)@.can_allocate() {
                &&& r == Ok::<u64, ServiceError>(old(registry)@.next_id as u64)
                &&& final(registry)@ == old(registry)@.inserted(
                    kind,
                    display_name(
                        match name {
                            Some(n) => Some(n@),
                            None => None,
                        },
                    ),
                    created_at,
                    handle,
                )
            } else {
                r == Err::<u64, ServiceError>(ServiceError::IdsExhausted) && final(registry)@
                    == old(registry)@
            },
        },
{
    if kind == TaskKind::Unsupported {
        return Err(ServiceError::NotImplemented);
    }
    match launched {
        Err(cause) => Err(ServiceError::Launch(cause)),
        Ok(handle) => {
            let shown = match name {
                Some(n) => n,
                None => String::from_str("unnamed"),
            };
            match registry.allocate_and_insert(kind, shown, created_at, handle) {
                Some(id) => Ok(id),
                None => Err(ServiceError::IdsExhausted),
            }
        },
    }
}

/// The task id that a request's id field names.
pub open spec fn requested_id_spec(id: Option<i64>) -> Result<u64, ServiceError> {
    match id {
        None => Err(ServiceError::Validation),
        Some(v) => if v < 0 {
            Err(ServiceError::Validation)
        } else {
            Ok(v as u64)
        },
    }
}

/// The task id that a stop or log request names. Task ids are unsigned, so
/// a missing or negative id makes the request malformed.
pub fn requested_id(id: Option<i64>) -> (r: Result<u64, ServiceError>)
    ensures
        r == requested_id_spec(id),
{
    match id {
        None => Err(ServiceError::Validation),
        Some(v) => if v < 0 {
            Err(ServiceError::Validation)
        } else {
            Ok(v as u64)
        },
    }
}

/// The first half of a stop: takes the task out of the registry, so that no
/// other stop can reach it, and hands it over for termination. An id that
/// no task has is not found, and nothing changes.
pub fn begin_stop<H>(registry: &mut TaskRegistry<H>, id: u64) -> (r: Result<Task<H>, ServiceError>)
    ensures
        final(registry)@ == old(registry)@.removed(id),
        !final(registry)@.has(id),
        final(registry)@.tasks.len() == old(registry)@.tasks.len() - if old(registry)@.has(id) {
            1int
        } else {
            0int
        },
        !old(registry)@.has(id) ==> r == Err::<Task<H>, ServiceError>(ServiceError::NotFound),
        old(registry)@.has(id) ==> match r {
            Ok(t) => t.id == id && exists|i: int|
                0 <= i < old(registry)@.tasks.len() && old(registry)@.tasks[i] == t@,
            Err(_) => false,
        },
{
    match registry.remove(id) {
        Some(t) => Ok(t),
        None => Err(ServiceError::NotFound),
    }
}

/// How a stop request ended, as reported to the client.
#[derive(Debug, Clone, Copy, PartialEq, Eq, Structural)]
pub enum StopStatus {
    /// The task was removed and its runtime terminated it.
    Terminated,
    /// The task was removed, but its runtime failed to terminate it.
    TerminationFailed,
    /// No running task had the id.
    NotFound,
}

/// The status text of each stop outcome.
pub open spec fn stop_status_text(s: StopStatus) -> Seq<char> {
    match s {
        StopStatus::Terminated => "successful terminated"@,
        StopStatus::TerminationFailed => "fail to terminate"@,
        StopStatus::NotFound => "program with specified id not found"@,
    }
}

impl StopStatus {
    /// The second half of a stop: what the runtime's termination call came
    /// to. The task stays removed either way.
    pub fn after_termination(terminated: &Result<(), String>) -> (r: StopStatus)
        ensures
            r == (if terminated is Ok {
                StopStatus::Terminated
            } else {
                StopStatus::TerminationFailed
            }),
    {
        match terminated {
            Ok(()) => StopStatus::Terminated,
            Err(_) => StopStatus::TerminationFailed,
        }
    }

    /// The text that a stop response carries as its status.
    pub fn status_text(&self) -> (r: String)
        ensures
            r@ == stop_status_text(*self),
    {
        match self {
            StopStatus::Terminated => String::from_str("successful terminated"),
            StopStatus::TerminationFailed => String::from_str("fail to terminate"),
            StopStatus::NotFound => String::from_str("program with specified id not found"),
        }
    }
}

/// Whether the output of task `id` can be read: not found when no task has
/// the id, not implemented when its kind captures no output here.
pub open spec fn log_access<H>(s: RegistryState<H>, id: u64) -> Result<(), ServiceError> {
    if !s.has(id) {
        Err(ServiceError::NotFound)
    } else if s.kind_of(id) != TaskKind::SandboxedModule {
        Err(ServiceError::NotImplemented)
    } else {
        Ok(())
    }
}

/// Picks the task whose output a log request reads. Only sandboxed-bytecode
/// tasks capture output here: another kind is not implemented, and an id that
/// no task has is not found.
pub fn log_target<H>(registry: &TaskRegistry<H>, id: u64) -> (r: Result<&Task<H>, ServiceError>)
    ensures
        match r {
            Ok(t) => log_access(registry@, id) == Ok::<(), ServiceError>(()) && t.id == id
                && exists|i: int| 0 <= i < registry@.tasks.len() && registry@.tasks[i] == t@,
            Err(e) => log_access(registry@, id) == Err::<(), ServiceError>(e),
        },
{
    match registry.get(id) {
        None => Err(ServiceError::NotFound),
        Some(t) => {
            proof {
                let s = registry@;
                let i = choose|i: int| 0 <= i < s.tasks.len() && s.tasks[i] == t@ && t.id == id;
                let j = choose|j: int| 0 <= j < s.tasks.len() && s.tasks[j].id == id;
                if i < j {
                    assert(s.tasks[i].id < s.tasks[j].id);
                } else if j < i {
                    assert(s.tasks[j].id < s.tasks[i].id);
                }
                assert(s.kind_of(id) == t.kind);
            }
            if t.kind == TaskKind::SandboxedModule {
                Ok(t)
            } else {
                Err(ServiceError::NotImplemented)
            }
        },
    }
}

} // verus!
