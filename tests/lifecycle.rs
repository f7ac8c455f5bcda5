use ecli::error::ServiceError;
use ecli::kind::TaskKind;
use ecli::lifecycle::{begin_stop, log_target, plan_start, register_launched, requested_id, StopStatus};
use ecli::protocol::{ListGetResponse, StartPostResponse, StopPostResponse};
use ecli::registry::TaskRegistry;

fn start(reg: &mut TaskRegistry<u32>, program_type: &str, name: &str, handle: u32) -> Result<u64, ServiceError> {
    let kind = plan_start(Some(program_type), Some(&b"\0asm"[..]))?;
    register_launched(reg, kind, Some(name.to_string()), 1000, Ok(handle))
}

fn listed_ids(reg: &TaskRegistry<u32>) -> Vec<u64> {
    reg.list().iter().map(|t| t.id).collect()
}

#[test]
fn demo_task_start_list_stop() {
    let mut reg: TaskRegistry<u32> = TaskRegistry::new();
    let kind = plan_start(Some("WasmModule"), Some(&b"\0asm"[..])).unwrap();
    assert_eq!(kind, TaskKind::SandboxedModule);
    let started = register_launched(&mut reg, kind, Some("demo".to_string()), 1700000000, Ok(7u32));
    let rsp = StartPostResponse::gen_rsp(&started);
    assert_eq!(rsp.tasks, vec![0u64]);
    assert_eq!(rsp.status, "successful");

    let list = ListGetResponse::gen_rsp(reg.list());
    assert_eq!(list.tasks.len(), 1);
    assert_eq!(list.tasks[0].id, 0);
    assert_eq!(list.tasks[0].name, "demo");

    let task = begin_stop(&mut reg, 0).unwrap();
    assert_eq!(task.handle, 7);
    assert_eq!(task.created_at, 1700000000);
    assert_eq!(task.name, "demo");
    let status = StopStatus::after_termination(&Ok(()));
    assert_eq!(StopPostResponse::gen_rsp(status).status, "successful terminated");
    assert!(ListGetResponse::gen_rsp(reg.list()).tasks.is_empty());
}

#[test]
fn stop_unknown_id_on_empty_registry() {
    let mut reg: TaskRegistry<u32> = TaskRegistry::new();
    let id = requested_id(Some(999999)).unwrap();
    let stopped = begin_stop(&mut reg, id);
    assert!(matches!(stopped, Err(ServiceError::NotFound)));
    let rsp = StopPostResponse::gen_rsp(StopStatus::NotFound);
    assert_eq!(rsp.status, "program with specified id not found");
    assert!(reg.list().is_empty());
    assert!(!reg.contains(999999));
}

#[test]
fn second_stop_is_not_found() {
    let mut reg: TaskRegistry<u32> = TaskRegistry::new();
    let id = start(&mut reg, "WasmModule", "a", 1).unwrap();
    assert!(begin_stop(&mut reg, id).is_ok());
    assert!(matches!(begin_stop(&mut reg, id), Err(ServiceError::NotFound)));
}

#[test]
fn many_starts_get_distinct_ids() {
    let mut reg: TaskRegistry<u32> = TaskRegistry::new();
    let mut ids = Vec::new();
    for k in 0..20u32 {
        ids.push(start(&mut reg, "WasmModule", "t", k).unwrap());
        if k % 3 == 0 {
            let last = *ids.last().unwrap();
            begin_stop(&mut reg, last).unwrap();
        }
    }
    let mut sorted = ids.clone();
    sorted.sort();
    sorted.dedup();
    assert_eq!(sorted.len(), ids.len());
}

#[test]
fn stopped_id_is_never_handed_out_again() {
    let mut reg: TaskRegistry<u32> = TaskRegistry::new();
    let first = start(&mut reg, "WasmModule", "a", 1).unwrap();
    begin_stop(&mut reg, first).unwrap();
    let second = start(&mut reg, "WasmModule", "b", 2).unwrap();
    assert_eq!(first, 0);
    assert_eq!(second, 1);
}

#[test]
fn listing_follows_start_and_stop() {
    let mut reg: TaskRegistry<u32> = TaskRegistry::new();
    let a = start(&mut reg, "WasmModule", "a", 1).unwrap();
    let b = start(&mut reg, "JsonEunomia", "b", 2).unwrap();
    assert_eq!(listed_ids(&reg), vec![a, b]);
    assert_eq!(listed_ids(&reg).iter().filter(|&&i| i == b).count(), 1);
    begin_stop(&mut reg, a).unwrap();
    assert_eq!(listed_ids(&reg), vec![b]);
    assert_eq!(reg.get_kind(b), Some(TaskKind::KernelProgram));
    assert_eq!(reg.get_kind(a), None);
}

#[test]
fn tar_start_is_not_implemented_and_registers_nothing() {
    let mut reg: TaskRegistry<u32> = TaskRegistry::new();
    start(&mut reg, "WasmModule", "a", 1).unwrap();
    assert!(matches!(plan_start(Some("Tar"), Some(&b"archive"[..])), Err(ServiceError::NotImplemented)));
    let forced = register_launched(&mut reg, TaskKind::Unsupported, None, 0, Ok(5u32));
    assert!(matches!(forced, Err(ServiceError::NotImplemented)));
    assert_eq!(listed_ids(&reg), vec![0]);
}

#[test]
fn unknown_or_missing_program_type_is_a_validation_error() {
    let program = Some(&b"prog"[..]);
    assert!(matches!(plan_start(Some("Elf"), program), Err(ServiceError::Validation)));
    assert!(matches!(plan_start(Some(""), program), Err(ServiceError::Validation)));
    assert!(matches!(plan_start(None, program), Err(ServiceError::Validation)));
    assert_eq!(plan_start(Some("JsonEunomia"), program).unwrap(), TaskKind::KernelProgram);
}

#[test]
fn start_without_program_data_is_a_validation_error() {
    assert!(matches!(plan_start(Some("WasmModule"), None), Err(ServiceError::Validation)));
    assert!(matches!(plan_start(Some("Tar"), None), Err(ServiceError::NotImplemented)));
}

#[test]
fn failed_launch_reports_cause_and_registers_nothing() {
    let mut reg: TaskRegistry<u32> = TaskRegistry::new();
    let r = register_launched(&mut reg, TaskKind::SandboxedModule, None, 0, Err("boom".to_string()));
    assert_eq!(r, Err(ServiceError::Launch("boom".to_string())));
    let rsp = StartPostResponse::gen_rsp(&r);
    assert_eq!(rsp.status, "fail to start: boom");
    assert!(rsp.tasks.is_empty());
    assert!(reg.list().is_empty());
    // the failed launch did not use up an id
    assert_eq!(start(&mut reg, "WasmModule", "x", 1).unwrap(), 0);
}

#[test]
fn unnamed_task_gets_placeholder_name() {
    let mut reg: TaskRegistry<u32> = TaskRegistry::new();
    let id = register_launched(&mut reg, TaskKind::SandboxedModule, None, 42, Ok(1u32)).unwrap();
    assert_eq!(reg.list()[0].name, "unnamed");
    assert_eq!(reg.get(id).unwrap().created_at, 42);
}

#[test]
fn failed_termination_still_removes_task() {
    let mut reg: TaskRegistry<u32> = TaskRegistry::new();
    let id = start(&mut reg, "WasmModule", "a", 1).unwrap();
    begin_stop(&mut reg, id).unwrap();
    let status = StopStatus::after_termination(&Err("stuck".to_string()));
    assert_eq!(status, StopStatus::TerminationFailed);
    assert_eq!(status.status_text(), "fail to terminate");
    assert!(!reg.contains(id));
}

#[test]
fn requested_ids() {
    assert_eq!(requested_id(Some(3)), Ok(3));
    assert_eq!(requested_id(Some(0)), Ok(0));
    assert_eq!(requested_id(Some(-1)), Err(ServiceError::Validation));
    assert_eq!(requested_id(None), Err(ServiceError::Validation));
    let rsp = StopPostResponse::rejected(&ServiceError::Validation);
    assert_eq!(rsp.status, "invalid request");
}

#[test]
fn log_target_by_kind() {
    let mut reg: TaskRegistry<u32> = TaskRegistry::new();
    let w = start(&mut reg, "WasmModule", "w", 10).unwrap();
    let k = start(&mut reg, "JsonEunomia", "k", 11).unwrap();
    assert_eq!(log_target(&reg, w).unwrap().handle, 10);
    assert!(matches!(log_target(&reg, k), Err(ServiceError::NotImplemented)));
    assert!(matches!(log_target(&reg, 42), Err(ServiceError::NotFound)));
    assert_eq!(reg.get(k).unwrap().name, "k");
}

#[test]
fn error_messages() {
    assert_eq!(ServiceError::NotImplemented.message(), "not implemented");
    assert_eq!(ServiceError::Io("disk full".to_string()).message(), "io error: disk full");
    assert_eq!(ServiceError::Termination("x".to_string()).message(), "fail to terminate: x");
    assert_eq!(ServiceError::IdsExhausted.message(), "task ids exhausted");
    assert_eq!(ServiceError::NotFound.message(), "program with specified id not found");
}

#[test]
fn kinds_by_wire_name_and_path() {
    for k in [TaskKind::KernelProgram, TaskKind::SandboxedModule, TaskKind::Unsupported] {
        assert_eq!(TaskKind::from_type_name(&k.wire_name()), Some(k));
    }
    assert_eq!(TaskKind::KernelProgram.wire_name(), "JsonEunomia");
    assert_eq!(TaskKind::from_path("dir/app.wasm"), Some(TaskKind::SandboxedModule));
    assert_eq!(TaskKind::from_path("package.json"), Some(TaskKind::KernelProgram));
    assert_eq!(TaskKind::from_path("a.tar"), Some(TaskKind::Unsupported));
    assert_eq!(TaskKind::from_path("a.txt"), None);
    assert_eq!(TaskKind::from_path("json"), None);
}
