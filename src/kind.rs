//! The closed set of task kinds and the wire names that select them.
use vstd::prelude::*;

use crate::text::{ends_with, ends_with_spec};

verus! {

/// What a task runs, and so which execution runtime drives it.
#[derive(Debug, Clone, Copy, PartialEq, Eq, Structural)]
pub enum TaskKind {
    /// A pre-compiled in-kernel observability program.
    KernelProgram,
    /// A portable bytecode module run inside an isolated runtime.
    SandboxedModule,
    /// A packaged archive: recognised, but no runtime can start it.
    Unsupported,
}

/// The kind that a wire program type names, if it names one.
pub open spec fn kind_of_type_name(name: Seq<char>) -> Option<TaskKind> {
    if name == "JsonEunomia"@ {
        Some(TaskKind::KernelProgram)
    } else if name == "WasmModule"@ {
        Some(TaskKind::SandboxedModule)
    } else if name == "Tar"@ {
        Some(TaskKind::Unsupported)
    } else {
        None
    }
}

/// The wire program type that names each kind.
pub open spec fn wire_name_of(k: TaskKind) -> Seq<char> {
    match k {
        TaskKind::KernelProgram => "JsonEunomia"@,
        TaskKind::SandboxedModule => "WasmModule"@,
        TaskKind::Unsupported => "Tar"@,
    }
}

/// The kind of an artifact, told by its file extension.
pub open spec fn kind_of_path(path: Seq<char>) -> Option<TaskKind> {
    if ends_with_spec(path, ".json"@) {
        Some(TaskKind::KernelProgram)
    } else if ends_with_spec(path, ".wasm"@) {
        Some(TaskKind::SandboxedModule)
    } else if ends_with_spec(path, ".tar"@) {
        Some(TaskKind::Unsupported)
    } else {
        None
    }
}

impl TaskKind {
    /// Reads the `program_type` field of a start request.
    pub fn from_type_name(name: &str) -> (r: Option<TaskKind>)
        ensures
            r == kind_of_type_name(name@),
    {
        proof {
            reveal_strlit("JsonEunomia");
            reveal_strlit("WasmModule");
            reveal_strlit("Tar");
        }
        let owned = name.to_owned();
        if owned == String::from_str("JsonEunomia") {
            Some(TaskKind::KernelProgram)
        } else if owned == String::from_str("WasmModule") {
            Some(TaskKind::SandboxedModule)
        } else if owned == String::from_str("Tar") {
            Some(TaskKind::Unsupported)
        } else {
            None
        }
    }

    /// The wire program type that a start request carries for this kind;
    /// reading it back gives the same kind.
    pub fn wire_name(&self) -> (r: String)
        ensures
            r@ == wire_name_of(*self),
            kind_of_type_name(r@) == Some(*self),
    {
        proof {
            reveal_strlit("JsonEunomia");
            reveal_strlit("WasmModule");
            reveal_strlit("Tar");
        }
        match self {
            TaskKind::KernelProgram => String::from_str("JsonEunomia"),
            TaskKind::SandboxedModule => String::from_str("WasmModule"),
            TaskKind::Unsupported => String::from_str("Tar"),
        }
    }

    /// The kind of the artifact at `path`, by its extension: `.json` for a
    /// kernel program, `.wasm` for a bytecode module, `.tar` for an archive.
    pub fn from_path(path: &str) -> (r: Option<TaskKind>)
        ensures
            r == kind_of_path(path@),
    {
        if ends_with(path, ".json") {
            Some(TaskKind::KernelProgram)
        } else if ends_with(path, ".wasm") {
            Some(TaskKind::SandboxedModule)
        } else if ends_with(path, ".tar") {
            Some(TaskKind::Unsupported)
        } else {
            None
        }
    }
}

} // verus!
