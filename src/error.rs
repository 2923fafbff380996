use vstd::prelude::*;

verus! {

/// Why a fetch of a program or an input did not yield bytes.
#[derive(Clone, Copy, Debug, PartialEq, Eq, Structural)]
pub enum FetchError {
    /// The input reference is not valid UTF-8.
    InvalidUri,
    /// The transport failed before the deadline.
    IoError,
    /// No response arrived within the deadline.
    DeadlineReached,
    /// The response status was not 200; it carries the status.
    BadStatus(u16),
    /// An opaque failure upstream.
    Unknown,
}

/// Why the sandbox produced no output.
#[derive(Clone, Copy, Debug, PartialEq, Eq, Structural)]
pub enum SandboxError {
    /// The program bytes are not a valid module.
    CompileError,
    /// A host function could not be registered.
    LinkError,
    /// Instantiation or the start section failed.
    InstantiationError,
    /// `memory` or `wasm_function: () -> ()` is not exported.
    ExportError,
    /// The guest trapped.
    TrapError,
    /// An input or output exceeded its size ceiling.
    ResourceLimit,
    /// A host function was asked to touch bytes outside guest memory.
    MemoryOutOfBounds,
}

/// Why an invocation ended without an emission.
#[derive(Clone, Copy, Debug, PartialEq, Eq, Structural)]
pub enum EngineError {
    /// The register held an invalid request.
    InvalidRequest,
    Fetch(FetchError),
    Sandbox(SandboxError),
}

} // verus!
