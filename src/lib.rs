//! An off-chain execution engine for AI agents: a single-slot request
//! register, a controller that drives one invocation at a time, and a
//! deterministic WebAssembly sandbox exposing a two-function host interface.
//!
//! The controller never performs I/O itself. It answers each trigger (a
//! tick, a fetch result) with an action for the surrounding system: fetch a
//! program, fetch an input, emit an output, or report why nothing is emitted.
pub mod engine;
pub mod error;
pub mod fetch;
pub mod host;
pub mod inflation;
pub mod laws;
pub mod sandbox;

pub use engine::{Action, Error, Event, Origin, Pallet, MAX_URI_BYTES};
pub use error::{EngineError, FetchError, SandboxError};
pub use fetch::{accept_input, accept_response, input_location, HttpResponse, FETCH_DEADLINE_MS, STATUS_OK};
pub use host::{get_input, set_output, HostState, MAX_OUTPUT_BYTES};
pub use inflation::{BlockNumber, CycleConfiguration, EraNumber, PeriodNumber};
pub use sandbox::{
    execute_wasm, finish_invocation, GuestEnd, ENTRY_EXPORT, FUEL_BUDGET, MAX_MEMORY_BYTES, HOST_MODULE, MAX_INPUT_BYTES, MEMORY_EXPORT,
};
