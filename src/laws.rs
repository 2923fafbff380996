use vstd::prelude::*;
use vstd::utf8::valid_utf8;

use crate::engine::{
    next, sentinel, settled, valid_request, ActionModel, EngineModel, FetchOutcome, PhaseModel,
    SandboxOutcome, Trigger,
};
use crate::error::{EngineError, FetchError, SandboxError};
use crate::fetch::STATUS_OK;
use crate::sandbox::MAX_INPUT_BYTES;
use crate::host::{copied_in, window_fits, word};
use crate::sandbox::{
    entry_exported, guest_ends, guest_leaves, memory_exported, sandbox_outcome, wasm_accepts,
    wasm_links, wasm_starts,
};

verus! {

/// The states and actions of one invocation: a tick on an idle engine,
/// then the program fetch result, then the input fetch result.
pub open spec fn episode(s: EngineModel, prog: FetchOutcome, input: FetchOutcome, run: SandboxOutcome) -> (
    EngineModel,
    ActionModel,
    ActionModel,
    ActionModel,
) {
    let (s1, a1) = next(s, Trigger::Tick, run);
    let (s2, a2) = next(s1, Trigger::ProgramFetched(prog), run);
    let (s3, a3) = next(s2, Trigger::InputFetched(input), run);
    (s3, a1, a2, a3)
}

pub open spec fn emits(a: ActionModel) -> int {
    if a is Emit {
        1
    } else {
        0
    }
}

/// Whether every stage of an invocation of `register` succeeds.
pub open spec fn succeeds(
    register: (u32, Seq<u8>),
    prog: FetchOutcome,
    input: FetchOutcome,
    run: SandboxOutcome,
) -> bool {
    &&& valid_request(register)
    &&& prog matches Ok((code, _)) && code == STATUS_OK
    &&& valid_utf8(register.1)
    &&& input matches Ok((code, body)) && code == STATUS_OK && body.len() <= MAX_INPUT_BYTES
    &&& run is Ok
}

/// After a tick on an idle engine and the fetch results it asks for, the
/// engine is idle again and the register holds `(0, ∅)`, whatever the
/// register held and however each stage ended.
pub proof fn lemma_tick_settles(
    s: EngineModel,
    prog: FetchOutcome,
    input: FetchOutcome,
    run: SandboxOutcome,
)
    requires
        s.phase is Idle,
    ensures
        episode(s, prog, input, run).0 == settled(),
{
}

/// Every step that leaves the engine idle, after a tick on an idle engine or
/// from an invocation in flight, leaves the register holding `(0, ∅)`.
pub proof fn lemma_idle_after_tick_or_invocation_is_clear(
    s: EngineModel,
    t: Trigger,
    run: SandboxOutcome,
)
    requires
        t is Tick || !(s.phase is Idle),
        next(s, t, run).0.phase is Idle,
    ensures
        next(s, t, run).0 == settled(),
{
}

/// One invocation emits at most once.
pub proof fn lemma_at_most_one_emission(
    s: EngineModel,
    prog: FetchOutcome,
    input: FetchOutcome,
    run: SandboxOutcome,
)
    requires
        s.phase is Idle,
    ensures
        ({
            let (_, a1, a2, a3) = episode(s, prog, input, run);
            emits(a1) + emits(a2) + emits(a3) <= 1
        }),
{
}

/// An invocation whose every stage succeeds emits exactly once; any other
/// emits nothing.
pub proof fn lemma_emits_iff_succeeds(
    s: EngineModel,
    prog: FetchOutcome,
    input: FetchOutcome,
    run: SandboxOutcome,
)
    requires
        s.phase is Idle,
    ensures
        ({
            let (_, a1, a2, a3) = episode(s, prog, input, run);
            emits(a1) + emits(a2) + emits(a3) == if succeeds(s.register, prog, input, run) {
                1int
            } else {
                0int
            }
        }),
{
}

/// A register with a zero agent id or an empty reference starts nothing:
/// the tick clears it, and no fetch, sandbox run or emission follows.
pub proof fn lemma_invalid_request_is_dropped(s: EngineModel, t: Trigger, run: SandboxOutcome)
    requires
        s.phase is Idle,
        !valid_request(s.register),
    ensures
        ({
            let (s1, a1) = next(s, Trigger::Tick, run);
            &&& s1 == settled()
            &&& a1 is NoExecution || a1 == ActionModel::Abort(EngineError::InvalidRequest)
            &&& !(t is Tick) ==> next(s1, t, run) == (s1, ActionModel::Ignored)
        }),
{
}

/// What is emitted is exactly the agent of the request and the output of
/// the sandbox run.
pub proof fn lemma_emission_is_sandbox_output(
    s: EngineModel,
    prog: FetchOutcome,
    input: FetchOutcome,
    run: SandboxOutcome,
    agent: u32,
    out: Seq<u8>,
)
    requires
        s.phase is Idle,
        episode(s, prog, input, run).3 == ActionModel::Emit(agent, out),
    ensures
        run == Ok::<Seq<u8>, SandboxError>(out),
        agent == s.register.0,
{
}

/// Ticks on an empty idle register leave it empty and emit nothing,
/// however many follow one another.
pub proof fn lemma_clearing_is_idempotent(run1: SandboxOutcome, run2: SandboxOutcome)
    ensures
        ({
            let (s1, a1) = next(settled(), Trigger::Tick, run1);
            let (s2, a2) = next(s1, Trigger::Tick, run2);
            &&& s1 == settled() && s2 == settled()
            &&& a1 is NoExecution && a2 is NoExecution
        }),
{
}

/// A fetch that answers with a status other than 200 ends the invocation
/// with `BadStatus` of that status, no emission and a cleared register.
pub proof fn lemma_bad_status_clears(
    s: EngineModel,
    code: u16,
    body: Seq<u8>,
    run: SandboxOutcome,
)
    requires
        !(s.phase is Idle),
        code != STATUS_OK,
    ensures
        ({
            let t = if s.phase is AwaitingProgram {
                Trigger::ProgramFetched(Ok((code, body)))
            } else {
                Trigger::InputFetched(Ok((code, body)))
            };
            next(s, t, run) == (
                settled(),
                ActionModel::Abort(EngineError::Fetch(FetchError::BadStatus(code))),
            )
        }),
{
}

/// A fetch that fails (the deadline passes, the transport breaks) ends the
/// invocation with that error, no emission and a cleared register.
pub proof fn lemma_failed_fetch_clears(s: EngineModel, e: FetchError, run: SandboxOutcome)
    requires
        !(s.phase is Idle),
    ensures
        ({
            let t = if s.phase is AwaitingProgram {
                Trigger::ProgramFetched(Err(e))
            } else {
                Trigger::InputFetched(Err(e))
            };
            next(s, t, run) == (settled(), ActionModel::Abort(EngineError::Fetch(e)))
        }),
{
}

/// A sandbox run that fails (a trap, a missing export) ends the invocation
/// with that error, no emission and a cleared register.
pub proof fn lemma_failed_run_clears(
    agent_id: u32,
    program: Seq<u8>,
    register: (u32, Seq<u8>),
    input: Seq<u8>,
    e: SandboxError,
)
    requires
        input.len() <= MAX_INPUT_BYTES,
    ensures
        next(
            EngineModel { register, phase: PhaseModel::AwaitingInput { agent_id, program } },
            Trigger::InputFetched(Ok((STATUS_OK, input))),
            Err(e),
        ) == (settled(), ActionModel::Abort(EngineError::Sandbox(e))),
{
}

/// An agent that calls `get_input(ptr, n)` and then `set_output(ptr, n)`,
/// with `n` the length of the data and the window inside memory, reads back
/// exactly the data: the host functions round-trip it unchanged.
pub proof fn lemma_identity_round_trip(mem: Seq<u8>, data: Seq<u8>, ptr: i32, len: i32)
    requires
        window_fits(mem.len() as int, ptr, len),
        word(len) == data.len(),
    ensures
        copied_in(mem, data, word(ptr), word(len)).subrange(word(ptr), word(ptr) + word(len))
            == data,
{
    assert(copied_in(mem, data, word(ptr), word(len)).subrange(word(ptr), word(ptr) + word(len))
        =~= data);
}

/// A successful run outputs exactly the host data that the guest's call
/// left: the bytes of its last accepted `set_output`, or the input snapshot
/// where it made none; and the call returned without a trap or a host fault.
pub proof fn lemma_output_is_host_data(wasm: Seq<u8>, input: Seq<u8>, out: Seq<u8>)
    requires
        sandbox_outcome(wasm, input) == Ok::<Seq<u8>, SandboxError>(out),
    ensures
        out == guest_leaves(wasm, input).0,
        guest_leaves(wasm, input).1 is None,
        guest_ends(wasm, input) is Returned,
{
}

/// An input body longer than `MAX_INPUT_BYTES` ends the invocation with
/// `ResourceLimit` before any sandbox run, with no emission and a cleared
/// register.
pub proof fn lemma_oversized_input_clears(
    agent_id: u32,
    program: Seq<u8>,
    register: (u32, Seq<u8>),
    input: Seq<u8>,
    run: SandboxOutcome,
)
    requires
        input.len() > MAX_INPUT_BYTES,
    ensures
        next(
            EngineModel { register, phase: PhaseModel::AwaitingInput { agent_id, program } },
            Trigger::InputFetched(Ok((STATUS_OK, input))),
            run,
        ) == (settled(), ActionModel::Abort(EngineError::Sandbox(SandboxError::ResourceLimit))),
{
}

/// A module that gets as far as its entry, whose call traps (fuel running
/// out included) without a host-side fault, gives `TrapError`; one whose
/// call grows memory past the ceiling gives `ResourceLimit`.
pub proof fn lemma_guest_trap_or_growth_fails(wasm: Seq<u8>, input: Seq<u8>)
    requires
        input.len() <= MAX_INPUT_BYTES,
        wasm_accepts(wasm) && wasm_links(wasm) && wasm_starts(wasm, input),
        memory_exported(wasm) && entry_exported(wasm),
        !(guest_ends(wasm, input) is Returned),
        guest_leaves(wasm, input).1 is None,
    ensures
        guest_ends(wasm, input) is Trapped ==> sandbox_outcome(wasm, input) == Err::<
            Seq<u8>,
            SandboxError,
        >(SandboxError::TrapError),
        guest_ends(wasm, input) is LimitReached ==> sandbox_outcome(wasm, input) == Err::<
            Seq<u8>,
            SandboxError,
        >(SandboxError::ResourceLimit),
{
}

/// A module that instantiates and starts but lacks the `memory` export or
/// the `wasm_function: () -> ()` export gives `ExportError`, and its entry
/// never runs.
pub proof fn lemma_missing_export_is_export_error(wasm: Seq<u8>, input: Seq<u8>)
    requires
        input.len() <= MAX_INPUT_BYTES,
        wasm_accepts(wasm) && wasm_links(wasm) && wasm_starts(wasm, input),
        !memory_exported(wasm) || !entry_exported(wasm),
    ensures
        sandbox_outcome(wasm, input) == Err::<Seq<u8>, SandboxError>(SandboxError::ExportError),
{
}

} // verus!
