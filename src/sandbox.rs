use vstd::prelude::*;

use crate::error::SandboxError;
use crate::host::{get_input, refuse_without_memory, set_output, HostState, MAX_OUTPUT_BYTES};

verus! {

/// Largest input, in bytes, that the sandbox accepts.
pub const MAX_INPUT_BYTES: usize = 1048576;

/// Fuel given to each invocation. Every executed instruction burns fuel, so
/// a guest that loops forever runs dry and traps.
pub const FUEL_BUDGET: u64 = 100000000;

/// Ceiling on the guest's linear memory, in bytes (256 pages). A module
/// that declares more cannot be instantiated; a growth past it traps.
pub const MAX_MEMORY_BYTES: usize = 16777216;

/// The import namespace of the host functions.
pub const HOST_MODULE: &'static str = "env";

/// The export that holds the guest's linear memory.
pub const MEMORY_EXPORT: &'static str = "memory";

/// The guest's entry point, of type `() -> ()`.
pub const ENTRY_EXPORT: &'static str = "wasm_function";

#[verifier::external_type_specification]
#[verifier::external_body]
pub struct ExEngine(wasmi::Engine);

#[verifier::external_type_specification]
#[verifier::external_body]
pub struct ExModule(wasmi::Module);

#[verifier::external_type_specification]
#[verifier::external_body]
pub struct ExStoreLimits(wasmi::StoreLimits);

#[verifier::external_type_specification]
#[verifier::external_body]
#[verifier::reject_recursive_types(T)]
pub struct ExStore<T>(wasmi::Store<T>);

#[verifier::external_type_specification]
#[verifier::external_body]
#[verifier::reject_recursive_types(T)]
pub struct ExLinker<T>(wasmi::Linker<T>);

#[verifier::external_type_specification]
#[verifier::external_body]
pub struct ExFunc(wasmi::Func);

#[verifier::external_type_specification]
#[verifier::external_body]
pub struct ExInstancePre(wasmi::InstancePre);

#[verifier::external_type_specification]
#[verifier::external_body]
pub struct ExInstance(wasmi::Instance);

#[verifier::external_type_specification]
#[verifier::external_body]
#[verifier::reject_recursive_types(P)]
#[verifier::reject_recursive_types(R)]
pub struct ExTypedFunc<P, R>(wasmi::TypedFunc<P, R>);

/// Whether an engine of `new_engine` accepts `wasm` as a well-formed module.
pub uninterp spec fn wasm_accepts(wasm: Seq<u8>) -> bool;

/// The `(module, name)` pairs that a linker binds.
pub uninterp spec fn linker_bindings(linker: wasmi::Linker<HostState>) -> Set<(Seq<char>, Seq<char>)>;

/// Whether the module's imports resolve against the two host functions and
/// its instance can be allocated.
pub uninterp spec fn wasm_links(wasm: Seq<u8>) -> bool;

/// Whether the start section, if any, runs to completion within
/// `FUEL_BUDGET` on a fresh store holding `input`.
pub uninterp spec fn wasm_starts(wasm: Seq<u8>, input: Seq<u8>) -> bool;

/// Whether the instance exports a memory named `memory`.
pub uninterp spec fn memory_exported(wasm: Seq<u8>) -> bool;

/// Whether the instance exports `wasm_function` of type `() -> ()`.
pub uninterp spec fn entry_exported(wasm: Seq<u8>) -> bool;

/// How a call of the guest's entry ended.
#[derive(Clone, Copy, Debug, PartialEq, Eq, Structural)]
pub enum GuestEnd {
    /// It returned.
    Returned,
    /// It trapped, fuel exhaustion included.
    Trapped,
    /// It tried to grow memory past `MAX_MEMORY_BYTES`.
    LimitReached,
}

/// How the call of `wasm_function`, after the start section, ends.
pub uninterp spec fn guest_ends(wasm: Seq<u8>, input: Seq<u8>) -> GuestEnd;

/// The host data and the first host-side fault that the call of
/// `wasm_function` leaves.
pub uninterp spec fn guest_leaves(wasm: Seq<u8>, input: Seq<u8>) -> (Seq<u8>, Option<SandboxError>);

/// The bindings of a linker that holds exactly the two host functions.
pub open spec fn host_bindings() -> Set<(Seq<char>, Seq<char>)> {
    set![(HOST_MODULE@, "set_output"@), (HOST_MODULE@, "get_input"@)]
}

/// Relies on `wasmi::Engine::new`: an engine with the default configuration
/// but for fuel metering, which `Config::consume_fuel` turns on.
#[verifier::external_body]
fn new_engine() -> wasmi::Engine {
    let mut config = wasmi::Config::default();
    config.consume_fuel(true);
    wasmi::Engine::new(&config)
}

/// Relies on `wasmi::Module::new`: it parses and validates the bytes; every
/// engine here comes from `new_engine`, under which success depends on the
/// bytes alone.
#[verifier::external_body]
fn compile(engine: &wasmi::Engine, wasm: &Vec<u8>) -> (r: Option<wasmi::Module>)
    ensures
        r is Some == wasm_accepts(wasm@),
{
    wasmi::Module::new(engine, &wasm[..]).ok()
}

/// Relies on `wasmi::StoreLimitsBuilder`: limits that refuse a linear
/// memory above `max_bytes` and make a refused growth trap.
#[verifier::external_body]
pub(crate) fn memory_limits(max_bytes: usize) -> wasmi::StoreLimits {
    wasmi::StoreLimitsBuilder::new().memory_size(max_bytes).trap_on_grow_failure(true).build()
}

/// Relies on `wasmi::Store::new`: a store owning `state` as its host data;
/// on `Store::limiter`, which makes it enforce the state's limits; and on
/// `Store::add_fuel`, which pours `fuel` into it. The store is fresh, so its
/// fuel total cannot overflow, and an engine of `new_engine` meters fuel, so
/// the call does not fail.
#[verifier::external_body]
fn new_store(engine: &wasmi::Engine, state: HostState, fuel: u64) -> wasmi::Store<HostState> {
    let mut store = wasmi::Store::new(engine, state);
    store.limiter(|state| &mut state.limits);
    let _ = store.add_fuel(fuel);
    store
}

/// The two host functions a guest may import.
#[derive(Clone, Copy)]
pub enum HostCall {
    GetInput,
    SetOutput,
}

/// Serves one host call on the guest's memory and the host state; `false`
/// where the call is refused, which traps the guest.
fn serve_host_call(call: HostCall, state: &mut HostState, memory: &mut [u8], ptr: i32, len: i32) -> bool {
    match call {
        HostCall::GetInput => get_input(state, memory, ptr, len),
        HostCall::SetOutput => set_output(state, memory, ptr, len),
    }
}

/// Relies on `wasmi::Func::wrap`: a host function of the store whose body
/// hands the guest's exported memory and the host state to
/// `serve_host_call` (or, with no memory exported, the state to
/// `refuse_without_memory`), and traps where that refuses.
#[verifier::external_body]
fn host_import(store: &mut wasmi::Store<HostState>, call: HostCall) -> wasmi::Func {
    wasmi::Func::wrap(store, move |mut caller: wasmi::Caller<'_, HostState>, ptr: i32, len: i32| {
        let ok = match caller.get_export(MEMORY_EXPORT).and_then(wasmi::Extern::into_memory) {
            Some(m) => {
                let (mem, state) = m.data_and_store_mut(&mut caller);
                serve_host_call(call, state, mem, ptr, len)
            },
            None => refuse_without_memory(caller.data_mut()),
        };
        ok.then_some(()).ok_or_else(|| wasmi::core::Trap::new("host call refused"))
    })
}

/// Relies on `wasmi::Linker::new`: a linker for the engine that binds nothing.
#[verifier::external_body]
fn new_linker(engine: &wasmi::Engine) -> (r: wasmi::Linker<HostState>)
    ensures
        linker_bindings(r) == Set::<(Seq<char>, Seq<char>)>::empty(),
{
    wasmi::Linker::new(engine)
}

/// Relies on `wasmi::Linker::define`: binds `module::name` to `func`; it
/// fails, binding nothing, exactly where that name is already bound.
#[verifier::external_body]
fn define(
    linker: &mut wasmi::Linker<HostState>,
    module: &str,
    name: &str,
    func: wasmi::Func,
) -> (r: bool)
    ensures
        r == !linker_bindings(*old(linker)).contains((module@, name@)),
        linker_bindings(*final(linker)) == linker_bindings(*old(linker)).insert((module@, name@)),
{
    linker.define(module, name, func).is_ok()
}

/// One invocation's wasmi handles. The module, store and linker come from
/// one engine and the instance and entry from that store, because `open` is
/// the only way to make a sandbox and the fields are private; each step of
/// the run is a method, so no handle can meet a stranger.
struct Sandbox {
    module: wasmi::Module,
    store: wasmi::Store<HostState>,
    linker: wasmi::Linker<HostState>,
    pre: Option<wasmi::InstancePre>,
    instance: Option<wasmi::Instance>,
    entry: Option<wasmi::TypedFunc<(), ()>>,
    ran: bool,
    wasm: Ghost<Seq<u8>>,
    input: Ghost<Seq<u8>>,
}

impl Sandbox {
    /// Where the sandbox stands between two steps of the run.
    spec fn stage(&self, pre: bool, instance: bool, entry: bool, ran: bool) -> bool {
        &&& self.pre is Some == pre
        &&& self.instance is Some == instance
        &&& self.entry is Some == entry
        &&& self.ran == ran
        &&& linker_bindings(self.linker) == host_bindings()
    }

    /// Compiles `wasm`, makes a store holding `input`, and binds the two
    /// host functions.
    fn open(wasm: &Vec<u8>, input: Vec<u8>) -> (r: Option<Sandbox>)
        ensures
            r is Some == wasm_accepts(wasm@),
            r matches Some(s) ==> s.wasm@ == wasm@ && s.input@ == input@ && s.stage(
                false,
                false,
                false,
                false,
            ),
    {
        let engine = new_engine();
        let module = match compile(&engine, wasm) {
            Some(m) => m,
            None => return None,
        };
        let ghost input_seq = input@;
        let mut store = new_store(&engine, HostState::new(input), FUEL_BUDGET);
        let output_func = host_import(&mut store, HostCall::SetOutput);
        let input_func = host_import(&mut store, HostCall::GetInput);
        let mut linker = new_linker(&engine);
        proof {
            reveal_strlit("set_output");
            reveal_strlit("get_input");
            assert("set_output"@[0] != "get_input"@[0]);
        }
        let bound_output = define(&mut linker, HOST_MODULE, "set_output", output_func);
        let bound_input = define(&mut linker, HOST_MODULE, "get_input", input_func);
        assert(bound_output && bound_input);
        assert(linker_bindings(linker) =~= host_bindings());
        Some(
            Sandbox {
                module,
                store,
                linker,
                pre: None,
                instance: None,
                entry: None,
                ran: false,
                wasm: Ghost(wasm@),
                input: Ghost(input_seq),
            },
        )
    }

    /// Relies on `wasmi::Linker::instantiate`: resolves the module's imports
    /// against the linker, which binds the two host functions, and allocates
    /// the instance; module, linker and store share an engine.
    #[verifier::external_body]
    fn instantiate(&mut self) -> (r: bool)
        requires
            old(self).stage(false, false, false, false),
        ensures
            r == wasm_links(old(self).wasm@),
            final(self).stage(r, false, false, false),
            final(self).wasm == old(self).wasm,
            final(self).input == old(self).input,
    {
        self.pre = self.linker.instantiate(&mut self.store, &self.module).ok();
        self.pre.is_some()
    }

    /// Relies on `wasmi::InstancePre::start`: runs the start section, if any,
    /// in the store the instance was allocated in.
    #[verifier::external_body]
    fn start(&mut self) -> (r: bool)
        requires
            old(self).stage(true, false, false, false),
        ensures
            r == wasm_starts(old(self).wasm@, old(self).input@),
            final(self).stage(false, r, false, false),
            final(self).wasm == old(self).wasm,
            final(self).input == old(self).input,
    {
        let pre = self.pre.take();
        self.instance = pre.and_then(|p| p.start(&mut self.store).ok());
        self.instance.is_some()
    }

    /// Relies on `wasmi::Instance::get_memory`: whether the instance exports
    /// a memory under `memory`.
    #[verifier::external_body]
    fn exports_memory(&self) -> (r: bool)
        requires
            self.stage(false, true, false, false),
        ensures
            r == memory_exported(self.wasm@),
    {
        self.instance.map_or(false, |i| i.get_memory(&self.store, MEMORY_EXPORT).is_some())
    }

    /// Relies on `wasmi::Instance::get_typed_func`: the export
    /// `wasm_function`, where it is a function of type `() -> ()`.
    #[verifier::external_body]
    fn resolve_entry(&mut self) -> (r: bool)
        requires
            old(self).stage(false, true, false, false),
        ensures
            r == entry_exported(old(self).wasm@),
            final(self).stage(false, true, r, false),
            final(self).wasm == old(self).wasm,
            final(self).input == old(self).input,
    {
        let store = &self.store;
        self.entry = self.instance.and_then(|i| i.get_typed_func::<(), ()>(store, ENTRY_EXPORT).ok());
        self.entry.is_some()
    }

    /// Relies on `wasmi::TypedFunc::call`: runs the entry in its own store;
    /// a trap whose code is `GrowthOperationLimited` is a refused memory
    /// growth, any other trap is a trap.
    #[verifier::external_body]
    fn call_entry(&mut self) -> (r: GuestEnd)
        requires
            old(self).stage(false, true, true, false),
        ensures
            r == guest_ends(old(self).wasm@, old(self).input@),
            final(self).stage(false, true, true, true),
            final(self).wasm == old(self).wasm,
            final(self).input == old(self).input,
    {
        self.ran = true;
        match self.entry.map(|f| f.call(&mut self.store, ())) {
            Some(Ok(())) => GuestEnd::Returned,
            Some(Err(t)) if matches!(t.trap_code(), Some(wasmi::core::TrapCode::GrowthOperationLimited)) => {
                GuestEnd::LimitReached
            },
            _ => GuestEnd::Trapped,
        }
    }

    /// Relies on `wasmi::Store::into_data`: the host data that the store owns.
    #[verifier::external_body]
    fn into_state(self) -> (r: HostState)
        requires
            self.stage(false, true, true, true),
        ensures
            (r.data@, r.fault) == guest_leaves(self.wasm@, self.input@),
    {
        self.store.into_data()
    }
}

/// The outcome of an invocation from how the entry ended and the data and
/// fault it left: the first host-side fault wins, then a trap or a refused
/// memory growth, then the output ceiling; otherwise the output is the data.
pub open spec fn finished(end: GuestEnd, data: Seq<u8>, fault: Option<SandboxError>) -> Result<
    Seq<u8>,
    SandboxError,
> {
    match fault {
        Some(e) => Err(e),
        None => if end is Trapped {
            Err(SandboxError::TrapError)
        } else if end is LimitReached {
            Err(SandboxError::ResourceLimit)
        } else if data.len() > MAX_OUTPUT_BYTES {
            Err(SandboxError::ResourceLimit)
        } else {
            Ok(data)
        },
    }
}

/// The outcome of running `wasm` on `input`: each stage that fails ends it
/// with its own error, in the order the stages run.
pub open spec fn sandbox_outcome(wasm: Seq<u8>, input: Seq<u8>) -> Result<Seq<u8>, SandboxError> {
    if input.len() > MAX_INPUT_BYTES {
        Err(SandboxError::ResourceLimit)
    } else if !wasm_accepts(wasm) {
        Err(SandboxError::CompileError)
    } else if !wasm_links(wasm) || !wasm_starts(wasm, input) {
        Err(SandboxError::InstantiationError)
    } else if !memory_exported(wasm) || !entry_exported(wasm) {
        Err(SandboxError::ExportError)
    } else {
        finished(
            guest_ends(wasm, input),
            guest_leaves(wasm, input).0,
            guest_leaves(wasm, input).1,
        )
    }
}

/// The spec value of a sandbox result.
pub open spec fn run_view(r: Result<Vec<u8>, SandboxError>) -> Result<Seq<u8>, SandboxError> {
    match r {
        Ok(out) => Ok(out@),
        Err(e) => Err(e),
    }
}

/// The outcome of an invocation, given how the entry ended and the host
/// state it left. The output is the host data: the bytes of the last
/// accepted `set_output`, or the input where there was none.
pub fn finish_invocation(end: GuestEnd, state: HostState) -> (r: Result<Vec<u8>, SandboxError>)
    ensures
        run_view(r) == finished(end, state.data@, state.fault),
{
    match state.fault {
        Some(e) => Err(e),
        None => {
            if end == GuestEnd::Trapped {
                Err(SandboxError::TrapError)
            } else if end == GuestEnd::LimitReached {
                Err(SandboxError::ResourceLimit)
            } else if state.data.len() > MAX_OUTPUT_BYTES {
                Err(SandboxError::ResourceLimit)
            } else {
                Ok(state.data)
            }
        },
    }
}

/// Runs `wasm` on `input` in a fresh sandbox: the module is compiled,
/// `env::get_input` and `env::set_output` are bound, the module is
/// instantiated and started, `memory` and `wasm_function: () -> ()` are
/// resolved and the entry is called. The result depends on the two
/// arguments alone.
pub fn execute_wasm(wasm: Vec<u8>, input: Vec<u8>) -> (r: Result<Vec<u8>, SandboxError>)
    ensures
        run_view(r) == sandbox_outcome(wasm@, input@),
{
    if input.len() > MAX_INPUT_BYTES {
        return Err(SandboxError::ResourceLimit);
    }
    let mut sandbox = match Sandbox::open(&wasm, input) {
        Some(s) => s,
        None => return Err(SandboxError::CompileError),
    };
    if !sandbox.instantiate() {
        return Err(SandboxError::InstantiationError);
    }
    if !sandbox.start() {
        return Err(SandboxError::InstantiationError);
    }
    if !sandbox.exports_memory() {
        return Err(SandboxError::ExportError);
    }
    if !sandbox.resolve_entry() {
        return Err(SandboxError::ExportError);
    }
    let end = sandbox.call_entry();
    finish_invocation(end, sandbox.into_state())
}

} // verus!
