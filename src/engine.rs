use vstd::prelude::*;
use vstd::utf8::{decode_utf8, valid_utf8};

use crate::error::{EngineError, FetchError, SandboxError};
use crate::fetch::{accept_input, accept_response, input_location, HttpResponse, STATUS_OK};
use crate::sandbox::{execute_wasm, sandbox_outcome, MAX_INPUT_BYTES};

verus! {

/// Longest input reference, in bytes, that the register accepts.
pub const MAX_URI_BYTES: usize = 2048;

/// Who submits a request.
#[derive(Clone, Copy, Debug, PartialEq, Eq, Structural)]
pub enum Origin {
    /// A signed submission by the given account.
    Signed(u64),
    Root,
    Unsigned,
}

/// What the engine reports on an accepted submission.
#[derive(Debug, PartialEq, Eq)]
pub enum Event {
    AiAgentExecutionRequested { nft_id: u32, input_uri: Vec<u8>, who: u64 },
}

/// Why a submission was refused.
#[derive(Clone, Copy, Debug, PartialEq, Eq, Structural)]
pub enum Error {
    /// The agent id is zero or the input reference is empty.
    NoneValue,
    /// The input reference is longer than `MAX_URI_BYTES`.
    StorageOverflow,
    /// The submission is not signed.
    BadOrigin,
}

/// What the surrounding system is asked to do after a step.
#[derive(Debug, PartialEq, Eq)]
pub enum Action {
    /// The register held no request.
    NoExecution,
    /// An invocation is in flight; the tick is ignored.
    Busy,
    /// A fetch result arrived that the engine was not waiting for.
    Ignored,
    /// Fetch the program of this agent.
    FetchProgram(u32),
    /// Fetch the input at this location.
    FetchInput(String),
    /// Hand `(agent, output)` to the result sink.
    Emit(u32, Vec<u8>),
    /// The invocation ended without output.
    Abort(EngineError),
}

/// The spec value of an `Action`.
pub enum ActionModel {
    NoExecution,
    Busy,
    Ignored,
    FetchProgram(u32),
    FetchInput(Seq<char>),
    Emit(u32, Seq<u8>),
    Abort(EngineError),
}

impl View for Action {
    type V = ActionModel;

    open spec fn view(&self) -> ActionModel {
        match self {
            Action::NoExecution => ActionModel::NoExecution,
            Action::Busy => ActionModel::Busy,
            Action::Ignored => ActionModel::Ignored,
            Action::FetchProgram(id) => ActionModel::FetchProgram(*id),
            Action::FetchInput(s) => ActionModel::FetchInput(s@),
            Action::Emit(id, out) => ActionModel::Emit(*id, out@),
            Action::Abort(e) => ActionModel::Abort(*e),
        }
    }
}

/// Where the controller stands.
pub enum Phase {
    Idle,
    /// Waiting for the program of a request snapshot.
    AwaitingProgram { agent_id: u32, uri: Vec<u8> },
    /// Waiting for the input, with the program in hand.
    AwaitingInput { agent_id: u32, program: Vec<u8> },
}

pub enum PhaseModel {
    Idle,
    AwaitingProgram { agent_id: u32, uri: Seq<u8> },
    AwaitingInput { agent_id: u32, program: Seq<u8> },
}

impl View for Phase {
    type V = PhaseModel;

    open spec fn view(&self) -> PhaseModel {
        match self {
            Phase::Idle => PhaseModel::Idle,
            Phase::AwaitingProgram { agent_id, uri } => PhaseModel::AwaitingProgram {
                agent_id: *agent_id,
                uri: uri@,
            },
            Phase::AwaitingInput { agent_id, program } => PhaseModel::AwaitingInput {
                agent_id: *agent_id,
                program: program@,
            },
        }
    }
}

/// The spec value of the engine: the register and the phase.
pub struct EngineModel {
    pub register: (u32, Seq<u8>),
    pub phase: PhaseModel,
}

/// A fetch result as the controller sees it.
pub type FetchOutcome = Result<(u16, Seq<u8>), FetchError>;

/// What a sandbox run returned.
pub type SandboxOutcome = Result<Seq<u8>, SandboxError>;

/// An event from the surrounding system.
pub enum Trigger {
    Tick,
    ProgramFetched(FetchOutcome),
    InputFetched(FetchOutcome),
}

/// The empty register.
pub open spec fn sentinel() -> (u32, Seq<u8>) {
    (0u32, Seq::<u8>::empty())
}

/// A request is valid when its agent id is not zero and its reference is not empty.
pub open spec fn valid_request(r: (u32, Seq<u8>)) -> bool {
    r.0 != 0 && r.1.len() > 0
}

/// The engine back at `Idle` with the register cleared.
pub open spec fn settled() -> EngineModel {
    EngineModel { register: sentinel(), phase: PhaseModel::Idle }
}

/// The view of a fetch result handed over by the surrounding system.
pub open spec fn outcome_of(r: Result<HttpResponse, FetchError>) -> FetchOutcome {
    match r {
        Ok(resp) => Ok((resp.code, resp.body@)),
        Err(e) => Err(e),
    }
}

/// The sandbox outcome that an input fetch result leads to: the run of the
/// program in hand on the fetched body.
pub open spec fn input_run(s: EngineModel, fetched: Result<HttpResponse, FetchError>) -> SandboxOutcome {
    match (s.phase, fetched) {
        (PhaseModel::AwaitingInput { program, .. }, Ok(response)) => sandbox_outcome(
            program,
            response.body@,
        ),
        _ => Err(SandboxError::TrapError),
    }
}

/// One step of the controller: from a state, a trigger and (where the step
/// runs the sandbox) the sandbox's outcome, to the next state and the action.
pub open spec fn next(s: EngineModel, t: Trigger, run: SandboxOutcome) -> (EngineModel, ActionModel) {
    match s.phase {
        PhaseModel::Idle => match t {
            Trigger::Tick => if s.register == sentinel() {
                (settled(), ActionModel::NoExecution)
            } else if !valid_request(s.register) {
                (settled(), ActionModel::Abort(EngineError::InvalidRequest))
            } else {
                (
                    EngineModel {
                        register: s.register,
                        phase: PhaseModel::AwaitingProgram {
                            agent_id: s.register.0,
                            uri: s.register.1,
                        },
                    },
                    ActionModel::FetchProgram(s.register.0),
                )
            },
            _ => (s, ActionModel::Ignored),
        },
        PhaseModel::AwaitingProgram { agent_id, uri } => match t {
            Trigger::Tick => (s, ActionModel::Busy),
            Trigger::InputFetched(_) => (s, ActionModel::Ignored),
            Trigger::ProgramFetched(Err(e)) => (
                settled(),
                ActionModel::Abort(EngineError::Fetch(e)),
            ),
            Trigger::ProgramFetched(Ok((code, program))) => if code != STATUS_OK {
                (settled(), ActionModel::Abort(EngineError::Fetch(FetchError::BadStatus(code))))
            } else if !valid_utf8(uri) {
                (settled(), ActionModel::Abort(EngineError::Fetch(FetchError::InvalidUri)))
            } else {
                (
                    EngineModel {
                        register: s.register,
                        phase: PhaseModel::AwaitingInput { agent_id, program },
                    },
                    ActionModel::FetchInput(decode_utf8(uri)),
                )
            },
        },
        PhaseModel::AwaitingInput { agent_id, program } => match t {
            Trigger::Tick => (s, ActionModel::Busy),
            Trigger::ProgramFetched(_) => (s, ActionModel::Ignored),
            Trigger::InputFetched(Err(e)) => (settled(), ActionModel::Abort(EngineError::Fetch(e))),
            Trigger::InputFetched(Ok((code, input))) => if code != STATUS_OK {
                (settled(), ActionModel::Abort(EngineError::Fetch(FetchError::BadStatus(code))))
            } else if input.len() > MAX_INPUT_BYTES {
                (settled(), ActionModel::Abort(EngineError::Sandbox(SandboxError::ResourceLimit)))
            } else {
                match run {
                    Ok(out) => (settled(), ActionModel::Emit(agent_id, out)),
                    Err(e) => (settled(), ActionModel::Abort(EngineError::Sandbox(e))),
                }
            },
        },
    }
}

/// The engine: the single-slot request register and the controller that
/// drains it, one invocation at a time.
pub struct Pallet {
    agent_id: u32,
    input_uri: Vec<u8>,
    phase: Phase,
}

impl View for Pallet {
    type V = EngineModel;

    closed spec fn view(&self) -> EngineModel {
        EngineModel { register: (self.agent_id, self.input_uri@), phase: self.phase@ }
    }
}

impl Pallet {
    /// An idle engine with an empty register.
    pub fn new() -> (r: Pallet)
        ensures
            r@ == settled(),
    {
        let r = Pallet { agent_id: 0, input_uri: Vec::new(), phase: Phase::Idle };
        assert(r@.register.1 =~= Seq::<u8>::empty());
        r
    }

    /// A snapshot of the register; reading does not drain it.
    pub fn ai_agents_executions(&self) -> (r: (u32, Vec<u8>))
        ensures
            r.0 == self@.register.0,
            r.1@ == self@.register.1,
    {
        (self.agent_id, self.input_uri.clone())
    }

    /// Whether an invocation is in flight.
    pub fn is_working(&self) -> (r: bool)
        ensures
            r == !(self@.phase is Idle),
    {
        match self.phase {
            Phase::Idle => false,
            _ => true,
        }
    }

    fn clear(&mut self)
        ensures
            final(self)@ == settled(),
    {
        self.agent_id = 0;
        self.input_uri = Vec::new();
        self.phase = Phase::Idle;
        assert(self@.register.1 =~= Seq::<u8>::empty());
    }

    /// Submits a request: a signed origin, a non-zero agent id and a
    /// non-empty reference of at most `MAX_URI_BYTES` bytes overwrite the
    /// register; anything else is refused and changes nothing.
    pub fn run(&mut self, origin: Origin, nft_id: u32, input_uri: Vec<u8>) -> (r: Result<
        Event,
        Error,
    >)
        ensures
            !(origin is Signed) ==> r == Err::<Event, Error>(Error::BadOrigin),
            origin is Signed && (nft_id == 0 || input_uri@.len() == 0) ==> r == Err::<Event, Error>(
                Error::NoneValue,
            ),
            origin is Signed && nft_id != 0 && input_uri@.len() > MAX_URI_BYTES ==> r == Err::<
                Event,
                Error,
            >(Error::StorageOverflow),
            r is Err ==> final(self)@ == old(self)@,
            r is Ok <==> (origin is Signed && nft_id != 0 && 0 < input_uri@.len() <= MAX_URI_BYTES),
            r matches Ok(Event::AiAgentExecutionRequested { nft_id: n, input_uri: u, who }) ==> (
            origin == Origin::Signed(who) && n == nft_id && u@ == input_uri@ && final(self)@
                == EngineModel { register: (nft_id, input_uri@), phase: old(self)@.phase }),
    {
        let who = match origin {
            Origin::Signed(who) => who,
            _ => return Err(Error::BadOrigin),
        };
        if nft_id == 0 || input_uri.len() == 0 {
            return Err(Error::NoneValue);
        }
        if input_uri.len() > MAX_URI_BYTES {
            return Err(Error::StorageOverflow);
        }
        self.agent_id = nft_id;
        self.input_uri = input_uri.clone();
        Ok(Event::AiAgentExecutionRequested { nft_id, input_uri, who })
    }

    /// A tick: an idle engine with a valid request starts an invocation
    /// and asks for the program; an idle engine with anything else clears
    /// the register; a working engine ignores the tick.
    pub fn offchain_worker(&mut self) -> (r: Action)
        ensures
            (final(self)@, r@) == next(old(self)@, Trigger::Tick, Err(SandboxError::TrapError)),
    {
        match self.phase {
            Phase::Idle => {},
            _ => return Action::Busy,
        }
        if self.agent_id == 0 && self.input_uri.len() == 0 {
            assert(self@.register =~= sentinel());
            self.clear();
            return Action::NoExecution;
        }
        if self.agent_id == 0 || self.input_uri.len() == 0 {
            self.clear();
            return Action::Abort(EngineError::InvalidRequest);
        }
        self.phase = Phase::AwaitingProgram { agent_id: self.agent_id, uri: self.input_uri.clone() };
        Action::FetchProgram(self.agent_id)
    }
    /// The program fetch has come back. A failure, a status other than 200
    /// or a reference that is not UTF-8 ends the invocation and clears the
    /// register; otherwise the engine keeps the program and asks for the input.
    pub fn on_program_fetched(&mut self, fetched: Result<HttpResponse, FetchError>) -> (r: Action)
        ensures
            (final(self)@, r@) == next(
                old(self)@,
                Trigger::ProgramFetched(outcome_of(fetched)),
                Err(SandboxError::TrapError),
            ),
    {
        let (agent_id, uri) = match &self.phase {
            Phase::AwaitingProgram { agent_id, uri } => (*agent_id, uri.clone()),
            _ => return Action::Ignored,
        };
        let program = match fetched {
            Err(e) => {
                self.clear();
                return Action::Abort(EngineError::Fetch(e));
            },
            Ok(response) => match accept_response(response) {
                Ok(body) => body,
                Err(e) => {
                    self.clear();
                    return Action::Abort(EngineError::Fetch(e));
                },
            },
        };
        match input_location(uri) {
            Err(e) => {
                self.clear();
                Action::Abort(EngineError::Fetch(e))
            },
            Ok(location) => {
                self.phase = Phase::AwaitingInput { agent_id, program };
                Action::FetchInput(location)
            },
        }
    }

    /// The input fetch has come back. A failure or a status other than 200
    /// ends the invocation; otherwise the sandbox runs the program on the
    /// body and its output is emitted, or its error reported. Either way
    /// the register is cleared.
    pub fn on_input_fetched(&mut self, fetched: Result<HttpResponse, FetchError>) -> (r: Action)
        ensures
            (final(self)@, r@) == next(
                old(self)@,
                Trigger::InputFetched(outcome_of(fetched)),
                input_run(old(self)@, fetched),
            ),
    {
        let (agent_id, program) = match &self.phase {
            Phase::AwaitingInput { agent_id, program } => (*agent_id, program.clone()),
            _ => return Action::Ignored,
        };
        let input = match fetched {
            Err(e) => {
                self.clear();
                return Action::Abort(EngineError::Fetch(e));
            },
            Ok(response) => match accept_input(response) {
                Ok(body) => body,
                Err(e) => {
                    self.clear();
                    return Action::Abort(e);
                },
            },
        };
        let result = execute_wasm(program, input);
        self.clear();
        match result {
            Ok(output) => Action::Emit(agent_id, output),
            Err(e) => Action::Abort(EngineError::Sandbox(e)),
        }
    }
}

} // verus!
