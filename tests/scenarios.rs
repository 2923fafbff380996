use uomi_engine::{
    execute_wasm, Action, EngineError, FetchError, HttpResponse, Origin, Pallet, SandboxError,
};

const IDENTITY_AGENT: &str = r#"
(module
  (import "env" "get_input" (func $get_input (param i32 i32)))
  (import "env" "set_output" (func $set_output (param i32 i32)))
  (memory (export "memory") 1)
  (func (export "wasm_function")
    (call $get_input (i32.const 0) (i32.const 2))
    (call $set_output (i32.const 0) (i32.const 2))))
"#;

const DONE_AGENT: &str = r#"
(module
  (import "env" "set_output" (func $set_output (param i32 i32)))
  (memory (export "memory") 1)
  (data (i32.const 16) "done")
  (func (export "wasm_function")
    (call $set_output (i32.const 16) (i32.const 4))))
"#;

const NO_ENTRY_AGENT: &str = r#"
(module
  (memory (export "memory") 1)
  (func (export "other")))
"#;

fn module(text: &str) -> Vec<u8> {
    wat::parse_str(text).unwrap()
}

fn ok(body: &[u8]) -> Result<HttpResponse, FetchError> {
    Ok(HttpResponse {
        code: 200,
        body: body.to_vec(),
    })
}

fn submitted(agent: u32, uri: &str) -> Pallet {
    let mut pallet = Pallet::new();
    assert!(pallet.run(Origin::Signed(9), agent, uri.as_bytes().to_vec()).is_ok());
    pallet
}

fn cleared(pallet: &Pallet) -> bool {
    pallet.ai_agents_executions() == (0, Vec::new()) && !pallet.is_working()
}

#[test]
fn identity_agent_scenario_emits_input() {
    let mut pallet = submitted(1, "http://x/ok.txt");
    assert_eq!(pallet.offchain_worker(), Action::FetchProgram(1));
    assert_eq!(
        pallet.on_program_fetched(ok(&module(IDENTITY_AGENT))),
        Action::FetchInput("http://x/ok.txt".to_string())
    );
    assert_eq!(pallet.on_input_fetched(ok(b"hi")), Action::Emit(1, b"hi".to_vec()));
    assert!(cleared(&pallet));
}

#[test]
fn input_not_found_scenario_clears_without_emission() {
    let mut pallet = submitted(1, "http://x/404");
    assert_eq!(pallet.offchain_worker(), Action::FetchProgram(1));
    assert_eq!(
        pallet.on_program_fetched(ok(&module(IDENTITY_AGENT))),
        Action::FetchInput("http://x/404".to_string())
    );
    let action = pallet.on_input_fetched(Ok(HttpResponse {
        code: 404,
        body: b"not found".to_vec(),
    }));
    assert_eq!(
        action,
        Action::Abort(EngineError::Fetch(FetchError::BadStatus(404)))
    );
    assert!(cleared(&pallet));
}

#[test]
fn zero_agent_scenario_fetches_nothing() {
    let mut pallet = Pallet::new();
    // A zero agent id never passes submission, so the register only sees it
    // through a refused call; the tick then finds nothing to do.
    assert!(pallet
        .run(Origin::Signed(9), 0, b"http://x/ok.txt".to_vec())
        .is_err());
    assert_eq!(pallet.offchain_worker(), Action::NoExecution);
    assert_eq!(pallet.on_program_fetched(ok(&module(IDENTITY_AGENT))), Action::Ignored);
    assert_eq!(pallet.on_input_fetched(ok(b"hi")), Action::Ignored);
    assert!(cleared(&pallet));
}

#[test]
fn slow_input_scenario_reaches_deadline() {
    let mut pallet = submitted(7, "http://x/slow");
    assert_eq!(pallet.offchain_worker(), Action::FetchProgram(7));
    assert_eq!(
        pallet.on_program_fetched(ok(&module(IDENTITY_AGENT))),
        Action::FetchInput("http://x/slow".to_string())
    );
    assert_eq!(
        pallet.on_input_fetched(Err(FetchError::DeadlineReached)),
        Action::Abort(EngineError::Fetch(FetchError::DeadlineReached))
    );
    assert!(cleared(&pallet));
}

#[test]
fn missing_entry_scenario_reports_export_error() {
    let mut pallet = submitted(2, "http://x/ok.txt");
    assert_eq!(pallet.offchain_worker(), Action::FetchProgram(2));
    assert_eq!(
        pallet.on_program_fetched(ok(&module(NO_ENTRY_AGENT))),
        Action::FetchInput("http://x/ok.txt".to_string())
    );
    assert_eq!(
        pallet.on_input_fetched(ok(b"hi")),
        Action::Abort(EngineError::Sandbox(SandboxError::ExportError))
    );
    assert!(cleared(&pallet));
}

#[test]
fn empty_input_scenario_emits_done() {
    let mut pallet = submitted(3, "http://x/empty");
    assert_eq!(pallet.offchain_worker(), Action::FetchProgram(3));
    assert_eq!(
        pallet.on_program_fetched(ok(&module(DONE_AGENT))),
        Action::FetchInput("http://x/empty".to_string())
    );
    assert_eq!(pallet.on_input_fetched(ok(b"")), Action::Emit(3, b"done".to_vec()));
    assert!(cleared(&pallet));
}

#[test]
fn program_fetch_failure_clears_register() {
    let mut pallet = submitted(4, "http://x/ok.txt");
    pallet.offchain_worker();
    assert_eq!(
        pallet.on_program_fetched(Err(FetchError::IoError)),
        Action::Abort(EngineError::Fetch(FetchError::IoError))
    );
    assert!(cleared(&pallet));
    let mut pallet = submitted(4, "http://x/ok.txt");
    pallet.offchain_worker();
    assert_eq!(
        pallet.on_program_fetched(Ok(HttpResponse {
            code: 500,
            body: vec![],
        })),
        Action::Abort(EngineError::Fetch(FetchError::BadStatus(500)))
    );
    assert!(cleared(&pallet));
}

#[test]
fn non_utf8_reference_is_invalid_uri() {
    let mut pallet = Pallet::new();
    assert!(pallet.run(Origin::Signed(1), 5, vec![0xc3, 0x28]).is_ok());
    assert_eq!(pallet.offchain_worker(), Action::FetchProgram(5));
    assert_eq!(
        pallet.on_program_fetched(ok(&module(IDENTITY_AGENT))),
        Action::Abort(EngineError::Fetch(FetchError::InvalidUri))
    );
    assert!(cleared(&pallet));
}

#[test]
fn tick_while_working_is_ignored() {
    let mut pallet = submitted(6, "http://x/ok.txt");
    assert_eq!(pallet.offchain_worker(), Action::FetchProgram(6));
    assert_eq!(pallet.offchain_worker(), Action::Busy);
    assert_eq!(pallet.on_input_fetched(ok(b"hi")), Action::Ignored);
    assert!(pallet.is_working());
    assert_eq!(pallet.ai_agents_executions(), (6, b"http://x/ok.txt".to_vec()));
}

#[test]
fn two_empty_ticks_stay_empty() {
    let mut pallet = Pallet::new();
    assert_eq!(pallet.offchain_worker(), Action::NoExecution);
    assert_eq!(pallet.offchain_worker(), Action::NoExecution);
    assert!(cleared(&pallet));
}

#[test]
fn guest_trap_is_trap_error_through_engine() {
    let trap = module(
        r#"(module (memory (export "memory") 1) (func (export "wasm_function") unreachable))"#,
    );
    let mut pallet = submitted(8, "http://x/ok.txt");
    pallet.offchain_worker();
    pallet.on_program_fetched(ok(&trap));
    assert_eq!(
        pallet.on_input_fetched(ok(b"hi")),
        Action::Abort(EngineError::Sandbox(SandboxError::TrapError))
    );
    assert!(cleared(&pallet));
}

#[test]
fn identity_agent_round_trips_arbitrary_input() {
    let text = r#"
    (module
      (import "env" "get_input" (func $get_input (param i32 i32)))
      (import "env" "set_output" (func $set_output (param i32 i32)))
      (memory (export "memory") 1)
      (func (export "wasm_function")
        (call $get_input (i32.const 100) (i32.const 5))
        (call $set_output (i32.const 100) (i32.const 5))))
    "#;
    let input = vec![0u8, 1, 2, 254, 255];
    assert_eq!(execute_wasm(module(text), input.clone()), Ok(input));
}

#[test]
fn constant_agent_ignores_input() {
    assert_eq!(execute_wasm(module(DONE_AGENT), b"anything".to_vec()), Ok(b"done".to_vec()));
    assert_eq!(execute_wasm(module(DONE_AGENT), vec![]), Ok(b"done".to_vec()));
}

#[test]
fn oversized_input_aborts_before_sandbox() {
    let mut pallet = submitted(4, "http://x/big");
    pallet.offchain_worker();
    pallet.on_program_fetched(ok(&module(IDENTITY_AGENT)));
    assert_eq!(
        pallet.on_input_fetched(ok(&vec![0u8; uomi_engine::MAX_INPUT_BYTES + 1])),
        Action::Abort(EngineError::Sandbox(SandboxError::ResourceLimit))
    );
    assert!(cleared(&pallet));
}
