use uomi_engine::{
    execute_wasm, finish_invocation, GuestEnd, MAX_MEMORY_BYTES, get_input, set_output, HostState, SandboxError,
    MAX_INPUT_BYTES, MAX_OUTPUT_BYTES,
};

fn module(text: &str) -> Vec<u8> {
    wat::parse_str(text).unwrap()
}

#[test]
fn get_input_copies_into_window() {
    let mut state = HostState::new(b"abc".to_vec());
    let mut memory = vec![9u8; 8];
    assert!(get_input(&mut state, &mut memory, 2, 3));
    assert_eq!(memory, vec![9, 9, b'a', b'b', b'c', 9, 9, 9]);
    assert_eq!(state.data, b"abc".to_vec());
    assert_eq!(state.fault, None);
}

#[test]
fn get_input_shorter_data_leaves_rest_of_window() {
    let mut state = HostState::new(b"ab".to_vec());
    let mut memory = vec![7u8; 6];
    assert!(get_input(&mut state, &mut memory, 1, 4));
    assert_eq!(memory, vec![7, b'a', b'b', 7, 7, 7]);
}

#[test]
fn get_input_longer_data_is_cut_to_len() {
    let mut state = HostState::new(b"abcdef".to_vec());
    let mut memory = vec![0u8; 4];
    assert!(get_input(&mut state, &mut memory, 0, 2));
    assert_eq!(memory, vec![b'a', b'b', 0, 0]);
}

#[test]
fn get_input_out_of_bounds_faults() {
    let mut state = HostState::new(b"ab".to_vec());
    let mut memory = vec![0u8; 4];
    assert!(!get_input(&mut state, &mut memory, 3, 2));
    assert_eq!(memory, vec![0u8; 4]);
    assert_eq!(state.fault, Some(SandboxError::MemoryOutOfBounds));
    let mut state = HostState::new(b"ab".to_vec());
    assert!(!get_input(&mut state, &mut memory, -1, 0));
    assert_eq!(state.fault, Some(SandboxError::MemoryOutOfBounds));
}

#[test]
fn set_output_replaces_data_with_window() {
    let mut state = HostState::new(b"input".to_vec());
    let memory = b"xxhelloxx".to_vec();
    assert!(set_output(&mut state, &memory, 2, 5));
    assert_eq!(state.data, b"hello".to_vec());
    assert!(set_output(&mut state, &memory, 0, 0));
    assert_eq!(state.data, Vec::<u8>::new());
}

#[test]
fn set_output_out_of_bounds_faults() {
    let mut state = HostState::new(b"input".to_vec());
    let memory = vec![0u8; 4];
    assert!(!set_output(&mut state, &memory, 2, 3));
    assert_eq!(state.data, b"input".to_vec());
    assert_eq!(state.fault, Some(SandboxError::MemoryOutOfBounds));
}

#[test]
fn set_output_above_ceiling_is_resource_limit() {
    let mut state = HostState::new(vec![]);
    let memory = vec![0u8; MAX_OUTPUT_BYTES + 1];
    assert!(!set_output(&mut state, &memory, 0, (MAX_OUTPUT_BYTES + 1) as i32));
    assert_eq!(state.fault, Some(SandboxError::ResourceLimit));
    let mut state = HostState::new(vec![]);
    assert!(set_output(&mut state, &memory, 1, MAX_OUTPUT_BYTES as i32));
    assert_eq!(state.data.len(), MAX_OUTPUT_BYTES);
}

#[test]
fn finish_invocation_orders_outcomes() {
    let clean = HostState::new(b"out".to_vec());
    assert_eq!(finish_invocation(GuestEnd::Returned, clean), Ok(b"out".to_vec()));
    let clean = HostState::new(b"out".to_vec());
    assert_eq!(finish_invocation(GuestEnd::Trapped, clean), Err(SandboxError::TrapError));
    let clean = HostState::new(b"out".to_vec());
    assert_eq!(
        finish_invocation(GuestEnd::LimitReached, clean),
        Err(SandboxError::ResourceLimit)
    );
    let mut faulted = HostState::new(vec![]);
    faulted.fault = Some(SandboxError::MemoryOutOfBounds);
    assert_eq!(
        finish_invocation(GuestEnd::Trapped, faulted),
        Err(SandboxError::MemoryOutOfBounds)
    );
    let big = HostState::new(vec![0u8; MAX_OUTPUT_BYTES + 1]);
    assert_eq!(finish_invocation(GuestEnd::Returned, big), Err(SandboxError::ResourceLimit));
}

#[test]
fn no_set_output_returns_input() {
    let text = r#"(module (memory (export "memory") 1) (func (export "wasm_function")))"#;
    assert_eq!(execute_wasm(module(text), b"kept".to_vec()), Ok(b"kept".to_vec()));
}

#[test]
fn last_set_output_wins() {
    let text = r#"
    (module
      (import "env" "set_output" (func $set_output (param i32 i32)))
      (memory (export "memory") 1)
      (data (i32.const 0) "firstsecond")
      (func (export "wasm_function")
        (call $set_output (i32.const 0) (i32.const 5))
        (call $set_output (i32.const 5) (i32.const 6))))
    "#;
    assert_eq!(execute_wasm(module(text), vec![]), Ok(b"second".to_vec()));
}

#[test]
fn get_input_after_set_output_reads_output() {
    let text = r#"
    (module
      (import "env" "get_input" (func $get_input (param i32 i32)))
      (import "env" "set_output" (func $set_output (param i32 i32)))
      (memory (export "memory") 1)
      (data (i32.const 0) "xy")
      (func (export "wasm_function")
        (call $set_output (i32.const 0) (i32.const 2))
        (call $get_input (i32.const 10) (i32.const 2))
        (call $set_output (i32.const 9) (i32.const 3))))
    "#;
    assert_eq!(execute_wasm(module(text), b"in".to_vec()), Ok(vec![0, b'x', b'y']));
}

#[test]
fn guest_trap_is_trap_error() {
    let text = r#"(module (memory (export "memory") 1) (func (export "wasm_function") unreachable))"#;
    assert_eq!(execute_wasm(module(text), vec![]), Err(SandboxError::TrapError));
}

#[test]
fn missing_memory_export_is_export_error() {
    let text = r#"(module (memory 1) (func (export "wasm_function")))"#;
    assert_eq!(execute_wasm(module(text), vec![]), Err(SandboxError::ExportError));
}

#[test]
fn wrong_entry_signature_is_export_error() {
    let text = r#"(module (memory (export "memory") 1) (func (export "wasm_function") (param i32)))"#;
    assert_eq!(execute_wasm(module(text), vec![]), Err(SandboxError::ExportError));
}

#[test]
fn out_of_bounds_host_call_is_memory_error() {
    let text = r#"
    (module
      (import "env" "set_output" (func $set_output (param i32 i32)))
      (memory (export "memory") 1)
      (func (export "wasm_function")
        (call $set_output (i32.const 65535) (i32.const 2))))
    "#;
    assert_eq!(execute_wasm(module(text), vec![]), Err(SandboxError::MemoryOutOfBounds));
}

#[test]
fn unknown_import_is_instantiation_error() {
    let text = r#"
    (module
      (import "env" "clock" (func $clock (result i64)))
      (memory (export "memory") 1)
      (func (export "wasm_function")))
    "#;
    assert_eq!(execute_wasm(module(text), vec![]), Err(SandboxError::InstantiationError));
}

#[test]
fn garbage_program_is_compile_error() {
    assert_eq!(execute_wasm(b"not wasm".to_vec(), vec![]), Err(SandboxError::CompileError));
}

#[test]
fn oversized_input_is_resource_limit() {
    let text = r#"(module (memory (export "memory") 1) (func (export "wasm_function")))"#;
    assert_eq!(
        execute_wasm(module(text), vec![0u8; MAX_INPUT_BYTES + 1]),
        Err(SandboxError::ResourceLimit)
    );
}

#[test]
fn host_call_without_memory_is_refused() {
    let mut state = HostState::new(b"in".to_vec());
    assert!(!uomi_engine::host::refuse_without_memory(&mut state));
    assert_eq!(state.data, b"in".to_vec());
    assert_eq!(state.fault, Some(SandboxError::ExportError));
}

#[test]
fn start_section_without_memory_cannot_call_host() {
    let text = r#"
    (module
      (import "env" "set_output" (func $set_output (param i32 i32)))
      (func $init (call $set_output (i32.const 0) (i32.const 0)))
      (start $init)
      (func (export "wasm_function")))
    "#;
    assert_eq!(execute_wasm(module(text), vec![]), Err(SandboxError::InstantiationError));
}

#[test]
fn endless_guest_runs_out_of_fuel() {
    let text = r#"
    (module
      (memory (export "memory") 1)
      (func (export "wasm_function") (loop $spin (br $spin))))
    "#;
    assert_eq!(execute_wasm(module(text), vec![]), Err(SandboxError::TrapError));
}

#[test]
fn endless_start_section_is_instantiation_error() {
    let text = r#"
    (module
      (memory (export "memory") 1)
      (func $init (loop $spin (br $spin)))
      (start $init)
      (func (export "wasm_function")))
    "#;
    assert_eq!(execute_wasm(module(text), vec![]), Err(SandboxError::InstantiationError));
}

#[test]
fn memory_growth_past_ceiling_is_resource_limit() {
    let pages = MAX_MEMORY_BYTES / 65536;
    let text = format!(
        r#"
    (module
      (memory (export "memory") 1)
      (func (export "wasm_function")
        (drop (memory.grow (i32.const {})))))
    "#,
        pages
    );
    assert_eq!(execute_wasm(module(&text), vec![]), Err(SandboxError::ResourceLimit));
}

#[test]
fn memory_growth_up_to_ceiling_is_allowed() {
    let pages = MAX_MEMORY_BYTES / 65536 - 1;
    let text = format!(
        r#"
    (module
      (memory (export "memory") 1)
      (func (export "wasm_function")
        (drop (memory.grow (i32.const {})))))
    "#,
        pages
    );
    assert_eq!(execute_wasm(module(&text), b"x".to_vec()), Ok(b"x".to_vec()));
}

#[test]
fn declared_memory_above_ceiling_cannot_instantiate() {
    let pages = MAX_MEMORY_BYTES / 65536 + 1;
    let text = format!(
        r#"(module (memory (export "memory") {}) (func (export "wasm_function")))"#,
        pages
    );
    assert_eq!(execute_wasm(module(&text), vec![]), Err(SandboxError::InstantiationError));
}
