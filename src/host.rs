use vstd::prelude::*;

use crate::error::SandboxError;
use crate::sandbox::{memory_limits, MAX_MEMORY_BYTES};

verus! {

/// Largest output, in bytes, that `set_output` accepts.
pub const MAX_OUTPUT_BYTES: usize = 1048576;

/// The per-invocation host state: the single byte buffer shared by
/// `get_input` and `set_output`, the first host-side fault, if any, and the
/// limits that the store enforces on the guest's memory.
pub struct HostState {
    pub data: Vec<u8>,
    pub fault: Option<SandboxError>,
    pub limits: wasmi::StoreLimits,
}

impl HostState {
    /// A fresh state holding the input snapshot, with guest memory capped
    /// at `MAX_MEMORY_BYTES`.
    pub fn new(input: Vec<u8>) -> (r: HostState)
        ensures
            r.data@ == input@,
            r.fault is None,
    {
        HostState { data: input, fault: None, limits: memory_limits(MAX_MEMORY_BYTES) }
    }
}

/// Guest pointers and lengths are 32-bit words read as unsigned.
pub open spec fn word(x: i32) -> int {
    x as u32 as int
}

/// The window `[ptr, ptr + len)` lies within a memory of `mem_len` bytes.
pub open spec fn window_fits(mem_len: int, ptr: i32, len: i32) -> bool {
    word(ptr) + word(len) <= mem_len
}

/// Memory after copying the first `min(len, data.len())` bytes of `data`
/// to offset `ptr`; the rest of the window and of memory is untouched.
pub open spec fn copied_in(mem: Seq<u8>, data: Seq<u8>, ptr: int, len: int) -> Seq<u8> {
    let n = if len < data.len() { len } else { data.len() as int };
    Seq::new(mem.len(), |i: int| if ptr <= i < ptr + n { data[i - ptr] } else { mem[i] })
}

/// Host side of `env.get_input(ptr, len)`.
///
/// Within bounds it copies up to `len` bytes of the current data into guest
/// memory at `ptr`; where the data is shorter the rest of the window is left
/// as it was. Out of bounds it leaves memory alone, records
/// `MemoryOutOfBounds` and returns `false`, which aborts the invocation.
pub fn get_input(state: &mut HostState, memory: &mut [u8], ptr: i32, len: i32) -> (ok: bool)
    ensures
        ok == window_fits(old(memory)@.len() as int, ptr, len),
        final(state).data@ == old(state).data@,
        ok ==> final(memory)@ == copied_in(old(memory)@, old(state).data@, word(ptr), word(len)),
        ok ==> final(state).fault == old(state).fault,
        !ok ==> final(memory)@ == old(memory)@,
        !ok ==> final(state).fault == Some(SandboxError::MemoryOutOfBounds),
{
    let start: u64 = (#[verifier::truncate] (ptr as u32)) as u64;
    let want: u64 = (#[verifier::truncate] (len as u32)) as u64;
    if start + want > memory.len() as u64 {
        state.fault = Some(SandboxError::MemoryOutOfBounds);
        return false;
    }
    let start: usize = start as usize;
    let n: usize = if (want as usize) < state.data.len() {
        want as usize
    } else {
        state.data.len()
    };
    let ghost mem0 = memory@;
    let mlen: usize = memory.len();
    let mut i: usize = 0;
    while i < n
        invariant
            mem0 == old(memory)@,
            start + n <= memory@.len(),
            memory@.len() == mlen,
            n <= state.data@.len(),
            i <= n,
            memory@.len() == mem0.len(),
            forall|j: int|
                0 <= j < memory@.len() ==> #[trigger] memory@[j] == if start <= j < start + i {
                    state.data@[j - start]
                } else {
                    mem0[j]
                },
        decreases n - i,
    {
        memory[start + i] = state.data[i];
        i = i + 1;
    }
    assert(memory@ =~= copied_in(mem0, state.data@, word(ptr), word(len)));
    true
}

/// A host call from a guest that exports no memory is refused: it records
/// `ExportError`, leaves the data alone and returns `false`.
pub fn refuse_without_memory(state: &mut HostState) -> (ok: bool)
    ensures
        !ok,
        final(state).data@ == old(state).data@,
        final(state).fault == Some(SandboxError::ExportError),
{
    state.fault = Some(SandboxError::ExportError);
    false
}

/// Host side of `env.set_output(ptr, len)`.
///
/// Within bounds it replaces the data with exactly the `len` bytes of guest
/// memory at `ptr`. Out of bounds, or above `MAX_OUTPUT_BYTES`, it leaves the
/// data alone, records the fault and returns `false`.
pub fn set_output(state: &mut HostState, memory: &[u8], ptr: i32, len: i32) -> (ok: bool)
    ensures
        ok == (window_fits(memory@.len() as int, ptr, len) && word(len) <= MAX_OUTPUT_BYTES),
        ok ==> final(state).data@ == memory@.subrange(word(ptr), word(ptr) + word(len)),
        ok ==> final(state).fault == old(state).fault,
        !ok ==> final(state).data@ == old(state).data@,
        !ok && !window_fits(memory@.len() as int, ptr, len) ==> final(state).fault == Some(
            SandboxError::MemoryOutOfBounds,
        ),
        !ok && window_fits(memory@.len() as int, ptr, len) ==> final(state).fault == Some(
            SandboxError::ResourceLimit,
        ),
{
    let start: u64 = (#[verifier::truncate] (ptr as u32)) as u64;
    let want: u64 = (#[verifier::truncate] (len as u32)) as u64;
    if start + want > memory.len() as u64 {
        state.fault = Some(SandboxError::MemoryOutOfBounds);
        return false;
    }
    if want > MAX_OUTPUT_BYTES as u64 {
        state.fault = Some(SandboxError::ResourceLimit);
        return false;
    }
    let start: usize = start as usize;
    let n: usize = want as usize;
    let mlen: usize = memory.len();
    let mut out: Vec<u8> = Vec::with_capacity(n);
    let mut i: usize = 0;
    while i < n
        invariant
            start + n <= memory@.len(),
            memory@.len() == mlen,
            i <= n,
            out@ == memory@.subrange(start as int, start + i),
        decreases n - i,
    {
        out.push(memory[start + i]);
        i = i + 1;
        assert(out@ =~= memory@.subrange(start as int, start + i));
    }
    state.data = out;
    true
}

} // verus!
