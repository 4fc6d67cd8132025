//! Startup checks on the storage: it must be readable before the runtime starts, and an empty
//! one gets placeholder contents first.
use vstd::prelude::*;

use crate::error::Error;
use crate::memory::store::MemoryStore;

verus! {

/// Storage counts as readable when the memory or the SOUL file could be read.
pub fn storage_readable(memory_read: &Result<String, Error>, soul_read: &Result<String, Error>) -> (r: bool)
    ensures
        r == (memory_read is Ok || soul_read is Ok),
{
    memory_read.is_ok() || soul_read.is_ok()
}

/// A read of the memory file gave a result of this kind (`ok`: success).
pub open spec fn memory_read_was<M: MemoryStore>(m: &M, ok: bool) -> bool {
    exists|r: Result<String, Error>| #[trigger] m.memory_read(r) && (r is Ok) == ok
}

/// A read of the SOUL file gave a result of this kind (`ok`: success).
pub open spec fn soul_read_was<M: MemoryStore>(m: &M, ok: bool) -> bool {
    exists|r: Result<String, Error>| #[trigger] m.soul_read(r) && (r is Ok) == ok
}

/// Storage counts as readable when the memory or the SOUL file can be read: the memory is
/// read first, and the SOUL only when that failed.
pub fn startup_self_check<M: MemoryStore>(memory_store: &M) -> (r: bool)
    ensures
        r ==> memory_read_was(memory_store, true) || soul_read_was(memory_store, true),
        !r ==> memory_read_was(memory_store, false) && soul_read_was(memory_store, false),
{
    let memory_read = memory_store.get_memory();
    if memory_read.is_ok() {
        assert(memory_store.memory_read(memory_read));
        return true;
    }
    let soul_read = memory_store.get_soul();
    assert(memory_store.memory_read(memory_read));
    assert(memory_store.soul_read(soul_read));
    storage_readable(&memory_read, &soul_read)
}

/// First boot or empty storage: when neither memory nor SOUL can be read, writes empty ones
/// so that the self-check passes. Returns whether placeholders were written (their write
/// errors are tolerated).
pub fn ensure_storage_ready<M: MemoryStore>(memory_store: &M) -> (wrote: bool)
    ensures
        wrote ==> {
            &&& memory_read_was(memory_store, false)
            &&& soul_read_was(memory_store, false)
            &&& exists|w: Result<(), Error>| #[trigger] memory_store.memory_written(Seq::<char>::empty(), w)
            &&& exists|w: Result<(), Error>| #[trigger] memory_store.soul_written(Seq::<char>::empty(), w)
        },
        !wrote ==> memory_read_was(memory_store, true) || soul_read_was(memory_store, true),
{
    let memory_read = memory_store.get_memory();
    assert(memory_store.memory_read(memory_read));
    if memory_read.is_ok() {
        return false;
    }
    let soul_read = memory_store.get_soul();
    assert(memory_store.soul_read(soul_read));
    if storage_readable(&memory_read, &soul_read) {
        return false;
    }
    let empty = "";
    proof {
        reveal_strlit("");
    }
    assert(empty@.len() == 0);
    assert(empty@ =~= Seq::<char>::empty());
    let w1 = memory_store.set_memory(empty);
    let w2 = memory_store.set_soul(empty);
    assert(memory_store.memory_written(Seq::<char>::empty(), w1));
    assert(memory_store.soul_written(Seq::<char>::empty(), w2));
    true
}

} // verus!
