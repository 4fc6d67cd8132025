//! Heap readings and the checks that decide whether a heavy operation may start.
use vstd::prelude::*;

use crate::constants::{MIN_FREE_HEAP_FOR_AGENT_ROUND, MIN_FREE_INTERNAL_WHEN_PSRAM};

verus! {

/// One sample of the platform heap (bytes).
#[derive(Debug, Clone, Copy, PartialEq, Eq, Structural)]
pub struct MemorySnapshot {
    pub heap_free_internal: u32,
    pub heap_free_spiram: u32,
    pub heap_largest_block: u32,
}

/// Free internal heap on a host build: `u32::MAX`, which counts as plenty.
pub fn heap_free_internal() -> (r: usize)
    ensures
        r == u32::MAX,
{
    4294967295usize
}

/// Free PSRAM on a host build: none.
pub fn heap_free_spiram() -> (r: usize)
    ensures
        r == 0,
{
    0
}

/// Largest free internal block on a host build: plenty.
pub fn heap_largest_free_block_internal() -> (r: usize)
    ensures
        r == usize::MAX,
{
    usize::MAX
}

/// True when there is no PSRAM and the internal heap is under the agent-round threshold;
/// callers then refuse or degrade large allocations.
pub fn is_low_memory_no_spiram(snap: MemorySnapshot) -> (r: bool)
    ensures
        r == (snap.heap_free_internal < MIN_FREE_HEAP_FOR_AGENT_ROUND && snap.heap_free_spiram == 0),
{
    (snap.heap_free_internal as usize) < MIN_FREE_HEAP_FOR_AGENT_ROUND && snap.heap_free_spiram == 0
}

/// Whether the heap can carry one agent round: with PSRAM the internal heap must keep the
/// dual-TLS reserve, without PSRAM it must hold the whole round.
pub fn is_heap_ok_for_agent_round(snap: MemorySnapshot) -> (r: bool)
    ensures
        r == if snap.heap_free_spiram > 0 {
            snap.heap_free_internal >= MIN_FREE_INTERNAL_WHEN_PSRAM
        } else {
            snap.heap_free_internal >= MIN_FREE_HEAP_FOR_AGENT_ROUND
        },
{
    if snap.heap_free_spiram > 0 {
        snap.heap_free_internal as usize >= MIN_FREE_INTERNAL_WHEN_PSRAM
    } else {
        snap.heap_free_internal as usize >= MIN_FREE_HEAP_FOR_AGENT_ROUND
    }
}

/// A heap fit for an agent round is never a low-memory heap.
pub proof fn lemma_round_ok_not_low(snap: MemorySnapshot)
    requires
        if snap.heap_free_spiram > 0 {
            snap.heap_free_internal >= MIN_FREE_INTERNAL_WHEN_PSRAM
        } else {
            snap.heap_free_internal >= MIN_FREE_HEAP_FOR_AGENT_ROUND
        },
    ensures
        !(snap.heap_free_internal < MIN_FREE_HEAP_FOR_AGENT_ROUND && snap.heap_free_spiram == 0),
{
}

} // verus!
