//! Per-channel circuit breaker: consecutive and total send failures, total successes.
use vstd::prelude::*;

use crate::constants::CHANNEL_FAILURE_THRESHOLD;
use crate::text::str_eq;
use super::state::{channel_index_of, channel_to_index, ChannelIndex, OrchestratorState, index_value};

verus! {

/// Health counters of one channel.
#[derive(Clone, Copy, Debug, PartialEq, Eq, Structural)]
pub struct ChannelHealthSlot {
    pub consecutive_failures: u32,
    pub total_failures: u32,
    pub total_successes: u32,
}

/// `a + 1`, held at `u32::MAX`.
pub open spec fn sat_inc(a: u32) -> u32 {
    if a == u32::MAX { a } else { (a + 1) as u32 }
}

/// The counters after one recorded send result.
pub open spec fn slot_after(s: ChannelHealthSlot, success: bool) -> ChannelHealthSlot {
    if success {
        ChannelHealthSlot {
            consecutive_failures: 0,
            total_failures: s.total_failures,
            total_successes: sat_inc(s.total_successes),
        }
    } else {
        ChannelHealthSlot {
            consecutive_failures: sat_inc(s.consecutive_failures),
            total_failures: sat_inc(s.total_failures),
            total_successes: s.total_successes,
        }
    }
}

/// A channel is healthy while its consecutive failures stay under the threshold.
pub open spec fn slot_healthy(s: ChannelHealthSlot) -> bool {
    s.consecutive_failures < CHANNEL_FAILURE_THRESHOLD
}

impl ChannelHealthSlot {
    pub fn new() -> (r: Self)
        ensures
            r.consecutive_failures == 0,
            r.total_failures == 0,
            r.total_successes == 0,
    {
        ChannelHealthSlot { consecutive_failures: 0, total_failures: 0, total_successes: 0 }
    }

    /// Records one send result.
    pub fn record(&mut self, success: bool)
        ensures
            *final(self) == slot_after(*old(self), success),
    {
        if success {
            self.consecutive_failures = 0;
            self.total_successes = self.total_successes.saturating_add(1);
        } else {
            self.consecutive_failures = self.consecutive_failures.saturating_add(1);
            self.total_failures = self.total_failures.saturating_add(1);
        }
    }

    pub fn is_healthy(&self) -> (r: bool)
        ensures
            r == slot_healthy(*self),
    {
        self.consecutive_failures < CHANNEL_FAILURE_THRESHOLD
    }
}

/// Health snapshot of one channel.
#[derive(Clone, Copy, Debug, PartialEq, Eq, Structural)]
pub struct ChannelHealthSnapshot {
    pub consecutive_failures: u32,
    pub total_failures: u32,
    pub total_successes: u32,
    pub healthy: bool,
}

/// The snapshot that a slot gives.
pub open spec fn snapshot_of_slot(s: ChannelHealthSlot) -> ChannelHealthSnapshot {
    ChannelHealthSnapshot {
        consecutive_failures: s.consecutive_failures,
        total_failures: s.total_failures,
        total_successes: s.total_successes,
        healthy: slot_healthy(s),
    }
}

/// Snapshot of the channel at `idx`.
pub fn snapshot_by_index(state: &OrchestratorState, idx: usize) -> (r: ChannelHealthSnapshot)
    requires
        state.wf(),
        idx < 5,
    ensures
        r == snapshot_of_slot(state.channel_health@[idx as int]),
{
    let s = state.channel_health[idx];
    ChannelHealthSnapshot {
        consecutive_failures: s.consecutive_failures,
        total_failures: s.total_failures,
        total_successes: s.total_successes,
        healthy: s.is_healthy(),
    }
}

/// Records a send result of a known channel; names of unknown channels change nothing.
pub fn record_channel_result(state: &mut OrchestratorState, channel: &str, success: bool)
    requires
        old(state).wf(),
    ensures
        final(state).wf(),
        match channel_index_of(channel@) {
            Some(ci) => final(state).channel_health@ == old(state).channel_health@.update(
                index_value(ci) as int,
                slot_after(old(state).channel_health@[index_value(ci) as int], success),
            ),
            None => final(state).channel_health@ == old(state).channel_health@,
        },
        final(state).same_except_channels(*old(state)),
{
    match channel_to_index(channel) {
        Some(ci) => {
            let i = ci.index();
            let mut slot = state.channel_health[i];
            slot.record(success);
            state.channel_health.set(i, slot);
        },
        None => {},
    }
}

/// Whether a channel is healthy; a name that is not a known channel counts as healthy.
pub fn is_channel_healthy(state: &OrchestratorState, channel: &str) -> (r: bool)
    requires
        state.wf(),
    ensures
        r == match channel_index_of(channel@) {
            Some(ci) => slot_healthy(state.channel_health@[index_value(ci) as int]),
            None => true,
        },
{
    match channel_to_index(channel) {
        Some(ci) => state.channel_health[ci.index()].is_healthy(),
        None => true,
    }
}

/// After `CHANNEL_FAILURE_THRESHOLD` failures in a row a channel is unhealthy, and one
/// success makes it healthy again.
pub proof fn lemma_breaker_trips_and_recovers(s: ChannelHealthSlot)
    ensures
        !slot_healthy(slot_after(slot_after(slot_after(s, false), false), false)),
        slot_healthy(slot_after(s, true)),
{
}

} // verus!
