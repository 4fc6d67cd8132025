//! The orchestrator: the single state that every resource decision reads, and the operations
//! on it that the runtime calls (heap sampling, permits, channel results, queue depths).
use vstd::prelude::*;

use crate::constants::{TLS_ADMISSION_MIN_INTERNAL_BYTES, TLS_ADMISSION_MIN_LARGEST_BLOCK_BYTES};
use crate::platform::MemorySnapshot;
use crate::text::{chars_to_string, extend_with_str, push_decimal, decimal};
use super::admission::{
    AdmissionDecision, LlmDecision, ToolDecision, can_call_llm, can_execute_tool, inbound_decision,
    llm_decision, outbound_decision, should_accept_inbound, should_accept_outbound, tool_decision,
};
use super::channel_health::{is_channel_healthy, record_channel_result, slot_after, slot_healthy};
use super::permit::{
    HttpPermitGuard, PermitError, Priority, check_internal_heap_for_tls, permit_verdict,
};
use super::pressure::{
    PressureLevel, ResourceBudget, budget_for_level, byte_of_level, compute_pressure, is_budget_of,
    level_name, level_of_byte, pressure_for,
};
use super::state::{
    OrchestratorState, ResourceSnapshot, channel_index_of, index_value, snapshot_matches,
};

verus! {

/// Minimum interval between two heap samples taken by `refresh_heap_if_stale` (seconds).
pub const REFRESH_MIN_INTERVAL_SECS: u32 = 2;

/// The orchestrator: state plus the TLS permit, the one-time init flag and the time of the last
/// heap refresh.
pub struct Orchestrator {
    pub state: OrchestratorState,
    pub tls_permit_held: bool,
    pub initialized: bool,
    pub last_refresh_secs: u32,
}

impl Orchestrator {
    pub open spec fn wf(&self) -> bool {
        self.state.wf()
    }

    /// Fresh orchestrator: heap unknown (plenty), normal pressure, no permit held.
    pub fn new() -> (r: Self)
        ensures
            r.wf(),
            r.state.is_fresh(),
            !r.tls_permit_held,
            !r.initialized,
            r.last_refresh_secs == 0,
    {
        Orchestrator {
            state: OrchestratorState::new(),
            tls_permit_held: false,
            initialized: false,
            last_refresh_secs: 0,
        }
    }
}

/// The state after a heap sample: the readings are stored and the pressure level is recomputed
/// from them (and from the open HTTP requests).
pub open spec fn after_heap_sample(s: OrchestratorState, snap: MemorySnapshot) -> OrchestratorState {
    OrchestratorState {
        heap_free_internal: snap.heap_free_internal,
        heap_free_spiram: snap.heap_free_spiram,
        heap_largest_block: snap.heap_largest_block,
        pressure_level: byte_of_level(pressure_for(snap.heap_free_internal, snap.heap_free_spiram, s.active_http_count)),
        ..s
    }
}

/// Stores a heap sample and recomputes the pressure level.
pub fn apply_memory_snapshot(orch: &mut Orchestrator, snap: MemorySnapshot)
    requires
        old(orch).wf(),
    ensures
        final(orch).wf(),
        final(orch).state == after_heap_sample(old(orch).state, snap),
        final(orch).tls_permit_held == old(orch).tls_permit_held,
        final(orch).initialized == old(orch).initialized,
        final(orch).last_refresh_secs == old(orch).last_refresh_secs,
{
    orch.state.update_heap(snap.heap_free_internal, snap.heap_free_spiram, snap.heap_largest_block);
    let level = compute_pressure(&orch.state);
    orch.state.pressure_level = level.to_byte();
}

/// Called once at startup; only the first call samples the heap.
pub fn init(orch: &mut Orchestrator, snap: MemorySnapshot)
    requires
        old(orch).wf(),
    ensures
        final(orch).wf(),
        final(orch).initialized,
        old(orch).initialized ==> final(orch).state == old(orch).state,
        !old(orch).initialized ==> final(orch).state == after_heap_sample(old(orch).state, snap),
        final(orch).tls_permit_held == old(orch).tls_permit_held,
        final(orch).last_refresh_secs == old(orch).last_refresh_secs,
{
    if !orch.initialized {
        orch.initialized = true;
        update_heap_state(orch, snap);
    }
}

/// Stores a heap sample and recomputes the pressure level (called by the heartbeat).
pub fn update_heap_state(orch: &mut Orchestrator, snap: MemorySnapshot)
    requires
        old(orch).wf(),
    ensures
        final(orch).wf(),
        final(orch).state == after_heap_sample(old(orch).state, snap),
        final(orch).tls_permit_held == old(orch).tls_permit_held,
        final(orch).initialized == old(orch).initialized,
        final(orch).last_refresh_secs == old(orch).last_refresh_secs,
{
    apply_memory_snapshot(orch, snap);
}

/// Whether a refresh at `now_secs` is due: at least the minimum interval since the last one,
/// measured with wrapping arithmetic.
pub open spec fn refresh_due(last: u32, now_secs: u32) -> bool {
    (if now_secs >= last { now_secs - last } else { now_secs + 0x1_0000_0000 - last }) >= REFRESH_MIN_INTERVAL_SECS
}

/// Takes the heap sample when the last refresh is at least two seconds old, and returns the
/// (possibly refreshed) pressure level.
pub fn refresh_heap_if_stale(orch: &mut Orchestrator, now_secs: u32, snap: MemorySnapshot) -> (r: PressureLevel)
    requires
        old(orch).wf(),
    ensures
        final(orch).wf(),
        refresh_due(old(orch).last_refresh_secs, now_secs) ==> {
            &&& final(orch).state == after_heap_sample(old(orch).state, snap)
            &&& final(orch).last_refresh_secs == now_secs
        },
        !refresh_due(old(orch).last_refresh_secs, now_secs) ==> *final(orch) == *old(orch),
        r == level_of_byte(final(orch).state.pressure_level),
        final(orch).tls_permit_held == old(orch).tls_permit_held,
        final(orch).initialized == old(orch).initialized,
{
    let last = orch.last_refresh_secs;
    if now_secs.wrapping_sub(last) >= REFRESH_MIN_INTERVAL_SECS {
        orch.last_refresh_secs = now_secs;
        update_heap_state(orch, snap);
    }
    current_pressure(orch)
}

/// The current pressure level.
pub fn current_pressure(orch: &Orchestrator) -> (r: PressureLevel)
    ensures
        r == level_of_byte(orch.state.pressure_level),
{
    PressureLevel::from_byte(orch.state.pressure_level)
}

/// The budget of the current pressure level.
pub fn current_budget(orch: &Orchestrator) -> (r: ResourceBudget)
    ensures
        is_budget_of(r, level_of_byte(orch.state.pressure_level)),
{
    budget_for_level(current_pressure(orch))
}

/// Snapshot of the whole state.
pub fn snapshot(orch: &Orchestrator) -> (r: ResourceSnapshot)
    requires
        orch.wf(),
    ensures
        snapshot_matches(r, orch.state),
{
    ResourceSnapshot::from_state(&orch.state)
}

/// The one-line resource baseline that the heartbeat logs.
pub open spec fn baseline_line(s: OrchestratorState) -> Seq<char> {
    "resource pressure="@ + level_name(level_of_byte(s.pressure_level))
        + " heap_internal="@ + decimal(s.heap_free_internal as nat)
        + " heap_spiram="@ + decimal(s.heap_free_spiram as nat)
        + " heap_largest="@ + decimal(s.heap_largest_block as nat)
        + " active_http="@ + decimal(s.active_http_count as nat)
        + " inbound="@ + decimal(s.inbound_depth as nat)
        + " outbound="@ + decimal(s.outbound_depth as nat)
}

/// Single-line resource baseline, with the same fields as `snapshot`.
pub fn format_resource_baseline_line(orch: &Orchestrator) -> (r: String)
    requires
        orch.wf(),
    ensures
        r@ == baseline_line(orch.state),
{
    let s = snapshot(orch);
    let mut v: Vec<char> = Vec::new();
    extend_with_str(&mut v, "resource pressure=");
    extend_with_str(&mut v, s.pressure.name());
    extend_with_str(&mut v, " heap_internal=");
    push_decimal(&mut v, s.heap_free_internal as u64);
    extend_with_str(&mut v, " heap_spiram=");
    push_decimal(&mut v, s.heap_free_spiram as u64);
    extend_with_str(&mut v, " heap_largest=");
    push_decimal(&mut v, s.heap_largest_block_internal as u64);
    extend_with_str(&mut v, " active_http=");
    push_decimal(&mut v, s.active_http_count as u64);
    extend_with_str(&mut v, " inbound=");
    push_decimal(&mut v, s.inbound_depth as u64);
    extend_with_str(&mut v, " outbound=");
    push_decimal(&mut v, s.outbound_depth as u64);
    chars_to_string(&v)
}

/// The TLS admission baseline line logged at startup: the live heap figures and the two
/// admission minimums.
pub open spec fn tls_baseline_line(live: MemorySnapshot) -> Seq<char> {
    "[orchestrator] TLS admission baseline: internal_free="@ + decimal(live.heap_free_internal as nat)
        + " largest_block="@ + decimal(live.heap_largest_block as nat)
        + " spiram_free="@ + decimal(live.heap_free_spiram as nat)
        + " min_internal="@ + decimal(TLS_ADMISSION_MIN_INTERNAL_BYTES as nat)
        + " min_largest="@ + decimal(TLS_ADMISSION_MIN_LARGEST_BLOCK_BYTES as nat)
}

/// The TLS admission baseline for a live heap sample, as the line to log.
pub fn log_baseline(live: MemorySnapshot) -> (r: String)
    ensures
        r@ == tls_baseline_line(live),
{
    let mut v: Vec<char> = Vec::new();
    extend_with_str(&mut v, "[orchestrator] TLS admission baseline: internal_free=");
    push_decimal(&mut v, live.heap_free_internal as u64);
    extend_with_str(&mut v, " largest_block=");
    push_decimal(&mut v, live.heap_largest_block as u64);
    extend_with_str(&mut v, " spiram_free=");
    push_decimal(&mut v, live.heap_free_spiram as u64);
    extend_with_str(&mut v, " min_internal=");
    push_decimal(&mut v, TLS_ADMISSION_MIN_INTERNAL_BYTES as u64);
    extend_with_str(&mut v, " min_largest=");
    push_decimal(&mut v, TLS_ADMISSION_MIN_LARGEST_BLOCK_BYTES as u64);
    chars_to_string(&v)
}

/// The orchestrator after a granted permit: one more open request, TLS permit held.
pub open spec fn after_grant(o: Orchestrator) -> Orchestrator {
    Orchestrator {
        state: OrchestratorState {
            active_http_count: if o.state.active_http_count == u32::MAX { 0 } else { (o.state.active_http_count + 1) as u32 },
            ..o.state
        },
        tls_permit_held: true,
        ..o
    }
}

/// Requests an HTTP permit. Critical pressure admits only high priority and above; at the
/// concurrency limit low priority is refused; a held TLS permit answers `TlsBusy` (the caller
/// retries until its timeout); then the live heap must fit a TLS session.
pub fn request_http_permit(orch: &mut Orchestrator, priority: Priority, live: MemorySnapshot) -> (r: Result<HttpPermitGuard, PermitError>)
    requires
        old(orch).wf(),
    ensures
        final(orch).wf(),
        match permit_verdict(old(orch).state.pressure_level, old(orch).state.active_http_count, old(orch).tls_permit_held, priority, live) {
            Ok(()) => r is Ok && r->Ok_0.granted_priority() == priority && *final(orch) == after_grant(*old(orch)),
            Err(e) => r == Err::<HttpPermitGuard, PermitError>(e) && *final(orch) == *old(orch),
        },
{
    let pressure = PressureLevel::from_byte(orch.state.pressure_level);
    let low = priority.rank() < 2;
    if pressure == PressureLevel::Critical && low {
        return Err(PermitError::CriticalPressure);
    }
    let active = orch.state.active_http_count;
    if active >= crate::constants::MAX_CONCURRENT_HTTP && low {
        return Err(PermitError::ConcurrencyLimit { active });
    }
    if orch.tls_permit_held {
        return Err(PermitError::TlsBusy);
    }
    match check_internal_heap_for_tls(live) {
        Ok(()) => {},
        Err(e) => return Err(e),
    }
    orch.tls_permit_held = true;
    orch.state.active_http_count = orch.state.active_http_count.wrapping_add(1);
    Ok(HttpPermitGuard::grant(priority))
}

/// Gives a permit back: one request fewer, TLS permit free.
pub fn release_http_permit(orch: &mut Orchestrator, permit: HttpPermitGuard)
    requires
        old(orch).wf(),
    ensures
        final(orch).wf(),
        final(orch).state == (OrchestratorState {
            active_http_count: if old(orch).state.active_http_count == 0 { u32::MAX } else { (old(orch).state.active_http_count - 1) as u32 },
            ..old(orch).state
        }),
        !final(orch).tls_permit_held,
        final(orch).initialized == old(orch).initialized,
        final(orch).last_refresh_secs == old(orch).last_refresh_secs,
{
    orch.state.active_http_count = orch.state.active_http_count.wrapping_sub(1);
    orch.tls_permit_held = false;
}

/// A granted permit, once released, leaves the orchestrator as it was (apart from a free TLS
/// permit, which it must have been for the grant).
pub proof fn lemma_permit_roundtrip(o: Orchestrator, priority: Priority, live: MemorySnapshot)
    requires
        permit_verdict(o.state.pressure_level, o.state.active_http_count, o.tls_permit_held, priority, live) is Ok,
    ensures
        !o.tls_permit_held,
        ({
            let g = after_grant(o);
            let released = OrchestratorState {
                active_http_count: if g.state.active_http_count == 0 { u32::MAX } else { (g.state.active_http_count - 1) as u32 },
                ..g.state
            };
            released == o.state
        }),
{
}

/// While a permit is held, every further request is refused.
pub proof fn lemma_single_tls_permit(o: Orchestrator, p1: Priority, p2: Priority, l1: MemorySnapshot, l2: MemorySnapshot)
    requires
        permit_verdict(o.state.pressure_level, o.state.active_http_count, o.tls_permit_held, p1, l1) is Ok,
    ensures
        ({
            let g = after_grant(o);
            permit_verdict(g.state.pressure_level, g.state.active_http_count, g.tls_permit_held, p2, l2) is Err
        }),
{
}

/// Records a channel send result.
pub fn record_channel_result_pub(orch: &mut Orchestrator, channel: &str, success: bool)
    requires
        old(orch).wf(),
    ensures
        final(orch).wf(),
        match channel_index_of(channel@) {
            Some(ci) => final(orch).state.channel_health@ == old(orch).state.channel_health@.update(
                index_value(ci) as int,
                slot_after(old(orch).state.channel_health@[index_value(ci) as int], success),
            ),
            None => final(orch).state.channel_health@ == old(orch).state.channel_health@,
        },
        final(orch).state.same_except_channels(old(orch).state),
        final(orch).tls_permit_held == old(orch).tls_permit_held,
        final(orch).initialized == old(orch).initialized,
        final(orch).last_refresh_secs == old(orch).last_refresh_secs,
{
    record_channel_result(&mut orch.state, channel, success);
}

/// Whether a channel is healthy (unknown names count as healthy).
pub fn is_channel_healthy_pub(orch: &Orchestrator, channel: &str) -> (r: bool)
    requires
        orch.wf(),
    ensures
        r == match channel_index_of(channel@) {
            Some(ci) => slot_healthy(orch.state.channel_health@[index_value(ci) as int]),
            None => true,
        },
{
    is_channel_healthy(&orch.state, channel)
}

/// Inbound admission decision.
pub fn should_accept_inbound_pub(orch: &Orchestrator, channel: &str, chat_id: &str) -> (r: AdmissionDecision)
    ensures
        r == inbound_decision(orch.state, chat_id@),
{
    should_accept_inbound(&orch.state, channel, chat_id)
}

/// Stores the queue depths (called by the heartbeat).
pub fn update_queue_depth(orch: &mut Orchestrator, inbound: u32, outbound: u32)
    requires
        old(orch).wf(),
    ensures
        final(orch).wf(),
        final(orch).state == (OrchestratorState { inbound_depth: inbound, outbound_depth: outbound, ..old(orch).state }),
        final(orch).tls_permit_held == old(orch).tls_permit_held,
        final(orch).initialized == old(orch).initialized,
        final(orch).last_refresh_secs == old(orch).last_refresh_secs,
{
    orch.state.inbound_depth = inbound;
    orch.state.outbound_depth = outbound;
}

/// Stores the session and storage metrics (called by the heartbeat).
pub fn update_session_storage(orch: &mut Orchestrator, session_count: u32, storage_used_kb: u32, storage_total_kb: u32)
    requires
        old(orch).wf(),
    ensures
        final(orch).wf(),
        final(orch).state == (OrchestratorState { session_count, storage_used_kb, storage_total_kb, ..old(orch).state }),
        final(orch).tls_permit_held == old(orch).tls_permit_held,
        final(orch).initialized == old(orch).initialized,
        final(orch).last_refresh_secs == old(orch).last_refresh_secs,
{
    orch.state.session_count = session_count;
    orch.state.storage_used_kb = storage_used_kb;
    orch.state.storage_total_kb = storage_total_kb;
}

/// LLM gate.
pub fn can_call_llm_pub(orch: &Orchestrator) -> (r: LlmDecision)
    ensures
        r == llm_decision(orch.state),
{
    can_call_llm(&orch.state)
}

/// Tool gate.
pub fn can_execute_tool_pub(orch: &Orchestrator, tool_name: &str, requires_network: bool) -> (r: ToolDecision)
    ensures
        r == tool_decision(orch.state, requires_network),
{
    can_execute_tool(&orch.state, tool_name, requires_network)
}

/// Outbound admission decision.
pub fn should_accept_outbound_pub(orch: &Orchestrator, channel: &str) -> (r: AdmissionDecision)
    ensures
        r == outbound_decision(orch.state),
{
    should_accept_outbound(&orch.state, channel)
}

/// A heap sample decides the pressure level by the readings alone (and the open requests):
/// after sampling, the current pressure is the one that `pressure_for` gives.
pub proof fn lemma_sample_sets_pressure(s: OrchestratorState, snap: MemorySnapshot)
    ensures
        level_of_byte(after_heap_sample(s, snap).pressure_level)
            == pressure_for(snap.heap_free_internal, snap.heap_free_spiram, s.active_http_count),
{
    super::pressure::lemma_level_byte_roundtrip(pressure_for(snap.heap_free_internal, snap.heap_free_spiram, s.active_http_count));
}

/// Sampling the same heap twice gives the same state as sampling it once.
pub proof fn lemma_sample_idempotent(s: OrchestratorState, snap: MemorySnapshot)
    ensures
        after_heap_sample(after_heap_sample(s, snap), snap) == after_heap_sample(s, snap),
{
}

} // verus!
