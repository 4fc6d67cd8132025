//! Admission decisions for inbound messages, LLM calls, tool runs and outbound messages.
use vstd::prelude::*;

use crate::constants::{
    LLM_RETRY_LATER_DELAY_MS, LOW_MEM_DEFER_SLEEP_MS, OUTBOUND_DEFER_DELAY_MS,
    OUTBOUND_DEFER_DELAY_MS_CAUTIOUS, PRESSURE_QUEUE_CONGESTION_THRESHOLD,
    TLS_ADMISSION_MIN_INTERNAL_BYTES, TLS_ADMISSION_MIN_LARGEST_BLOCK_BYTES,
};
use crate::text::str_eq;
use super::pressure::{PressureLevel, level_of_byte};
use super::state::OrchestratorState;

verus! {

/// Decision on an inbound or outbound message.
#[derive(Debug)]
pub enum AdmissionDecision {
    Accept,
    Defer { delay_ms: u64 },
    Reject { reason: &'static str },
}

/// Decision on an LLM call.
#[derive(Debug)]
pub enum LlmDecision {
    Proceed,
    RetryLater { delay_ms: u64 },
    Degrade { reason: &'static str },
}

/// Decision on a tool run.
#[derive(Debug)]
pub enum ToolDecision {
    Allow,
    Deny { reason: &'static str },
}

pub const LOW_MEM_DEFER_SLEEP_MS_MIN: u64 = 650;
pub const LLM_RETRY_LATER_DELAY_MS_MIN: u64 = 240;
pub const OUTBOUND_DEFER_DELAY_MS_CAUTIOUS_MIN: u64 = 120;

/// Inbound plus outbound queue depth, held at `u32::MAX`.
pub open spec fn queue_total_of(state: OrchestratorState) -> u32 {
    let t = state.inbound_depth + state.outbound_depth;
    if t > u32::MAX { u32::MAX } else { t as u32 }
}

pub open spec fn congested(state: OrchestratorState) -> bool {
    queue_total_of(state) >= PRESSURE_QUEUE_CONGESTION_THRESHOLD
}

/// Defer of an inbound message under critical pressure: the full delay once the queues are
/// congested, otherwise scaled linearly from the minimum by the queue depth.
pub open spec fn critical_inbound_delay(total: u32) -> u64 {
    let th = PRESSURE_QUEUE_CONGESTION_THRESHOLD as int;
    if total >= th {
        LOW_MEM_DEFER_SLEEP_MS
    } else {
        (LOW_MEM_DEFER_SLEEP_MS_MIN + (LOW_MEM_DEFER_SLEEP_MS - LOW_MEM_DEFER_SLEEP_MS_MIN) * total / th) as u64
    }
}

/// Retry delay of an LLM call under cautious pressure: scaled from the minimum by how far the
/// largest free block falls short of what TLS needs.
pub open spec fn cautious_llm_delay(largest: u32) -> u64 {
    let need = TLS_ADMISSION_MIN_LARGEST_BLOCK_BYTES as int;
    let deficit = if largest >= need { 0 } else { need - largest };
    (LLM_RETRY_LATER_DELAY_MS_MIN + (LLM_RETRY_LATER_DELAY_MS - LLM_RETRY_LATER_DELAY_MS_MIN) * deficit / need) as u64
}

/// Defer of an outbound message under cautious pressure: scaled from the minimum by how far
/// the queues exceed the congestion threshold (capped at one threshold's worth).
pub open spec fn cautious_outbound_delay(total: u32) -> u64 {
    let th = PRESSURE_QUEUE_CONGESTION_THRESHOLD as int;
    let over = if total >= th { total - th } else { 0 };
    let capped = if over <= th { over } else { th };
    (OUTBOUND_DEFER_DELAY_MS_CAUTIOUS_MIN + (OUTBOUND_DEFER_DELAY_MS_CAUTIOUS - OUTBOUND_DEFER_DELAY_MS_CAUTIOUS_MIN) * capped / th) as u64
}

pub fn queue_total(state: &OrchestratorState) -> (r: u32)
    ensures
        r == queue_total_of(*state),
{
    state.inbound_depth.saturating_add(state.outbound_depth)
}

pub fn is_queue_congested(state: &OrchestratorState) -> (r: bool)
    ensures
        r == congested(*state),
{
    queue_total(state) >= PRESSURE_QUEUE_CONGESTION_THRESHOLD
}

pub fn critical_inbound_defer_delay_ms(state: &OrchestratorState) -> (r: u64)
    ensures
        r == critical_inbound_delay(queue_total_of(*state)),
        LOW_MEM_DEFER_SLEEP_MS_MIN <= r <= LOW_MEM_DEFER_SLEEP_MS,
{
    let base = LOW_MEM_DEFER_SLEEP_MS;
    let total = queue_total(state) as u64;
    let threshold: u64 = if (PRESSURE_QUEUE_CONGESTION_THRESHOLD as u64) < 1 { 1 } else { PRESSURE_QUEUE_CONGESTION_THRESHOLD as u64 };
    if total >= threshold {
        return base;
    }
    let span: u64 = base - LOW_MEM_DEFER_SLEEP_MS_MIN;
    assert((span * total) / (threshold as int) <= span) by (nonlinear_arith)
        requires total < threshold, threshold > 0, span >= 0;
    let scaled = LOW_MEM_DEFER_SLEEP_MS_MIN + span * total / threshold;
    scaled
}

pub fn cautious_llm_retry_delay_ms(state: &OrchestratorState) -> (r: u64)
    ensures
        r == cautious_llm_delay(state.heap_largest_block),
        LLM_RETRY_LATER_DELAY_MS_MIN <= r <= LLM_RETRY_LATER_DELAY_MS,
{
    let largest = state.heap_largest_block as u64;
    let need = TLS_ADMISSION_MIN_LARGEST_BLOCK_BYTES as u64;
    let deficit = need.saturating_sub(largest);
    let range = LLM_RETRY_LATER_DELAY_MS - LLM_RETRY_LATER_DELAY_MS_MIN;
    let d = if deficit < need { deficit } else { need };
    assert((range * d) / (need as int) <= range) by (nonlinear_arith)
        requires d <= need, need > 0, range >= 0;
    LLM_RETRY_LATER_DELAY_MS_MIN + range * d / need
}

pub fn cautious_outbound_defer_delay_ms(state: &OrchestratorState) -> (r: u64)
    ensures
        r == cautious_outbound_delay(queue_total_of(*state)),
        OUTBOUND_DEFER_DELAY_MS_CAUTIOUS_MIN <= r <= OUTBOUND_DEFER_DELAY_MS_CAUTIOUS,
{
    let base = OUTBOUND_DEFER_DELAY_MS_CAUTIOUS;
    let total = queue_total(state) as u64;
    let threshold = PRESSURE_QUEUE_CONGESTION_THRESHOLD as u64;
    let over = total.saturating_sub(threshold);
    let capped = if over < threshold { over } else { threshold };
    let span = base - OUTBOUND_DEFER_DELAY_MS_CAUTIOUS_MIN;
    assert((span * capped) / (threshold as int) <= span) by (nonlinear_arith)
        requires capped <= threshold, threshold > 0, span >= 0;
    OUTBOUND_DEFER_DELAY_MS_CAUTIOUS_MIN + span * capped / threshold
}

/// The inbound decision: background (`cron`) work is rejected under any pressure; other chats
/// are deferred under critical pressure and accepted otherwise.
pub open spec fn inbound_decision(state: OrchestratorState, chat_id: Seq<char>) -> AdmissionDecision {
    let is_cron = chat_id == "cron"@;
    match level_of_byte(state.pressure_level) {
        PressureLevel::Critical => if is_cron {
            AdmissionDecision::Reject { reason: "critical_pressure_background" }
        } else {
            AdmissionDecision::Defer { delay_ms: critical_inbound_delay(queue_total_of(state)) }
        },
        PressureLevel::Cautious => if is_cron {
            AdmissionDecision::Reject { reason: "cautious_cron_skip" }
        } else {
            AdmissionDecision::Accept
        },
        PressureLevel::Normal => AdmissionDecision::Accept,
    }
}

/// Called by the agent loop after receiving a message, before processing it.
pub fn should_accept_inbound(state: &OrchestratorState, _channel: &str, chat_id: &str) -> (r: AdmissionDecision)
    ensures
        r == inbound_decision(*state, chat_id@),
{
    let pressure = PressureLevel::from_byte(state.pressure_level);
    let is_cron = str_eq(chat_id, "cron");
    match pressure {
        PressureLevel::Critical => {
            if is_cron {
                return AdmissionDecision::Reject { reason: "critical_pressure_background" };
            }
            AdmissionDecision::Defer { delay_ms: critical_inbound_defer_delay_ms(state) }
        },
        PressureLevel::Cautious => {
            if is_cron {
                return AdmissionDecision::Reject { reason: "cautious_cron_skip" };
            }
            AdmissionDecision::Accept
        },
        PressureLevel::Normal => AdmissionDecision::Accept,
    }
}

/// The LLM decision: degrade under critical pressure; under cautious pressure retry later while
/// the largest free block is too small for TLS; proceed otherwise.
pub open spec fn llm_decision(state: OrchestratorState) -> LlmDecision {
    match level_of_byte(state.pressure_level) {
        PressureLevel::Critical => LlmDecision::Degrade { reason: "critical_pressure" },
        PressureLevel::Cautious => if state.heap_largest_block < TLS_ADMISSION_MIN_LARGEST_BLOCK_BYTES {
            LlmDecision::RetryLater { delay_ms: cautious_llm_delay(state.heap_largest_block) }
        } else {
            LlmDecision::Proceed
        },
        PressureLevel::Normal => LlmDecision::Proceed,
    }
}

/// Called by the agent before invoking the LLM.
pub fn can_call_llm(state: &OrchestratorState) -> (r: LlmDecision)
    ensures
        r == llm_decision(*state),
{
    let pressure = PressureLevel::from_byte(state.pressure_level);
    match pressure {
        PressureLevel::Critical => LlmDecision::Degrade { reason: "critical_pressure" },
        PressureLevel::Cautious => {
            let largest_block = state.heap_largest_block;
            if largest_block < TLS_ADMISSION_MIN_LARGEST_BLOCK_BYTES {
                LlmDecision::RetryLater { delay_ms: cautious_llm_retry_delay_ms(state) }
            } else {
                LlmDecision::Proceed
            }
        },
        PressureLevel::Normal => LlmDecision::Proceed,
    }
}

/// The tool decision: network tools are denied under critical pressure, and under cautious
/// pressure while the free internal heap is too small for TLS; everything else is allowed.
pub open spec fn tool_decision(state: OrchestratorState, requires_network: bool) -> ToolDecision {
    match level_of_byte(state.pressure_level) {
        PressureLevel::Critical => if requires_network {
            ToolDecision::Deny { reason: "critical_no_network_tools" }
        } else {
            ToolDecision::Allow
        },
        PressureLevel::Cautious => if requires_network && state.heap_free_internal < TLS_ADMISSION_MIN_INTERNAL_BYTES {
            ToolDecision::Deny { reason: "cautious_low_heap_for_http_tool" }
        } else {
            ToolDecision::Allow
        },
        PressureLevel::Normal => ToolDecision::Allow,
    }
}

/// Called by the agent before running a tool; `requires_network` comes from the tool registry.
pub fn can_execute_tool(state: &OrchestratorState, _tool_name: &str, requires_network: bool) -> (r: ToolDecision)
    ensures
        r == tool_decision(*state, requires_network),
{
    let pressure = PressureLevel::from_byte(state.pressure_level);
    match pressure {
        PressureLevel::Critical => {
            if requires_network {
                ToolDecision::Deny { reason: "critical_no_network_tools" }
            } else {
                ToolDecision::Allow
            }
        },
        PressureLevel::Cautious => {
            if requires_network {
                let internal = state.heap_free_internal;
                if internal < TLS_ADMISSION_MIN_INTERNAL_BYTES {
                    return ToolDecision::Deny { reason: "cautious_low_heap_for_http_tool" };
                }
            }
            ToolDecision::Allow
        },
        PressureLevel::Normal => ToolDecision::Allow,
    }
}

/// The outbound decision: an outbound message already cost LLM work, so it is never rejected;
/// it is deferred while the queues are congested under critical pressure. Under cautious
/// pressure a host accepts it: the host's memory thresholds are real, and a defer would only
/// slow replies down (`cautious_outbound_defer_delay_ms` is the device's defer).
pub open spec fn outbound_decision(state: OrchestratorState) -> AdmissionDecision {
    match level_of_byte(state.pressure_level) {
        PressureLevel::Critical => if congested(state) {
            AdmissionDecision::Defer { delay_ms: OUTBOUND_DEFER_DELAY_MS }
        } else {
            AdmissionDecision::Accept
        },
        PressureLevel::Cautious => AdmissionDecision::Accept,
        PressureLevel::Normal => AdmissionDecision::Accept,
    }
}

/// Called by dispatch before sending.
pub fn should_accept_outbound(state: &OrchestratorState, _channel: &str) -> (r: AdmissionDecision)
    ensures
        r == outbound_decision(*state),
{
    let pressure = PressureLevel::from_byte(state.pressure_level);
    let congested = is_queue_congested(state);
    match pressure {
        PressureLevel::Critical => {
            if congested {
                AdmissionDecision::Defer { delay_ms: OUTBOUND_DEFER_DELAY_MS }
            } else {
                AdmissionDecision::Accept
            }
        },
        PressureLevel::Cautious => AdmissionDecision::Accept,
        PressureLevel::Normal => AdmissionDecision::Accept,
    }
}

/// Outbound messages are never rejected, whatever the state.
pub proof fn lemma_outbound_never_rejected(state: OrchestratorState)
    ensures
        !(outbound_decision(state) is Reject),
{
}

/// Under normal pressure every inbound message, LLM call, tool run and outbound message is admitted.
pub proof fn lemma_normal_admits_everything(state: OrchestratorState, chat_id: Seq<char>, requires_network: bool)
    requires
        level_of_byte(state.pressure_level) == PressureLevel::Normal,
    ensures
        inbound_decision(state, chat_id) == AdmissionDecision::Accept,
        llm_decision(state) == LlmDecision::Proceed,
        tool_decision(state, requires_network) == ToolDecision::Allow,
        outbound_decision(state) == AdmissionDecision::Accept,
{
}

/// Tools that need no network are allowed under any pressure.
pub proof fn lemma_offline_tools_always_allowed(state: OrchestratorState)
    ensures
        tool_decision(state, false) == ToolDecision::Allow,
{
}

/// Network tools under pressure: under cautious pressure a network tool runs exactly when the
/// free internal heap reaches the TLS minimum (40960 bytes); under critical pressure no network
/// tool runs; under normal pressure every tool runs.
pub proof fn lemma_network_tool_admission(state: OrchestratorState)
    ensures
        level_of_byte(state.pressure_level) == PressureLevel::Cautious ==>
            (tool_decision(state, true) is Allow <==> state.heap_free_internal >= 40960),
        level_of_byte(state.pressure_level) == PressureLevel::Critical ==> tool_decision(state, true) is Deny,
        level_of_byte(state.pressure_level) == PressureLevel::Normal ==> tool_decision(state, true) is Allow,
{
}

/// Inbound messages: background (`cron`) work is refused under any pressure above normal and
/// never deferred; a chat message is never refused, is accepted below critical pressure, and
/// under critical pressure is deferred between 650 and 1800 ms, the full 1800 ms exactly when
/// the queues are congested.
pub proof fn lemma_inbound_admission(state: OrchestratorState, chat_id: Seq<char>)
    ensures
        chat_id == "cron"@ && level_of_byte(state.pressure_level) != PressureLevel::Normal ==>
            inbound_decision(state, chat_id) is Reject,
        chat_id != "cron"@ ==> !(inbound_decision(state, chat_id) is Reject),
        chat_id != "cron"@ && level_of_byte(state.pressure_level) != PressureLevel::Critical ==>
            inbound_decision(state, chat_id) == AdmissionDecision::Accept,
        chat_id != "cron"@ && level_of_byte(state.pressure_level) == PressureLevel::Critical ==>
            (inbound_decision(state, chat_id) matches AdmissionDecision::Defer { delay_ms }
            && 650 <= delay_ms <= 1800
            && (delay_ms == 1800 <==> state.inbound_depth + state.outbound_depth >= 8)),
{
    let t = queue_total_of(state);
    if t < 8 {
        assert(1150 * (t as int) / 8 <= 1006) by (nonlinear_arith)
            requires
                0 <= t < 8,
        ;
        assert(1150 * (t as int) / 8 >= 0) by (nonlinear_arith)
            requires
                0 <= t,
        ;
    }
}

/// LLM calls: degraded under critical pressure; under cautious pressure they go ahead exactly
/// when the largest free block reaches the TLS minimum (16384 bytes), and otherwise wait
/// between 240 and 1200 ms, longer the smaller the block; under normal pressure they go ahead.
pub proof fn lemma_llm_admission(state: OrchestratorState, other: OrchestratorState)
    ensures
        level_of_byte(state.pressure_level) == PressureLevel::Critical ==> llm_decision(state) is Degrade,
        level_of_byte(state.pressure_level) == PressureLevel::Normal ==> llm_decision(state) == LlmDecision::Proceed,
        level_of_byte(state.pressure_level) == PressureLevel::Cautious ==> {
            &&& (llm_decision(state) == LlmDecision::Proceed <==> state.heap_largest_block >= 16384)
            &&& state.heap_largest_block < 16384 ==> (llm_decision(state) matches LlmDecision::RetryLater { delay_ms }
                && 240 <= delay_ms <= 1200)
        },
        other.heap_largest_block <= state.heap_largest_block ==>
            cautious_llm_delay(state.heap_largest_block) <= cautious_llm_delay(other.heap_largest_block),
{
    let l = state.heap_largest_block as int;
    let m = other.heap_largest_block as int;
    let d1 = if l >= 16384 { 0 } else { 16384 - l };
    let d2 = if m >= 16384 { 0 } else { 16384 - m };
    assert(960 * d1 / 16384 <= 960) by (nonlinear_arith)
        requires
            0 <= d1 <= 16384,
    ;
    assert(960 * d1 / 16384 >= 0) by (nonlinear_arith)
        requires
            0 <= d1,
    ;
    if m <= l {
        assert(960 * d1 / 16384 <= 960 * d2 / 16384) by (nonlinear_arith)
            requires
                0 <= d1 <= d2,
        ;
    }
}

} // verus!
