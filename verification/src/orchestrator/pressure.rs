//! Pressure levels and the resource budget that each level grants.
use vstd::prelude::*;

use crate::constants::{
    DEFAULT_MESSAGES_MAX_LEN, DEFAULT_SYSTEM_MAX_LEN, MAX_CONCURRENT_HTTP, MAX_RESPONSE_BODY_LEN,
};
use super::state::OrchestratorState;

verus! {

/// Normal = full budget, Cautious = reduced budget, Critical = minimal budget and aggressive drop.
#[derive(Debug, Clone, Copy, PartialEq, Eq, Structural)]
pub enum PressureLevel {
    Normal,
    Cautious,
    Critical,
}

/// The level that a stored byte stands for: 0 and 1 name a level, anything else is critical.
pub open spec fn level_of_byte(b: u8) -> PressureLevel {
    if b == 0 {
        PressureLevel::Normal
    } else if b == 1 {
        PressureLevel::Cautious
    } else {
        PressureLevel::Critical
    }
}

/// The byte under which a level is stored.
pub open spec fn byte_of_level(level: PressureLevel) -> u8 {
    match level {
        PressureLevel::Normal => 0,
        PressureLevel::Cautious => 1,
        PressureLevel::Critical => 2,
    }
}

impl PressureLevel {
    pub fn from_byte(b: u8) -> (r: Self)
        ensures
            r == level_of_byte(b),
    {
        match b {
            0 => PressureLevel::Normal,
            1 => PressureLevel::Cautious,
            _ => PressureLevel::Critical,
        }
    }

    /// The byte under which this level is stored in the orchestrator state.
    pub fn to_byte(&self) -> (r: u8)
        ensures
            r == byte_of_level(*self),
    {
        match self {
            PressureLevel::Normal => 0,
            PressureLevel::Cautious => 1,
            PressureLevel::Critical => 2,
        }
    }

    /// The name under which the level is logged.
    pub fn name(&self) -> (r: &'static str)
        ensures
            r@ == level_name(*self),
    {
        proof {
            reveal_strlit("Normal");
            reveal_strlit("Cautious");
            reveal_strlit("Critical");
        }
        match self {
            PressureLevel::Normal => "Normal",
            PressureLevel::Cautious => "Cautious",
            PressureLevel::Critical => "Critical",
        }
    }
}

/// The name of a level as it appears in logs and snapshots.
pub open spec fn level_name(level: PressureLevel) -> Seq<char> {
    match level {
        PressureLevel::Normal => seq!['N', 'o', 'r', 'm', 'a', 'l'],
        PressureLevel::Cautious => seq!['C', 'a', 'u', 't', 'i', 'o', 'u', 's'],
        PressureLevel::Critical => seq!['C', 'r', 'i', 't', 'i', 'c', 'a', 'l'],
    }
}

/// Storing a level and reading it back gives the same level.
pub proof fn lemma_level_byte_roundtrip(level: PressureLevel)
    ensures
        level_of_byte(byte_of_level(level)) == level,
{
}

/// Budget and strategy of one pressure level.
#[derive(Clone)]
pub struct ResourceBudget {
    pub level: PressureLevel,
    pub system_prompt_max: usize,
    pub messages_max: usize,
    pub response_body_max: usize,
    pub reconnect_backoff_secs: u64,
    pub llm_hint: &'static str,
}

pub const NORMAL_INTERNAL_KB: u32 = 70;
pub const NORMAL_PSRAM_MB: u32 = 4;
pub const CAUTIOUS_INTERNAL_KB: u32 = 48;
pub const CAUTIOUS_PSRAM_MB: u32 = 1;

/// The hint handed to the model at each level.
pub open spec fn hint_of_level(level: PressureLevel) -> Seq<char> {
    match level {
        PressureLevel::Normal => "[device: ok]"@,
        PressureLevel::Cautious => "[device: memory-constrained — prefer concise replies, avoid heavy tool calls like web_search/fetch_url]"@,
        PressureLevel::Critical => "[device: critical — reply in 1-2 sentences only, no tool calls]"@,
    }
}

/// The limits (system prompt, messages, response body, reconnect backoff) of each level.
pub open spec fn budget_limits(level: PressureLevel) -> (usize, usize, usize, u64) {
    match level {
        PressureLevel::Normal => (DEFAULT_SYSTEM_MAX_LEN, DEFAULT_MESSAGES_MAX_LEN, MAX_RESPONSE_BODY_LEN, 5),
        PressureLevel::Cautious => (16384, 12288, 262144, 15),
        PressureLevel::Critical => (8192, 6144, 131072, 30),
    }
}

/// A budget is the one of its level.
pub open spec fn is_budget_of(b: ResourceBudget, level: PressureLevel) -> bool {
    let (sys, msgs, body, backoff) = budget_limits(level);
    &&& b.level == level
    &&& b.system_prompt_max == sys
    &&& b.messages_max == msgs
    &&& b.response_body_max == body
    &&& b.reconnect_backoff_secs == backoff
    &&& b.llm_hint@ == hint_of_level(level)
}

pub fn budget_for_level(level: PressureLevel) -> (r: ResourceBudget)
    ensures
        is_budget_of(r, level),
{
    match level {
        PressureLevel::Normal => ResourceBudget {
            level: PressureLevel::Normal,
            system_prompt_max: DEFAULT_SYSTEM_MAX_LEN,
            messages_max: DEFAULT_MESSAGES_MAX_LEN,
            response_body_max: MAX_RESPONSE_BODY_LEN,
            reconnect_backoff_secs: 5,
            llm_hint: "[device: ok]",
        },
        PressureLevel::Cautious => ResourceBudget {
            level: PressureLevel::Cautious,
            system_prompt_max: 16384,
            messages_max: 12288,
            response_body_max: 262144,
            reconnect_backoff_secs: 15,
            llm_hint: "[device: memory-constrained — prefer concise replies, avoid heavy tool calls like web_search/fetch_url]",
        },
        PressureLevel::Critical => ResourceBudget {
            level: PressureLevel::Critical,
            system_prompt_max: 8192,
            messages_max: 6144,
            response_body_max: 131072,
            reconnect_backoff_secs: 30,
            llm_hint: "[device: critical — reply in 1-2 sentences only, no tool calls]",
        },
    }
}

/// The pressure level that heap readings and the number of open HTTP requests call for.
/// Critical: internal heap under the cautious threshold and PSRAM absent or under its cautious threshold.
/// Cautious: internal heap under the normal threshold, present PSRAM under its normal threshold,
/// or the HTTP concurrency limit reached.
pub open spec fn pressure_for(internal: u32, spiram: u32, active_http: u32) -> PressureLevel {
    let internal_kb = internal / 1024u32;
    let spiram_mb = spiram / 1048576u32;
    if internal_kb < CAUTIOUS_INTERNAL_KB && (spiram == 0 || spiram_mb < CAUTIOUS_PSRAM_MB) {
        PressureLevel::Critical
    } else if internal_kb < NORMAL_INTERNAL_KB || (spiram > 0 && spiram_mb < NORMAL_PSRAM_MB) {
        PressureLevel::Cautious
    } else if active_http >= MAX_CONCURRENT_HTTP {
        PressureLevel::Cautious
    } else {
        PressureLevel::Normal
    }
}

pub fn compute_pressure(state: &OrchestratorState) -> (r: PressureLevel)
    ensures
        r == pressure_for(state.heap_free_internal, state.heap_free_spiram, state.active_http_count),
{
    let internal = state.heap_free_internal;
    let spiram = state.heap_free_spiram;
    let active_http = state.active_http_count;
    let internal_kb = internal / 1024;
    let spiram_mb = spiram / 1048576;
    if internal_kb < CAUTIOUS_INTERNAL_KB && (spiram == 0 || spiram_mb < CAUTIOUS_PSRAM_MB) {
        return PressureLevel::Critical;
    }
    if internal_kb < NORMAL_INTERNAL_KB || (spiram > 0 && spiram_mb < NORMAL_PSRAM_MB) {
        return PressureLevel::Cautious;
    }
    if active_http >= MAX_CONCURRENT_HTTP {
        return PressureLevel::Cautious;
    }
    PressureLevel::Normal
}

/// More free internal heap never raises the pressure level (all else equal).
pub proof fn lemma_pressure_monotone_in_internal(i1: u32, i2: u32, spiram: u32, active: u32)
    requires
        i1 <= i2,
    ensures
        byte_of_level(pressure_for(i2, spiram, active)) <= byte_of_level(pressure_for(i1, spiram, active)),
{
    assert(i1 / 1024 <= i2 / 1024) by (nonlinear_arith)
        requires i1 <= i2;
}

/// The level is critical exactly when the free internal heap is under 48 KiB and the free
/// PSRAM is under 1 MiB (none counts as under): enough PSRAM alone keeps the level above
/// critical, whatever the internal heap and the open requests.
pub proof fn lemma_critical_exactly_when_both_low(internal: u32, spiram: u32, active: u32)
    ensures
        pressure_for(internal, spiram, active) == PressureLevel::Critical <==> (internal < 49152 && spiram < 1048576),
        spiram >= 1048576 ==> pressure_for(internal, spiram, active) != PressureLevel::Critical,
{
}

/// The level is normal exactly when the free internal heap is at least 70 KiB, PSRAM is absent
/// or has at least 4 MiB free, and fewer than the concurrency limit of HTTP requests are open.
pub proof fn lemma_normal_exactly_when_all_clear(internal: u32, spiram: u32, active: u32)
    ensures
        pressure_for(internal, spiram, active) == PressureLevel::Normal <==>
            (internal >= 71680 && (spiram == 0 || spiram >= 4194304) && active < MAX_CONCURRENT_HTTP),
{
}

} // verus!
