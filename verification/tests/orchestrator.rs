use beetle::orchestrator::admission::{
    can_call_llm, can_execute_tool, cautious_outbound_defer_delay_ms, should_accept_inbound, should_accept_outbound,
    AdmissionDecision, LlmDecision, ToolDecision,
};
use beetle::orchestrator::channel_health::ChannelHealthSlot;
use beetle::orchestrator::control::{
    current_budget, current_pressure, format_resource_baseline_line, init, is_channel_healthy_pub,
    log_baseline, record_channel_result_pub, refresh_heap_if_stale, release_http_permit,
    request_http_permit, snapshot, update_heap_state, update_queue_depth, update_session_storage,
    Orchestrator,
};
use beetle::orchestrator::permit::{check_internal_heap_for_tls, PermitError, Priority};
use beetle::orchestrator::pressure::{budget_for_level, compute_pressure, PressureLevel};
use beetle::orchestrator::state::{channel_to_index, ChannelIndex, OrchestratorState};
use beetle::platform::MemorySnapshot;

fn snap(internal: u32, spiram: u32, largest: u32) -> MemorySnapshot {
    MemorySnapshot { heap_free_internal: internal, heap_free_spiram: spiram, heap_largest_block: largest }
}

#[test]
fn pressure_levels_from_heap() {
    let mut s = OrchestratorState::new();
    s.update_heap(200 * 1024, 0, 100 * 1024);
    assert_eq!(compute_pressure(&s), PressureLevel::Normal);
    s.update_heap(60 * 1024, 0, 100 * 1024);
    assert_eq!(compute_pressure(&s), PressureLevel::Cautious);
    s.update_heap(40 * 1024, 0, 100 * 1024);
    assert_eq!(compute_pressure(&s), PressureLevel::Critical);
    // PSRAM present but small keeps the level at cautious.
    s.update_heap(200 * 1024, 2 * 1024 * 1024, 100 * 1024);
    assert_eq!(compute_pressure(&s), PressureLevel::Cautious);
    // Two open requests reach the concurrency limit.
    s.update_heap(200 * 1024, 0, 100 * 1024);
    s.active_http_count = 2;
    assert_eq!(compute_pressure(&s), PressureLevel::Cautious);
}

#[test]
fn pressure_level_bytes() {
    assert_eq!(PressureLevel::from_byte(0), PressureLevel::Normal);
    assert_eq!(PressureLevel::from_byte(1), PressureLevel::Cautious);
    assert_eq!(PressureLevel::from_byte(7), PressureLevel::Critical);
    assert_eq!(PressureLevel::Cautious.to_byte(), 1);
    assert_eq!(PressureLevel::Critical.name(), "Critical");
}

#[test]
fn budgets_per_level() {
    let n = budget_for_level(PressureLevel::Normal);
    assert_eq!(n.system_prompt_max, 32768);
    assert_eq!(n.response_body_max, 524288);
    assert_eq!(n.llm_hint, "[device: ok]");
    let c = budget_for_level(PressureLevel::Critical);
    assert_eq!(c.system_prompt_max, 8192);
    assert_eq!(c.messages_max, 6144);
    assert_eq!(c.reconnect_backoff_secs, 30);
}

#[test]
fn inbound_admission() {
    let mut s = OrchestratorState::new();
    s.pressure_level = 0;
    assert!(matches!(should_accept_inbound(&s, "telegram", "42"), AdmissionDecision::Accept));
    s.pressure_level = 1;
    assert!(matches!(should_accept_inbound(&s, "telegram", "cron"), AdmissionDecision::Reject { reason: "cautious_cron_skip" }));
    assert!(matches!(should_accept_inbound(&s, "telegram", "42"), AdmissionDecision::Accept));
    s.pressure_level = 2;
    assert!(matches!(should_accept_inbound(&s, "telegram", "cron"), AdmissionDecision::Reject { reason: "critical_pressure_background" }));
    s.inbound_depth = 10;
    assert!(matches!(should_accept_inbound(&s, "telegram", "42"), AdmissionDecision::Defer { delay_ms: 1800 }));
    s.inbound_depth = 0;
    assert!(matches!(should_accept_inbound(&s, "telegram", "42"), AdmissionDecision::Defer { delay_ms: 650 }));
}

#[test]
fn llm_and_tool_gates() {
    let mut s = OrchestratorState::new();
    s.pressure_level = 2;
    assert!(matches!(can_call_llm(&s), LlmDecision::Degrade { reason: "critical_pressure" }));
    assert!(matches!(can_execute_tool(&s, "web_search", true), ToolDecision::Deny { reason: "critical_no_network_tools" }));
    assert!(matches!(can_execute_tool(&s, "get_time", false), ToolDecision::Allow));
    s.pressure_level = 1;
    s.heap_largest_block = 0;
    assert!(matches!(can_call_llm(&s), LlmDecision::RetryLater { delay_ms: 1200 }));
    s.heap_largest_block = 32 * 1024;
    assert!(matches!(can_call_llm(&s), LlmDecision::Proceed));
    s.heap_free_internal = 1000;
    assert!(matches!(can_execute_tool(&s, "fetch_url", true), ToolDecision::Deny { reason: "cautious_low_heap_for_http_tool" }));
    s.pressure_level = 0;
    assert!(matches!(can_execute_tool(&s, "fetch_url", true), ToolDecision::Allow));
}

#[test]
fn outbound_is_never_rejected() {
    let mut s = OrchestratorState::new();
    s.pressure_level = 2;
    s.outbound_depth = 9;
    assert!(matches!(should_accept_outbound(&s, "feishu"), AdmissionDecision::Defer { delay_ms: 500 }));
    s.outbound_depth = 1;
    assert!(matches!(should_accept_outbound(&s, "feishu"), AdmissionDecision::Accept));
    s.pressure_level = 1;
    s.outbound_depth = 8;
    assert!(matches!(should_accept_outbound(&s, "feishu"), AdmissionDecision::Accept));
    assert_eq!(cautious_outbound_defer_delay_ms(&s), 120);
    s.outbound_depth = 16;
    assert!(matches!(should_accept_outbound(&s, "feishu"), AdmissionDecision::Accept));
    assert_eq!(cautious_outbound_defer_delay_ms(&s), 300);
}

#[test]
fn channel_indexes() {
    assert!(matches!(channel_to_index("telegram"), Some(ChannelIndex::Telegram)));
    assert!(matches!(channel_to_index("qq_channel"), Some(ChannelIndex::QqChannel)));
    assert!(channel_to_index("email").is_none());
}

#[test]
fn channel_breaker_trips_after_three_failures_and_recovers() {
    let mut o = Orchestrator::new();
    assert!(is_channel_healthy_pub(&o, "feishu"));
    record_channel_result_pub(&mut o, "feishu", false);
    record_channel_result_pub(&mut o, "feishu", false);
    assert!(is_channel_healthy_pub(&o, "feishu"));
    record_channel_result_pub(&mut o, "feishu", false);
    assert!(!is_channel_healthy_pub(&o, "feishu"));
    assert!(is_channel_healthy_pub(&o, "telegram"));
    record_channel_result_pub(&mut o, "feishu", true);
    assert!(is_channel_healthy_pub(&o, "feishu"));
    let s = snapshot(&o);
    assert_eq!(s.channels.feishu.consecutive_failures, 0);
    // Unknown channels are always healthy and change nothing.
    record_channel_result_pub(&mut o, "email", false);
    assert!(is_channel_healthy_pub(&o, "email"));
}

#[test]
fn health_slot_counts() {
    let mut slot = ChannelHealthSlot::new();
    slot.record(false);
    slot.record(true);
    slot.record(false);
    assert_eq!(slot.consecutive_failures, 1);
    assert_eq!(slot.total_failures, 2);
    assert_eq!(slot.total_successes, 1);
    assert!(slot.is_healthy());
}

#[test]
fn permits_are_exclusive_and_released() {
    let mut o = Orchestrator::new();
    update_heap_state(&mut o, snap(200 * 1024, 0, 100 * 1024));
    let live = snap(200 * 1024, 0, 100 * 1024);
    let p = request_http_permit(&mut o, Priority::Normal, live).unwrap();
    assert_eq!(p.priority(), Priority::Normal);
    assert_eq!(o.state.active_http_count, 1);
    assert!(matches!(request_http_permit(&mut o, Priority::High, live), Err(PermitError::TlsBusy)));
    release_http_permit(&mut o, p);
    assert_eq!(o.state.active_http_count, 0);
    assert!(!o.tls_permit_held);
    let p2 = request_http_permit(&mut o, Priority::High, live);
    assert!(p2.is_ok());
}

#[test]
fn permits_refused_under_pressure_or_low_heap() {
    let mut o = Orchestrator::new();
    update_heap_state(&mut o, snap(10 * 1024, 0, 100 * 1024));
    assert_eq!(current_pressure(&o), PressureLevel::Critical);
    let live = snap(200 * 1024, 0, 100 * 1024);
    assert!(matches!(request_http_permit(&mut o, Priority::Normal, live), Err(PermitError::CriticalPressure)));
    let mut o2 = Orchestrator::new();
    let low = snap(30000, 0, 100 * 1024);
    assert!(matches!(
        request_http_permit(&mut o2, Priority::High, low),
        Err(PermitError::HeapTooLow { free: 30000, min: 65536, spiram: 0 })
    ));
    assert!(matches!(
        check_internal_heap_for_tls(snap(50000, 1 << 20, 1000)),
        Err(PermitError::HeapFragmented { largest: 1000, min: 16384 })
    ));
    assert!(check_internal_heap_for_tls(snap(50000, 1 << 20, 20000)).is_ok());
}

#[test]
fn init_and_refresh() {
    let mut o = Orchestrator::new();
    init(&mut o, snap(40 * 1024, 0, 0));
    assert!(o.initialized);
    assert_eq!(current_pressure(&o), PressureLevel::Critical);
    // A second init does not sample again.
    init(&mut o, snap(500 * 1024, 0, 0));
    assert_eq!(current_pressure(&o), PressureLevel::Critical);
    // Less than two seconds since the last refresh: cached.
    o.last_refresh_secs = 10;
    assert_eq!(refresh_heap_if_stale(&mut o, 11, snap(500 * 1024, 0, 0)), PressureLevel::Critical);
    assert_eq!(refresh_heap_if_stale(&mut o, 12, snap(500 * 1024, 0, 0)), PressureLevel::Normal);
    assert_eq!(o.last_refresh_secs, 12);
    assert_eq!(current_budget(&o).level, PressureLevel::Normal);
}

#[test]
fn baseline_lines() {
    let mut o = Orchestrator::new();
    update_heap_state(&mut o, snap(100000, 0, 50000));
    update_queue_depth(&mut o, 3, 4);
    update_session_storage(&mut o, 5, 6, 7);
    assert_eq!(
        format_resource_baseline_line(&o),
        "resource pressure=Normal heap_internal=100000 heap_spiram=0 heap_largest=50000 active_http=0 inbound=3 outbound=4"
    );
    let s = snapshot(&o);
    assert_eq!(s.session_count, 5);
    assert_eq!(s.storage_total_kb, 7);
    assert_eq!(
        log_baseline(snap(1, 2, 3)),
        "[orchestrator] TLS admission baseline: internal_free=1 largest_block=3 spiram_free=2 min_internal=40960 min_largest=16384"
    );
}
