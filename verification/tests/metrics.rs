use beetle::metrics::{
    record_channel_http_result, record_dispatch_send, record_error_by_stage, record_llm_call_end, record_llm_call_start,
    record_message_in, record_message_out, record_system_message_done, record_tool_call, record_wifi_failure_stage,
    snapshot, Metrics,
};

#[test]
fn counters_and_snapshot() {
    let mut m = Metrics::new();
    record_message_in(&mut m);
    record_message_in(&mut m);
    record_message_out(&mut m, 1_700_000_000);
    record_llm_call_start(&mut m);
    record_llm_call_end(&mut m, 5_000_000_000);
    record_tool_call(&mut m, false);
    record_tool_call(&mut m, true);
    record_dispatch_send(&mut m, true);
    record_channel_http_result(&mut m, false);
    record_system_message_done(&mut m, true);
    record_error_by_stage(&mut m, "llm_request");
    record_error_by_stage(&mut m, "something_else");
    let s = snapshot(&m);
    assert_eq!(s.messages_in, 2);
    assert_eq!(s.messages_out, 1);
    assert_eq!(s.last_active_epoch_secs, 1_700_000_000);
    assert_eq!(s.llm_calls, 1);
    assert_eq!(s.llm_last_ms, u32::MAX as u64);
    assert_eq!(s.tool_calls, 2);
    assert_eq!(s.tool_errors, 1);
    assert_eq!(s.dispatch_send_ok, 1);
    assert_eq!(s.channel_http_fail, 1);
    assert_eq!(s.system_messages_done, 1);
    assert_eq!(s.cron_messages_done, 1);
    assert_eq!(s.errors_llm_request, 1);
    assert_eq!(s.errors_other, 1);
}

#[test]
fn counters_wrap() {
    let mut m = Metrics::new();
    m.messages_in = u32::MAX;
    record_message_in(&mut m);
    assert_eq!(m.messages_in, 0);
}

#[test]
fn failure_stage_is_sanitized() {
    let mut m = Metrics::new();
    record_wifi_failure_stage(&mut m, "auth fail: pass=secret!");
    assert_eq!(m.wifi_last_failure_stage, "authfailpasssecret");
    let long = "x".repeat(100);
    record_wifi_failure_stage(&mut m, &long);
    assert_eq!(m.wifi_last_failure_stage.len(), 64);
}

#[test]
fn baseline_line() {
    let mut m = Metrics::new();
    record_message_in(&mut m);
    record_wifi_failure_stage(&mut m, "dhcp_timeout");
    let line = snapshot(&m).to_baseline_log_line();
    assert!(line.starts_with("metrics msg_in=1 msg_out=0 llm_calls=0"));
    assert!(line.ends_with(" wifi_last_fail_stage=dhcp_timeout"));
}
