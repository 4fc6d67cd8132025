//! Runtime metrics and error profile: throughput, queue waits, LLM and tool timings, and errors
//! grouped by stage, for the health API and the baseline log line.
use vstd::prelude::*;

use crate::text::{
    chars_to_string, decimal, extend_chars, extend_with_str, is_white_space, push_decimal,
    str_eq, str_to_chars,
};

verus! {

/// Counters of the runtime. Counters wrap at `u32::MAX`; last-value fields hold their value
/// capped at `u32::MAX`.
pub struct Metrics {
    pub messages_in: u32,
    pub messages_out: u32,
    pub llm_calls: u32,
    pub llm_errors: u32,
    pub llm_last_ms: u32,
    pub ttft_last_ms: u32,
    pub e2e_last_ms: u32,
    pub user_queue_wait_last_ms: u32,
    pub system_queue_wait_last_ms: u32,
    pub cron_e2e_last_ms: u32,
    pub react_rounds_last: u32,
    pub tool_calls_last: u32,
    pub user_messages_done: u32,
    pub system_messages_done: u32,
    pub cron_messages_done: u32,
    pub tool_calls: u32,
    pub tool_errors: u32,
    pub wdt_feeds: u32,
    pub dispatch_send_ok: u32,
    pub dispatch_send_fail: u32,
    pub outbound_enqueue_fail: u32,
    pub channel_http_ok: u32,
    pub channel_http_fail: u32,
    pub errors_agent_chat: u32,
    pub errors_agent_context: u32,
    pub errors_tool_execute: u32,
    pub errors_llm_request: u32,
    pub errors_llm_parse: u32,
    pub errors_channel_dispatch: u32,
    pub errors_session_append: u32,
    pub errors_tls_admission: u32,
    pub errors_other: u32,
    pub last_active_epoch_secs: u32,
    pub wifi_reconnect_total: u32,
    pub wifi_ap_restart_total: u32,
    /// Last WiFi failure stage (letters, digits and `_` only, at most 64 characters).
    pub wifi_last_failure_stage: String,
}

/// `a + 1`, wrapping at `u32::MAX`.
pub open spec fn wrap_inc(a: u32) -> u32 {
    if a == u32::MAX { 0 } else { (a + 1) as u32 }
}

/// A value in milliseconds, capped at `u32::MAX`.
pub open spec fn cap_u32(ms: int) -> u32 {
    if ms > u32::MAX { u32::MAX } else { ms as u32 }
}

fn cap_ms(ms: u128) -> (r: u32)
    ensures
        r == cap_u32(ms as int),
{
    if ms > u32::MAX as u128 { u32::MAX } else { ms as u32 }
}

impl Metrics {
    /// All counters zero, no failure stage.
    pub fn new() -> (r: Self)
        ensures
            r.messages_in == 0,
            r.messages_out == 0,
            r.llm_calls == 0,
            r.llm_errors == 0,
            r.llm_last_ms == 0,
            r.ttft_last_ms == 0,
            r.e2e_last_ms == 0,
            r.user_queue_wait_last_ms == 0,
            r.system_queue_wait_last_ms == 0,
            r.cron_e2e_last_ms == 0,
            r.react_rounds_last == 0,
            r.tool_calls_last == 0,
            r.user_messages_done == 0,
            r.system_messages_done == 0,
            r.cron_messages_done == 0,
            r.tool_calls == 0,
            r.tool_errors == 0,
            r.wdt_feeds == 0,
            r.dispatch_send_ok == 0,
            r.dispatch_send_fail == 0,
            r.outbound_enqueue_fail == 0,
            r.channel_http_ok == 0,
            r.channel_http_fail == 0,
            r.errors_agent_chat == 0,
            r.errors_agent_context == 0,
            r.errors_tool_execute == 0,
            r.errors_llm_request == 0,
            r.errors_llm_parse == 0,
            r.errors_channel_dispatch == 0,
            r.errors_session_append == 0,
            r.errors_tls_admission == 0,
            r.errors_other == 0,
            r.last_active_epoch_secs == 0,
            r.wifi_reconnect_total == 0,
            r.wifi_ap_restart_total == 0,
            r.wifi_last_failure_stage@ == Seq::<char>::empty(),
    {
        Metrics {
            messages_in: 0,
            messages_out: 0,
            llm_calls: 0,
            llm_errors: 0,
            llm_last_ms: 0,
            ttft_last_ms: 0,
            e2e_last_ms: 0,
            user_queue_wait_last_ms: 0,
            system_queue_wait_last_ms: 0,
            cron_e2e_last_ms: 0,
            react_rounds_last: 0,
            tool_calls_last: 0,
            user_messages_done: 0,
            system_messages_done: 0,
            cron_messages_done: 0,
            tool_calls: 0,
            tool_errors: 0,
            wdt_feeds: 0,
            dispatch_send_ok: 0,
            dispatch_send_fail: 0,
            outbound_enqueue_fail: 0,
            channel_http_ok: 0,
            channel_http_fail: 0,
            errors_agent_chat: 0,
            errors_agent_context: 0,
            errors_tool_execute: 0,
            errors_llm_request: 0,
            errors_llm_parse: 0,
            errors_channel_dispatch: 0,
            errors_session_append: 0,
            errors_tls_admission: 0,
            errors_other: 0,
            last_active_epoch_secs: 0,
            wifi_reconnect_total: 0,
            wifi_ap_restart_total: 0,
            wifi_last_failure_stage: String::new(),
        }
    }
}

/// Every counter but those named by `changed` is the same in both.
pub open spec fn same_counters_except(a: Metrics, b: Metrics, changed: Set<int>) -> bool {
    &&& (!changed.contains(0) ==> a.messages_in == b.messages_in)
    &&& (!changed.contains(1) ==> a.messages_out == b.messages_out)
    &&& (!changed.contains(2) ==> a.llm_calls == b.llm_calls)
    &&& (!changed.contains(3) ==> a.llm_errors == b.llm_errors)
    &&& (!changed.contains(4) ==> a.llm_last_ms == b.llm_last_ms)
    &&& (!changed.contains(5) ==> a.ttft_last_ms == b.ttft_last_ms)
    &&& (!changed.contains(6) ==> a.e2e_last_ms == b.e2e_last_ms)
    &&& (!changed.contains(7) ==> a.user_queue_wait_last_ms == b.user_queue_wait_last_ms)
    &&& (!changed.contains(8) ==> a.system_queue_wait_last_ms == b.system_queue_wait_last_ms)
    &&& (!changed.contains(9) ==> a.cron_e2e_last_ms == b.cron_e2e_last_ms)
    &&& (!changed.contains(10) ==> a.react_rounds_last == b.react_rounds_last)
    &&& (!changed.contains(11) ==> a.tool_calls_last == b.tool_calls_last)
    &&& (!changed.contains(12) ==> a.user_messages_done == b.user_messages_done)
    &&& (!changed.contains(13) ==> a.system_messages_done == b.system_messages_done)
    &&& (!changed.contains(14) ==> a.cron_messages_done == b.cron_messages_done)
    &&& (!changed.contains(15) ==> a.tool_calls == b.tool_calls)
    &&& (!changed.contains(16) ==> a.tool_errors == b.tool_errors)
    &&& (!changed.contains(17) ==> a.wdt_feeds == b.wdt_feeds)
    &&& (!changed.contains(18) ==> a.dispatch_send_ok == b.dispatch_send_ok)
    &&& (!changed.contains(19) ==> a.dispatch_send_fail == b.dispatch_send_fail)
    &&& (!changed.contains(20) ==> a.outbound_enqueue_fail == b.outbound_enqueue_fail)
    &&& (!changed.contains(21) ==> a.channel_http_ok == b.channel_http_ok)
    &&& (!changed.contains(22) ==> a.channel_http_fail == b.channel_http_fail)
    &&& (!changed.contains(23) ==> a.errors_agent_chat == b.errors_agent_chat)
    &&& (!changed.contains(24) ==> a.errors_agent_context == b.errors_agent_context)
    &&& (!changed.contains(25) ==> a.errors_tool_execute == b.errors_tool_execute)
    &&& (!changed.contains(26) ==> a.errors_llm_request == b.errors_llm_request)
    &&& (!changed.contains(27) ==> a.errors_llm_parse == b.errors_llm_parse)
    &&& (!changed.contains(28) ==> a.errors_channel_dispatch == b.errors_channel_dispatch)
    &&& (!changed.contains(29) ==> a.errors_session_append == b.errors_session_append)
    &&& (!changed.contains(30) ==> a.errors_tls_admission == b.errors_tls_admission)
    &&& (!changed.contains(31) ==> a.errors_other == b.errors_other)
    &&& (!changed.contains(32) ==> a.last_active_epoch_secs == b.last_active_epoch_secs)
    &&& (!changed.contains(33) ==> a.wifi_reconnect_total == b.wifi_reconnect_total)
    &&& (!changed.contains(34) ==> a.wifi_ap_restart_total == b.wifi_ap_restart_total)
    &&& a.wifi_last_failure_stage@ == b.wifi_last_failure_stage@
}

/// Counts one inbound message.
pub fn record_message_in(m: &mut Metrics)
    ensures
        final(m).messages_in == wrap_inc(old(m).messages_in),
        same_counters_except(*final(m), *old(m), set![0int]),
{
    m.messages_in = m.messages_in.wrapping_add(1);
}

/// Counts one outbound message and records the time of last activity (epoch seconds, capped).
pub fn record_message_out(m: &mut Metrics, now_epoch_secs: u64)
    ensures
        final(m).messages_out == wrap_inc(old(m).messages_out),
        final(m).last_active_epoch_secs == cap_u32(now_epoch_secs as int),
        same_counters_except(*final(m), *old(m), set![1int, 32int]),
{
    m.messages_out = m.messages_out.wrapping_add(1);
    m.last_active_epoch_secs = if now_epoch_secs > u32::MAX as u64 { u32::MAX } else { now_epoch_secs as u32 };
}

/// Counts one LLM call (the caller keeps the start time).
pub fn record_llm_call_start(m: &mut Metrics)
    ensures
        final(m).llm_calls == wrap_inc(old(m).llm_calls),
        same_counters_except(*final(m), *old(m), set![2int]),
{
    m.llm_calls = m.llm_calls.wrapping_add(1);
}

/// Records the duration of the last LLM call.
pub fn record_llm_call_end(m: &mut Metrics, ms: u128)
    ensures
        final(m).llm_last_ms == cap_u32(ms as int),
        same_counters_except(*final(m), *old(m), set![4int]),
{
    m.llm_last_ms = cap_ms(ms);
}

/// Records the last time to first token.
pub fn record_ttft_ms(m: &mut Metrics, ms: u128)
    ensures
        final(m).ttft_last_ms == cap_u32(ms as int),
        same_counters_except(*final(m), *old(m), set![5int]),
{
    m.ttft_last_ms = cap_ms(ms);
}

/// Records the last end-to-end latency.
pub fn record_e2e_ms(m: &mut Metrics, ms: u128)
    ensures
        final(m).e2e_last_ms == cap_u32(ms as int),
        same_counters_except(*final(m), *old(m), set![6int]),
{
    m.e2e_last_ms = cap_ms(ms);
}

/// Records the last queue wait of a user message.
pub fn record_user_queue_wait_ms(m: &mut Metrics, ms: u128)
    ensures
        final(m).user_queue_wait_last_ms == cap_u32(ms as int),
        same_counters_except(*final(m), *old(m), set![7int]),
{
    m.user_queue_wait_last_ms = cap_ms(ms);
}

/// Records the last queue wait of a system message.
pub fn record_system_queue_wait_ms(m: &mut Metrics, ms: u128)
    ensures
        final(m).system_queue_wait_last_ms == cap_u32(ms as int),
        same_counters_except(*final(m), *old(m), set![8int]),
{
    m.system_queue_wait_last_ms = cap_ms(ms);
}

/// Records the last end-to-end latency of a cron message.
pub fn record_cron_e2e_ms(m: &mut Metrics, ms: u128)
    ensures
        final(m).cron_e2e_last_ms == cap_u32(ms as int),
        same_counters_except(*final(m), *old(m), set![9int]),
{
    m.cron_e2e_last_ms = cap_ms(ms);
}

/// Counts one finished user message.
pub fn record_user_message_done(m: &mut Metrics)
    ensures
        final(m).user_messages_done == wrap_inc(old(m).user_messages_done),
        same_counters_except(*final(m), *old(m), set![12int]),
{
    m.user_messages_done = m.user_messages_done.wrapping_add(1);
}

/// Counts one finished system message, and one cron message when it came from cron.
pub fn record_system_message_done(m: &mut Metrics, is_cron: bool)
    ensures
        final(m).system_messages_done == wrap_inc(old(m).system_messages_done),
        final(m).cron_messages_done == if is_cron { wrap_inc(old(m).cron_messages_done) } else { old(m).cron_messages_done },
        same_counters_except(*final(m), *old(m), set![13int, 14int]),
{
    m.system_messages_done = m.system_messages_done.wrapping_add(1);
    if is_cron {
        m.cron_messages_done = m.cron_messages_done.wrapping_add(1);
    }
}

/// Records the ReAct rounds of the last message.
pub fn record_react_rounds(m: &mut Metrics, rounds: u32)
    ensures
        final(m).react_rounds_last == rounds,
        same_counters_except(*final(m), *old(m), set![10int]),
{
    m.react_rounds_last = rounds;
}

/// Records the tool calls of the last message.
pub fn record_tool_calls_last(m: &mut Metrics, calls: u32)
    ensures
        final(m).tool_calls_last == calls,
        same_counters_except(*final(m), *old(m), set![11int]),
{
    m.tool_calls_last = calls;
}

/// Counts one LLM error.
pub fn record_llm_error(m: &mut Metrics)
    ensures
        final(m).llm_errors == wrap_inc(old(m).llm_errors),
        same_counters_except(*final(m), *old(m), set![3int]),
{
    m.llm_errors = m.llm_errors.wrapping_add(1);
}

/// Counts one tool call, and one tool error when it failed.
pub fn record_tool_call(m: &mut Metrics, ok: bool)
    ensures
        final(m).tool_calls == wrap_inc(old(m).tool_calls),
        final(m).tool_errors == if ok { old(m).tool_errors } else { wrap_inc(old(m).tool_errors) },
        same_counters_except(*final(m), *old(m), set![15int, 16int]),
{
    m.tool_calls = m.tool_calls.wrapping_add(1);
    if !ok {
        m.tool_errors = m.tool_errors.wrapping_add(1);
    }
}

/// Counts one watchdog feed.
pub fn record_wdt_feed(m: &mut Metrics)
    ensures
        final(m).wdt_feeds == wrap_inc(old(m).wdt_feeds),
        same_counters_except(*final(m), *old(m), set![17int]),
{
    m.wdt_feeds = m.wdt_feeds.wrapping_add(1);
}

/// Counts one dispatch, as sent or failed.
pub fn record_dispatch_send(m: &mut Metrics, ok: bool)
    ensures
        ok ==> final(m).dispatch_send_ok == wrap_inc(old(m).dispatch_send_ok) && same_counters_except(*final(m), *old(m), set![18int]),
        !ok ==> final(m).dispatch_send_fail == wrap_inc(old(m).dispatch_send_fail) && same_counters_except(*final(m), *old(m), set![19int]),
{
    if ok {
        m.dispatch_send_ok = m.dispatch_send_ok.wrapping_add(1);
    } else {
        m.dispatch_send_fail = m.dispatch_send_fail.wrapping_add(1);
    }
}

/// Counts one failed enqueue of an outbound message (queue full or closed).
pub fn record_outbound_enqueue_fail(m: &mut Metrics)
    ensures
        final(m).outbound_enqueue_fail == wrap_inc(old(m).outbound_enqueue_fail),
        same_counters_except(*final(m), *old(m), set![20int]),
{
    m.outbound_enqueue_fail = m.outbound_enqueue_fail.wrapping_add(1);
}

/// Counts the result of one real channel HTTP request.
pub fn record_channel_http_result(m: &mut Metrics, ok: bool)
    ensures
        ok ==> final(m).channel_http_ok == wrap_inc(old(m).channel_http_ok) && same_counters_except(*final(m), *old(m), set![21int]),
        !ok ==> final(m).channel_http_fail == wrap_inc(old(m).channel_http_fail) && same_counters_except(*final(m), *old(m), set![22int]),
{
    if ok {
        m.channel_http_ok = m.channel_http_ok.wrapping_add(1);
    } else {
        m.channel_http_fail = m.channel_http_fail.wrapping_add(1);
    }
}

/// Counts one restart of the WiFi supplicant by the watchdog.
pub fn record_wifi_reconnect(m: &mut Metrics)
    ensures
        final(m).wifi_reconnect_total == wrap_inc(old(m).wifi_reconnect_total),
        same_counters_except(*final(m), *old(m), set![33int]),
{
    m.wifi_reconnect_total = m.wifi_reconnect_total.wrapping_add(1);
}

/// Counts one restart attempt of the access-point stack.
pub fn record_wifi_ap_restart(m: &mut Metrics)
    ensures
        final(m).wifi_ap_restart_total == wrap_inc(old(m).wifi_ap_restart_total),
        same_counters_except(*final(m), *old(m), set![34int]),
{
    m.wifi_ap_restart_total = m.wifi_ap_restart_total.wrapping_add(1);
}

/// Characters kept in a failure stage: ASCII letters and digits, and `_`.
pub open spec fn stage_char_ok(c: char) -> bool {
    ('a' <= c && c <= 'z') || ('A' <= c && c <= 'Z') || ('0' <= c && c <= '9') || c == '_'
}

/// The kept characters of `s`, in order.
pub open spec fn keep_stage_chars(s: Seq<char>) -> Seq<char>
    decreases s.len(),
{
    if s.len() == 0 {
        s
    } else if stage_char_ok(s.last()) {
        keep_stage_chars(s.drop_last()).push(s.last())
    } else {
        keep_stage_chars(s.drop_last())
    }
}

/// A failure stage as stored: kept characters, at most 64 of them.
pub open spec fn sanitize_stage(s: Seq<char>) -> Seq<char> {
    let k = keep_stage_chars(s);
    if k.len() <= 64 { k } else { k.take(64) }
}

proof fn lemma_keep_prefix(s: Seq<char>, i: int)
    requires
        0 <= i < s.len(),
    ensures
        keep_stage_chars(s.take(i + 1)) == if stage_char_ok(s[i]) {
            keep_stage_chars(s.take(i)).push(s[i])
        } else {
            keep_stage_chars(s.take(i))
        },
{
    assert(s.take(i + 1).drop_last() == s.take(i));
}

proof fn lemma_keep_grows(s: Seq<char>, i: int, j: int)
    requires
        0 <= i <= j <= s.len(),
    ensures
        keep_stage_chars(s.take(i)).len() <= keep_stage_chars(s.take(j)).len(),
        keep_stage_chars(s.take(j)).take(keep_stage_chars(s.take(i)).len() as int) == keep_stage_chars(s.take(i)),
    decreases j - i,
{
    if i < j {
        lemma_keep_grows(s, i, j - 1);
        lemma_keep_prefix(s, j - 1);
    }
}

/// Records the last WiFi failure stage, without secrets: only letters, digits and `_`, at most 64.
pub fn record_wifi_failure_stage(m: &mut Metrics, stage: &str)
    ensures
        final(m).wifi_last_failure_stage@ == sanitize_stage(stage@),
        forall|i: int| 0 <= i < 35 ==> #[trigger] counter_at(*final(m), i) == counter_at(*old(m), i),
{
    let v = str_to_chars(stage);
    let mut kept: Vec<char> = Vec::new();
    let mut i: usize = 0;
    while i < v.len() && kept.len() < 64
        invariant
            i <= v.len(),
            v@ == stage@,
            kept@ == keep_stage_chars(v@.take(i as int)),
            kept@.len() <= 64,
        decreases v.len() - i,
    {
        proof { lemma_keep_prefix(v@, i as int); }
        let c = v[i];
        if ('a' <= c && c <= 'z') || ('A' <= c && c <= 'Z') || ('0' <= c && c <= '9') || c == '_' {
            kept.push(c);
        }
        i = i + 1;
    }
    proof {
        lemma_keep_grows(v@, i as int, v@.len() as int);
        assert(v@.take(v@.len() as int) == v@);
        if kept@.len() < 64 {
            assert(i == v.len());
        }
    }
    m.wifi_last_failure_stage = chars_to_string(&kept);
}

/// Counter number `i` (in snapshot order).
pub open spec fn counter_at(m: Metrics, i: int) -> u32 {
    if i == 0 {
        m.messages_in
    } else if i == 1 {
        m.messages_out
    } else if i == 2 {
        m.llm_calls
    } else if i == 3 {
        m.llm_errors
    } else if i == 4 {
        m.llm_last_ms
    } else if i == 5 {
        m.ttft_last_ms
    } else if i == 6 {
        m.e2e_last_ms
    } else if i == 7 {
        m.user_queue_wait_last_ms
    } else if i == 8 {
        m.system_queue_wait_last_ms
    } else if i == 9 {
        m.cron_e2e_last_ms
    } else if i == 10 {
        m.react_rounds_last
    } else if i == 11 {
        m.tool_calls_last
    } else if i == 12 {
        m.user_messages_done
    } else if i == 13 {
        m.system_messages_done
    } else if i == 14 {
        m.cron_messages_done
    } else if i == 15 {
        m.tool_calls
    } else if i == 16 {
        m.tool_errors
    } else if i == 17 {
        m.wdt_feeds
    } else if i == 18 {
        m.dispatch_send_ok
    } else if i == 19 {
        m.dispatch_send_fail
    } else if i == 20 {
        m.outbound_enqueue_fail
    } else if i == 21 {
        m.channel_http_ok
    } else if i == 22 {
        m.channel_http_fail
    } else if i == 23 {
        m.errors_agent_chat
    } else if i == 24 {
        m.errors_agent_context
    } else if i == 25 {
        m.errors_tool_execute
    } else if i == 26 {
        m.errors_llm_request
    } else if i == 27 {
        m.errors_llm_parse
    } else if i == 28 {
        m.errors_channel_dispatch
    } else if i == 29 {
        m.errors_session_append
    } else if i == 30 {
        m.errors_tls_admission
    } else if i == 31 {
        m.errors_other
    } else if i == 32 {
        m.last_active_epoch_secs
    } else if i == 33 {
        m.wifi_reconnect_total
    } else if i == 34 {
        m.wifi_ap_restart_total
    } else {
        0
    }
}

/// The error counter that a stage name is counted under.
pub open spec fn stage_counter(stage: Seq<char>) -> int {
    if stage == "agent_chat"@ { 23 }
    else if stage == "agent_context"@ { 24 }
    else if stage == "tool_execute"@ { 25 }
    else if stage == "llm_request"@ { 26 }
    else if stage == "llm_parse"@ { 27 }
    else if stage == "channel_dispatch"@ { 28 }
    else if stage == "session_append"@ { 29 }
    else if stage == "tls_admission"@ { 30 }
    else { 31 }
}

/// Counts one error under its stage; unknown stages count as `other`.
pub fn record_error_by_stage(m: &mut Metrics, stage: &str)
    ensures
        counter_at(*final(m), stage_counter(stage@)) == wrap_inc(counter_at(*old(m), stage_counter(stage@))),
        same_counters_except(*final(m), *old(m), set![stage_counter(stage@)]),
{
    if str_eq(stage, "agent_chat") {
        m.errors_agent_chat = m.errors_agent_chat.wrapping_add(1);
    } else if str_eq(stage, "agent_context") {
        m.errors_agent_context = m.errors_agent_context.wrapping_add(1);
    } else if str_eq(stage, "tool_execute") {
        m.errors_tool_execute = m.errors_tool_execute.wrapping_add(1);
    } else if str_eq(stage, "llm_request") {
        m.errors_llm_request = m.errors_llm_request.wrapping_add(1);
    } else if str_eq(stage, "llm_parse") {
        m.errors_llm_parse = m.errors_llm_parse.wrapping_add(1);
    } else if str_eq(stage, "channel_dispatch") {
        m.errors_channel_dispatch = m.errors_channel_dispatch.wrapping_add(1);
    } else if str_eq(stage, "session_append") {
        m.errors_session_append = m.errors_session_append.wrapping_add(1);
    } else if str_eq(stage, "tls_admission") {
        m.errors_tls_admission = m.errors_tls_admission.wrapping_add(1);
    } else {
        m.errors_other = m.errors_other.wrapping_add(1);
    }
}

/// Snapshot of the metrics for the health API and the baseline log (no secrets).
pub struct MetricsSnapshot {
    pub messages_in: u64,
    pub messages_out: u64,
    pub llm_calls: u64,
    pub llm_errors: u64,
    pub llm_last_ms: u64,
    pub ttft_last_ms: u64,
    pub e2e_last_ms: u64,
    pub user_queue_wait_last_ms: u64,
    pub system_queue_wait_last_ms: u64,
    pub cron_e2e_last_ms: u64,
    pub react_rounds_last: u64,
    pub tool_calls_last: u64,
    pub user_messages_done: u64,
    pub system_messages_done: u64,
    pub cron_messages_done: u64,
    pub tool_calls: u64,
    pub tool_errors: u64,
    pub wdt_feeds: u64,
    pub dispatch_send_ok: u64,
    pub dispatch_send_fail: u64,
    pub outbound_enqueue_fail: u64,
    pub channel_http_ok: u64,
    pub channel_http_fail: u64,
    pub errors_agent_chat: u64,
    pub errors_agent_context: u64,
    pub errors_tool_execute: u64,
    pub errors_llm_request: u64,
    pub errors_llm_parse: u64,
    pub errors_channel_dispatch: u64,
    pub errors_session_append: u64,
    pub errors_tls_admission: u64,
    pub errors_other: u64,
    pub last_active_epoch_secs: u64,
    pub wifi_reconnect_total: u64,
    pub wifi_ap_restart_total: u64,
    pub wifi_last_failure_stage: String,
}

/// A snapshot reports the counters it was taken from.
pub open spec fn snapshot_of(s: MetricsSnapshot, m: Metrics) -> bool {
    &&& s.messages_in == m.messages_in
    &&& s.messages_out == m.messages_out
    &&& s.llm_calls == m.llm_calls
    &&& s.llm_errors == m.llm_errors
    &&& s.llm_last_ms == m.llm_last_ms
    &&& s.ttft_last_ms == m.ttft_last_ms
    &&& s.e2e_last_ms == m.e2e_last_ms
    &&& s.user_queue_wait_last_ms == m.user_queue_wait_last_ms
    &&& s.system_queue_wait_last_ms == m.system_queue_wait_last_ms
    &&& s.cron_e2e_last_ms == m.cron_e2e_last_ms
    &&& s.react_rounds_last == m.react_rounds_last
    &&& s.tool_calls_last == m.tool_calls_last
    &&& s.user_messages_done == m.user_messages_done
    &&& s.system_messages_done == m.system_messages_done
    &&& s.cron_messages_done == m.cron_messages_done
    &&& s.tool_calls == m.tool_calls
    &&& s.tool_errors == m.tool_errors
    &&& s.wdt_feeds == m.wdt_feeds
    &&& s.dispatch_send_ok == m.dispatch_send_ok
    &&& s.dispatch_send_fail == m.dispatch_send_fail
    &&& s.outbound_enqueue_fail == m.outbound_enqueue_fail
    &&& s.channel_http_ok == m.channel_http_ok
    &&& s.channel_http_fail == m.channel_http_fail
    &&& s.errors_agent_chat == m.errors_agent_chat
    &&& s.errors_agent_context == m.errors_agent_context
    &&& s.errors_tool_execute == m.errors_tool_execute
    &&& s.errors_llm_request == m.errors_llm_request
    &&& s.errors_llm_parse == m.errors_llm_parse
    &&& s.errors_channel_dispatch == m.errors_channel_dispatch
    &&& s.errors_session_append == m.errors_session_append
    &&& s.errors_tls_admission == m.errors_tls_admission
    &&& s.errors_other == m.errors_other
    &&& s.last_active_epoch_secs == m.last_active_epoch_secs
    &&& s.wifi_reconnect_total == m.wifi_reconnect_total
    &&& s.wifi_ap_restart_total == m.wifi_ap_restart_total
    &&& s.wifi_last_failure_stage@ == m.wifi_last_failure_stage@
}

/// Snapshot of the metrics.
pub fn snapshot(m: &Metrics) -> (r: MetricsSnapshot)
    ensures
        snapshot_of(r, *m),
{
    MetricsSnapshot {
        messages_in: m.messages_in as u64,
        messages_out: m.messages_out as u64,
        llm_calls: m.llm_calls as u64,
        llm_errors: m.llm_errors as u64,
        llm_last_ms: m.llm_last_ms as u64,
        ttft_last_ms: m.ttft_last_ms as u64,
        e2e_last_ms: m.e2e_last_ms as u64,
        user_queue_wait_last_ms: m.user_queue_wait_last_ms as u64,
        system_queue_wait_last_ms: m.system_queue_wait_last_ms as u64,
        cron_e2e_last_ms: m.cron_e2e_last_ms as u64,
        react_rounds_last: m.react_rounds_last as u64,
        tool_calls_last: m.tool_calls_last as u64,
        user_messages_done: m.user_messages_done as u64,
        system_messages_done: m.system_messages_done as u64,
        cron_messages_done: m.cron_messages_done as u64,
        tool_calls: m.tool_calls as u64,
        tool_errors: m.tool_errors as u64,
        wdt_feeds: m.wdt_feeds as u64,
        dispatch_send_ok: m.dispatch_send_ok as u64,
        dispatch_send_fail: m.dispatch_send_fail as u64,
        outbound_enqueue_fail: m.outbound_enqueue_fail as u64,
        channel_http_ok: m.channel_http_ok as u64,
        channel_http_fail: m.channel_http_fail as u64,
        errors_agent_chat: m.errors_agent_chat as u64,
        errors_agent_context: m.errors_agent_context as u64,
        errors_tool_execute: m.errors_tool_execute as u64,
        errors_llm_request: m.errors_llm_request as u64,
        errors_llm_parse: m.errors_llm_parse as u64,
        errors_channel_dispatch: m.errors_channel_dispatch as u64,
        errors_session_append: m.errors_session_append as u64,
        errors_tls_admission: m.errors_tls_admission as u64,
        errors_other: m.errors_other as u64,
        last_active_epoch_secs: m.last_active_epoch_secs as u64,
        wifi_reconnect_total: m.wifi_reconnect_total as u64,
        wifi_ap_restart_total: m.wifi_ap_restart_total as u64,
        wifi_last_failure_stage: m.wifi_last_failure_stage.clone(),
    }
}

/// The baseline log line: `metrics` followed by `key=value` pairs.
pub open spec fn baseline_log_line(s: MetricsSnapshot) -> Seq<char> {
    "metrics"@
        + " msg_in="@ + decimal(s.messages_in as nat)
        + " msg_out="@ + decimal(s.messages_out as nat)
        + " llm_calls="@ + decimal(s.llm_calls as nat)
        + " llm_err="@ + decimal(s.llm_errors as nat)
        + " llm_last_ms="@ + decimal(s.llm_last_ms as nat)
        + " ttft_last_ms="@ + decimal(s.ttft_last_ms as nat)
        + " e2e_last_ms="@ + decimal(s.e2e_last_ms as nat)
        + " user_q_wait_ms="@ + decimal(s.user_queue_wait_last_ms as nat)
        + " sys_q_wait_ms="@ + decimal(s.system_queue_wait_last_ms as nat)
        + " cron_e2e_ms="@ + decimal(s.cron_e2e_last_ms as nat)
        + " react_rounds_last="@ + decimal(s.react_rounds_last as nat)
        + " tool_calls_last="@ + decimal(s.tool_calls_last as nat)
        + " user_done="@ + decimal(s.user_messages_done as nat)
        + " sys_done="@ + decimal(s.system_messages_done as nat)
        + " cron_done="@ + decimal(s.cron_messages_done as nat)
        + " tool_calls="@ + decimal(s.tool_calls as nat)
        + " tool_err="@ + decimal(s.tool_errors as nat)
        + " wdt_feeds="@ + decimal(s.wdt_feeds as nat)
        + " dispatch_ok="@ + decimal(s.dispatch_send_ok as nat)
        + " dispatch_fail="@ + decimal(s.dispatch_send_fail as nat)
        + " outbound_enq_fail="@ + decimal(s.outbound_enqueue_fail as nat)
        + " channel_http_ok="@ + decimal(s.channel_http_ok as nat)
        + " channel_http_fail="@ + decimal(s.channel_http_fail as nat)
        + " err_chat="@ + decimal(s.errors_agent_chat as nat)
        + " err_ctx="@ + decimal(s.errors_agent_context as nat)
        + " err_tool="@ + decimal(s.errors_tool_execute as nat)
        + " err_llm_req="@ + decimal(s.errors_llm_request as nat)
        + " err_llm_parse="@ + decimal(s.errors_llm_parse as nat)
        + " err_dispatch="@ + decimal(s.errors_channel_dispatch as nat)
        + " err_session="@ + decimal(s.errors_session_append as nat)
        + " err_tls_admission="@ + decimal(s.errors_tls_admission as nat)
        + " err_other="@ + decimal(s.errors_other as nat)
        + " last_active_epoch="@ + decimal(s.last_active_epoch_secs as nat)
        + " wifi_reconn="@ + decimal(s.wifi_reconnect_total as nat)
        + " wifi_ap_restart="@ + decimal(s.wifi_ap_restart_total as nat)
        + " wifi_last_fail_stage="@ + s.wifi_last_failure_stage@
}

impl MetricsSnapshot {
    /// Structured single-line log for baseline comparison.
    pub fn to_baseline_log_line(&self) -> (r: String)
        ensures
            r@ == baseline_log_line(*self),
    {
        let mut v: Vec<char> = Vec::new();
        extend_with_str(&mut v, "metrics");
        extend_with_str(&mut v, " msg_in=");
        push_decimal(&mut v, self.messages_in);
        extend_with_str(&mut v, " msg_out=");
        push_decimal(&mut v, self.messages_out);
        extend_with_str(&mut v, " llm_calls=");
        push_decimal(&mut v, self.llm_calls);
        extend_with_str(&mut v, " llm_err=");
        push_decimal(&mut v, self.llm_errors);
        extend_with_str(&mut v, " llm_last_ms=");
        push_decimal(&mut v, self.llm_last_ms);
        extend_with_str(&mut v, " ttft_last_ms=");
        push_decimal(&mut v, self.ttft_last_ms);
        extend_with_str(&mut v, " e2e_last_ms=");
        push_decimal(&mut v, self.e2e_last_ms);
        extend_with_str(&mut v, " user_q_wait_ms=");
        push_decimal(&mut v, self.user_queue_wait_last_ms);
        extend_with_str(&mut v, " sys_q_wait_ms=");
        push_decimal(&mut v, self.system_queue_wait_last_ms);
        extend_with_str(&mut v, " cron_e2e_ms=");
        push_decimal(&mut v, self.cron_e2e_last_ms);
        extend_with_str(&mut v, " react_rounds_last=");
        push_decimal(&mut v, self.react_rounds_last);
        extend_with_str(&mut v, " tool_calls_last=");
        push_decimal(&mut v, self.tool_calls_last);
        extend_with_str(&mut v, " user_done=");
        push_decimal(&mut v, self.user_messages_done);
        extend_with_str(&mut v, " sys_done=");
        push_decimal(&mut v, self.system_messages_done);
        extend_with_str(&mut v, " cron_done=");
        push_decimal(&mut v, self.cron_messages_done);
        extend_with_str(&mut v, " tool_calls=");
        push_decimal(&mut v, self.tool_calls);
        extend_with_str(&mut v, " tool_err=");
        push_decimal(&mut v, self.tool_errors);
        extend_with_str(&mut v, " wdt_feeds=");
        push_decimal(&mut v, self.wdt_feeds);
        extend_with_str(&mut v, " dispatch_ok=");
        push_decimal(&mut v, self.dispatch_send_ok);
        extend_with_str(&mut v, " dispatch_fail=");
        push_decimal(&mut v, self.dispatch_send_fail);
        extend_with_str(&mut v, " outbound_enq_fail=");
        push_decimal(&mut v, self.outbound_enqueue_fail);
        extend_with_str(&mut v, " channel_http_ok=");
        push_decimal(&mut v, self.channel_http_ok);
        extend_with_str(&mut v, " channel_http_fail=");
        push_decimal(&mut v, self.channel_http_fail);
        extend_with_str(&mut v, " err_chat=");
        push_decimal(&mut v, self.errors_agent_chat);
        extend_with_str(&mut v, " err_ctx=");
        push_decimal(&mut v, self.errors_agent_context);
        extend_with_str(&mut v, " err_tool=");
        push_decimal(&mut v, self.errors_tool_execute);
        extend_with_str(&mut v, " err_llm_req=");
        push_decimal(&mut v, self.errors_llm_request);
        extend_with_str(&mut v, " err_llm_parse=");
        push_decimal(&mut v, self.errors_llm_parse);
        extend_with_str(&mut v, " err_dispatch=");
        push_decimal(&mut v, self.errors_channel_dispatch);
        extend_with_str(&mut v, " err_session=");
        push_decimal(&mut v, self.errors_session_append);
        extend_with_str(&mut v, " err_tls_admission=");
        push_decimal(&mut v, self.errors_tls_admission);
        extend_with_str(&mut v, " err_other=");
        push_decimal(&mut v, self.errors_other);
        extend_with_str(&mut v, " last_active_epoch=");
        push_decimal(&mut v, self.last_active_epoch_secs);
        extend_with_str(&mut v, " wifi_reconn=");
        push_decimal(&mut v, self.wifi_reconnect_total);
        extend_with_str(&mut v, " wifi_ap_restart=");
        push_decimal(&mut v, self.wifi_ap_restart_total);
        extend_with_str(&mut v, " wifi_last_fail_stage=");
        extend_with_str(&mut v, self.wifi_last_failure_stage.as_str());
        chars_to_string(&v)
    }
}

} // verus!
