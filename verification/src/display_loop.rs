//! Decisions of the status display's refresh loop: which state the dashboard shows, when an
//! error flash is on, which screen regions changed since the last round, when the backlight
//! sleeps and wakes, and whether a round repaints the whole dashboard or only the regions that
//! changed. The loop itself (sleeping, reading the snapshot, sending display commands) runs
//! around these decisions.
use vstd::prelude::*;

use crate::dashboard::{compute_refresh_secs, refresh_secs, DisplaySystemState};
use crate::constants::DISPLAY_REFRESH_IDLE_SECS;
use crate::metrics::Metrics;
use crate::orchestrator::pressure::PressureLevel;
use crate::text::str_eq;

verus! {

/// The state the dashboard shows: a fault under critical pressure, then no WiFi, recording,
/// playing, busy, and idle otherwise, in this order of precedence.
pub open spec fn system_state_of(critical: bool, sta_connected: bool, recording: bool, playing: bool, busy: bool) -> DisplaySystemState {
    if critical {
        DisplaySystemState::Fault
    } else if !sta_connected {
        DisplaySystemState::NoWifi
    } else if recording {
        DisplaySystemState::Recording
    } else if playing {
        DisplaySystemState::Playing
    } else if busy {
        DisplaySystemState::Busy
    } else {
        DisplaySystemState::Idle
    }
}

/// The state the dashboard shows (see `system_state_of`).
pub fn display_system_state(critical: bool, sta_connected: bool, recording: bool, playing: bool, busy: bool) -> (s: DisplaySystemState)
    ensures
        s == system_state_of(critical, sta_connected, recording, playing, busy),
{
    if critical {
        DisplaySystemState::Fault
    } else if !sta_connected {
        DisplaySystemState::NoWifi
    } else if recording {
        DisplaySystemState::Recording
    } else if playing {
        DisplaySystemState::Playing
    } else if busy {
        DisplaySystemState::Busy
    } else {
        DisplaySystemState::Idle
    }
}

/// The system is busy while an agent task or an HTTP request runs, or a queue holds a message.
pub fn snapshot_busy(active_agent_tasks: u32, active_http_count: u32, inbound_depth: u32, outbound_depth: u32) -> (r: bool)
    ensures
        r == (active_agent_tasks > 0 || active_http_count > 0 || inbound_depth > 0 || outbound_depth > 0),
{
    active_agent_tasks > 0 || active_http_count > 0 || inbound_depth > 0 || outbound_depth > 0
}

/// Errors counted so far, over every error counter; a rise starts an error flash.
pub open spec fn error_total_of(m: Metrics) -> int {
    m.errors_agent_chat + m.errors_agent_context + m.errors_tool_execute + m.errors_llm_request
        + m.errors_llm_parse + m.errors_channel_dispatch + m.errors_session_append
        + m.errors_tls_admission + m.errors_other
}

/// Errors counted so far (see `error_total_of`).
pub fn display_error_total(m: &Metrics) -> (r: u64)
    ensures
        r == error_total_of(*m),
{
    m.errors_agent_chat as u64 + m.errors_agent_context as u64 + m.errors_tool_execute as u64
        + m.errors_llm_request as u64 + m.errors_llm_parse as u64 + m.errors_channel_dispatch as u64
        + m.errors_session_append as u64 + m.errors_tls_admission as u64 + m.errors_other as u64
}

/// What the display loop remembers between rounds: what was last drawn in each region, the
/// refresh interval, the busy animation phase, the error count, the time of the last change
/// (seconds on a monotonic clock) and whether the backlight is off.
pub struct DisplayLoopState {
    pub last_state: Option<DisplaySystemState>,
    pub last_ip: String,
    pub last_channels: [(bool, bool, u32); 5],
    pub last_pressure: Option<PressureLevel>,
    pub last_heap: u8,
    pub last_msg_in: u32,
    pub last_msg_out: u32,
    pub last_llm_ms: u32,
    pub refresh_secs: u64,
    pub busy_toggle: bool,
    pub last_error_total: u64,
    pub flash_active: bool,
    pub last_activity_secs: u64,
    pub backlight_off: bool,
}

/// What one round reads: the time, the snapshot's figures and the sleep setting.
pub struct DisplayTickInput {
    pub now_secs: u64,
    pub state: DisplaySystemState,
    pub pressure: PressureLevel,
    pub ip: String,
    /// Per channel: enabled, healthy, consecutive failures.
    pub channels: [(bool, bool, u32); 5],
    pub heap_percent: u8,
    pub msg_in: u32,
    pub msg_out: u32,
    pub llm_ms: u32,
    pub error_total: u64,
    /// Auto-sleep is on (a timeout is set and the backlight can be switched).
    pub sleep_enabled: bool,
    pub sleep_timeout_secs: u64,
}

/// What one round does.
pub enum DisplayAction {
    /// Fade the backlight in; nothing is drawn this round.
    Wake,
    /// Fade the backlight out; nothing is drawn this round.
    Sleep,
    /// The backlight is off and nothing changed: nothing to do.
    Skip,
    /// Repaint the whole dashboard in `state`.
    Refresh { state: DisplaySystemState, busy_phase: bool, error_flash: bool },
    /// Repaint only the regions that changed: the address line, the channel list, the footer.
    Partial { ip: bool, channels: bool, footer: bool, error_flash: bool },
}

/// The heap bar moves only by two percent or more (so that it does not flicker).
pub open spec fn heap_moved(last: u8, now: u8) -> bool {
    (if last >= now { last - now } else { now - last }) >= 2
}

impl DisplayLoopState {
    /// The loop's state before its first round at `now_secs`: nothing drawn yet (the heap and
    /// message counts hold values that force a first repaint), the idle interval, no flash,
    /// backlight on.
    pub fn new(now_secs: u64) -> (r: Self)
        ensures
            r.last_state is None,
            r.last_ip@ == Seq::<char>::empty(),
            r.last_channels@ == seq![(false, false, 0u32), (false, false, 0u32), (false, false, 0u32), (false, false, 0u32), (false, false, 0u32)],
            r.last_pressure is None,
            r.last_heap == 255,
            r.last_msg_in == u32::MAX,
            r.last_msg_out == u32::MAX,
            r.last_llm_ms == 0,
            r.refresh_secs == DISPLAY_REFRESH_IDLE_SECS,
            !r.busy_toggle,
            r.last_error_total == 0,
            !r.flash_active,
            r.last_activity_secs == now_secs,
            !r.backlight_off,
    {
        let r = DisplayLoopState {
            last_state: None,
            last_ip: String::new(),
            last_channels: [(false, false, 0u32); 5],
            last_pressure: None,
            last_heap: 255,
            last_msg_in: u32::MAX,
            last_msg_out: u32::MAX,
            last_llm_ms: 0,
            refresh_secs: DISPLAY_REFRESH_IDLE_SECS,
            busy_toggle: false,
            last_error_total: 0,
            flash_active: false,
            last_activity_secs: now_secs,
            backlight_off: false,
        };
        assert(r.last_channels@ =~= seq![(false, false, 0u32), (false, false, 0u32), (false, false, 0u32), (false, false, 0u32), (false, false, 0u32)]);
        r
    }
}

/// One round of the display loop, as a function of the remembered state and what the round
/// reads.
/// - The busy animation flips each busy round and rests otherwise; an error flash is on for
///   the one round in which the error count rose.
/// - A region changed when what it would show differs from what was last drawn: the state,
///   the address, a channel's (enabled, healthy, failures), the pressure level, the heap by
///   two percent or more, the message counts, the LLM latency; the flash counts as a change
///   of the footer. Any change is activity.
/// - With auto-sleep: a change wakes a dark screen (and forces a full repaint next round);
///   a lit screen without change for the timeout goes dark; a dark screen without change
///   does nothing.
/// - Otherwise a new state repaints everything and remembers every region; the same state
///   repaints only the changed regions and remembers those. Both set the next interval
///   from the state and the idle time.
pub open spec fn display_tick_spec(prev: DisplayLoopState, input: DisplayTickInput) -> (DisplayLoopState, DisplayAction) {
    let state = input.state;
    let busy_toggle = if state == DisplaySystemState::Busy { !prev.busy_toggle } else { false };
    let flash = input.error_total > prev.last_error_total;
    let state_changed = prev.last_state != Some(state);
    let ip_changed = prev.last_ip@ != input.ip@;
    let channels_changed = prev.last_channels@ != input.channels@;
    let pressure_changed = prev.last_pressure != Some(input.pressure);
    let heap_changed = heap_moved(prev.last_heap, input.heap_percent);
    let msg_changed = input.msg_in != prev.last_msg_in || input.msg_out != prev.last_msg_out;
    let llm_changed = input.llm_ms != prev.last_llm_ms;
    let footer_changed = pressure_changed || heap_changed || msg_changed || llm_changed || flash;
    let any_change = state_changed || ip_changed || channels_changed || footer_changed;
    let activity = if any_change { input.now_secs } else { prev.last_activity_secs };
    let idle: u64 = if input.now_secs >= activity { (input.now_secs - activity) as u64 } else { 0 };
    let base = DisplayLoopState {
        busy_toggle,
        last_error_total: input.error_total,
        flash_active: flash,
        last_activity_secs: activity,
        ..prev
    };
    if input.sleep_enabled && any_change && prev.backlight_off {
        (DisplayLoopState { backlight_off: false, last_state: None, last_heap: 255, ..base }, DisplayAction::Wake)
    } else if input.sleep_enabled && !prev.backlight_off && !any_change && idle >= input.sleep_timeout_secs {
        (DisplayLoopState { backlight_off: true, ..base }, DisplayAction::Sleep)
    } else if input.sleep_enabled && prev.backlight_off {
        (base, DisplayAction::Skip)
    } else if state_changed {
        (
            DisplayLoopState {
                last_state: Some(state),
                last_ip: input.ip,
                last_channels: input.channels,
                last_pressure: Some(input.pressure),
                last_heap: input.heap_percent,
                last_msg_in: input.msg_in,
                last_msg_out: input.msg_out,
                last_llm_ms: input.llm_ms,
                refresh_secs: refresh_secs(state, prev.backlight_off, idle),
                ..base
            },
            DisplayAction::Refresh { state, busy_phase: busy_toggle, error_flash: flash },
        )
    } else {
        (
            DisplayLoopState {
                last_ip: if ip_changed { input.ip } else { prev.last_ip },
                last_channels: if channels_changed { input.channels } else { prev.last_channels },
                last_pressure: if footer_changed { Some(input.pressure) } else { prev.last_pressure },
                last_heap: if footer_changed { input.heap_percent } else { prev.last_heap },
                last_msg_in: if footer_changed { input.msg_in } else { prev.last_msg_in },
                last_msg_out: if footer_changed { input.msg_out } else { prev.last_msg_out },
                last_llm_ms: if footer_changed { input.llm_ms } else { prev.last_llm_ms },
                refresh_secs: refresh_secs(state, prev.backlight_off, idle),
                ..base
            },
            DisplayAction::Partial { ip: ip_changed, channels: channels_changed, footer: footer_changed, error_flash: flash },
        )
    }
}

/// Whether two channel lists differ in any channel's (enabled, healthy, failures).
pub fn channels_differ(a: &[(bool, bool, u32); 5], b: &[(bool, bool, u32); 5]) -> (r: bool)
    ensures
        r == (a@ != b@),
{
    let mut i: usize = 0;
    while i < 5
        invariant
            i <= 5,
            a@.len() == 5,
            b@.len() == 5,
            forall|j: int| 0 <= j < i ==> a@[j] == b@[j],
        decreases 5 - i,
    {
        let x = a[i];
        let y = b[i];
        if x.0 != y.0 || x.1 != y.1 || x.2 != y.2 {
            assert(a@[i as int] != b@[i as int]);
            return true;
        }
        i = i + 1;
    }
    assert(a@ =~= b@);
    false
}

/// One round of the display loop (see `display_tick_spec`).
pub fn display_tick(prev: DisplayLoopState, input: DisplayTickInput) -> (r: (DisplayLoopState, DisplayAction))
    ensures
        r == display_tick_spec(prev, input),
{
    let state = input.state;
    let busy_toggle = match state {
        DisplaySystemState::Busy => !prev.busy_toggle,
        _ => false,
    };
    let flash = input.error_total > prev.last_error_total;
    let state_changed = match prev.last_state {
        Some(s) => s != state,
        None => true,
    };
    let ip_changed = !str_eq(prev.last_ip.as_str(), input.ip.as_str());
    let channels_changed = channels_differ(&prev.last_channels, &input.channels);
    let pressure_changed = match prev.last_pressure {
        Some(p) => p != input.pressure,
        None => true,
    };
    let heap_diff: u8 = if prev.last_heap >= input.heap_percent {
        prev.last_heap - input.heap_percent
    } else {
        input.heap_percent - prev.last_heap
    };
    let heap_changed = heap_diff >= 2;
    let msg_changed = input.msg_in != prev.last_msg_in || input.msg_out != prev.last_msg_out;
    let llm_changed = input.llm_ms != prev.last_llm_ms;
    let footer_changed = pressure_changed || heap_changed || msg_changed || llm_changed || flash;
    let any_change = state_changed || ip_changed || channels_changed || footer_changed;
    let activity = if any_change { input.now_secs } else { prev.last_activity_secs };
    let idle: u64 = if input.now_secs >= activity { input.now_secs - activity } else { 0 };
    let prev_backlight = prev.backlight_off;
    let DisplayLoopState {
        last_state, last_ip, last_channels, last_pressure, last_heap, last_msg_in, last_msg_out,
        last_llm_ms, refresh_secs: prev_refresh, ..
    } = prev;
    let DisplayTickInput {
        ip, channels, pressure, heap_percent, msg_in, msg_out, llm_ms, error_total, sleep_enabled,
        sleep_timeout_secs, ..
    } = input;
    if sleep_enabled && any_change && prev_backlight {
        let next = DisplayLoopState {
            last_state: None,
            last_ip,
            last_channels,
            last_pressure,
            last_heap: 255,
            last_msg_in,
            last_msg_out,
            last_llm_ms,
            refresh_secs: prev_refresh,
            busy_toggle,
            last_error_total: error_total,
            flash_active: flash,
            last_activity_secs: activity,
            backlight_off: false,
        };
        return (next, DisplayAction::Wake);
    }
    if sleep_enabled && !prev_backlight && !any_change && idle >= sleep_timeout_secs {
        let next = DisplayLoopState {
            last_state,
            last_ip,
            last_channels,
            last_pressure,
            last_heap,
            last_msg_in,
            last_msg_out,
            last_llm_ms,
            refresh_secs: prev_refresh,
            busy_toggle,
            last_error_total: error_total,
            flash_active: flash,
            last_activity_secs: activity,
            backlight_off: true,
        };
        return (next, DisplayAction::Sleep);
    }
    if sleep_enabled && prev_backlight {
        let next = DisplayLoopState {
            last_state,
            last_ip,
            last_channels,
            last_pressure,
            last_heap,
            last_msg_in,
            last_msg_out,
            last_llm_ms,
            refresh_secs: prev_refresh,
            busy_toggle,
            last_error_total: error_total,
            flash_active: flash,
            last_activity_secs: activity,
            backlight_off: prev_backlight,
        };
        return (next, DisplayAction::Skip);
    }
    let next_refresh = compute_refresh_secs(state, prev_backlight, idle);
    if state_changed {
        let next = DisplayLoopState {
            last_state: Some(state),
            last_ip: ip,
            last_channels: channels,
            last_pressure: Some(pressure),
            last_heap: heap_percent,
            last_msg_in: msg_in,
            last_msg_out: msg_out,
            last_llm_ms: llm_ms,
            refresh_secs: next_refresh,
            busy_toggle,
            last_error_total: error_total,
            flash_active: flash,
            last_activity_secs: activity,
            backlight_off: prev_backlight,
        };
        return (next, DisplayAction::Refresh { state, busy_phase: busy_toggle, error_flash: flash });
    }
    let next = DisplayLoopState {
        last_state,
        last_ip: if ip_changed { ip } else { last_ip },
        last_channels: if channels_changed { channels } else { last_channels },
        last_pressure: if footer_changed { Some(pressure) } else { last_pressure },
        last_heap: if footer_changed { heap_percent } else { last_heap },
        last_msg_in: if footer_changed { msg_in } else { last_msg_in },
        last_msg_out: if footer_changed { msg_out } else { last_msg_out },
        last_llm_ms: if footer_changed { llm_ms } else { last_llm_ms },
        refresh_secs: next_refresh,
        busy_toggle,
        last_error_total: error_total,
        flash_active: flash,
        last_activity_secs: activity,
        backlight_off: prev_backlight,
    };
    (next, DisplayAction::Partial { ip: ip_changed, channels: channels_changed, footer: footer_changed, error_flash: flash })
}

/// After a round that draws (a full or a partial repaint), the screen shows what the round
/// read: the state, the address, the channels, the pressure level and the message and latency
/// figures; the heap bar is within one percent of the reading.
pub proof fn lemma_drawn_round_shows_input(prev: DisplayLoopState, input: DisplayTickInput)
    ensures
        ({
            let (next, action) = display_tick_spec(prev, input);
            (action is Refresh || action is Partial) ==> {
                &&& next.last_state == Some(input.state)
                &&& next.last_ip@ == input.ip@
                &&& next.last_channels@ == input.channels@
                &&& next.last_pressure == Some(input.pressure)
                &&& !heap_moved(next.last_heap, input.heap_percent)
                &&& next.last_msg_in == input.msg_in
                &&& next.last_msg_out == input.msg_out
                &&& next.last_llm_ms == input.llm_ms
            }
        }),
{
}

/// A dark screen stays dark and draws nothing until something changes.
pub proof fn lemma_dark_screen_waits_for_change(prev: DisplayLoopState, input: DisplayTickInput)
    requires
        input.sleep_enabled,
        prev.backlight_off,
    ensures
        ({
            let (next, action) = display_tick_spec(prev, input);
            &&& action is Wake || action is Skip
            &&& action is Skip ==> next.backlight_off
            &&& action is Wake ==> !next.backlight_off && next.last_state is None
        }),
{
}

} // verus!
