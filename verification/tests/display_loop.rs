use beetle::dashboard::DisplaySystemState as S;
use beetle::display_loop::{
    channels_differ, display_error_total, display_system_state, display_tick, snapshot_busy, DisplayAction,
    DisplayLoopState, DisplayTickInput,
};
use beetle::metrics::Metrics;
use beetle::orchestrator::pressure::PressureLevel;

fn input(now: u64, state: S) -> DisplayTickInput {
    DisplayTickInput {
        now_secs: now,
        state,
        pressure: PressureLevel::Normal,
        ip: "10.0.0.2".to_string(),
        channels: [(true, true, 0), (false, false, 0), (false, false, 0), (false, false, 0), (false, false, 0)],
        heap_percent: 40,
        msg_in: 1,
        msg_out: 1,
        llm_ms: 0,
        error_total: 0,
        sleep_enabled: false,
        sleep_timeout_secs: 0,
    }
}

#[test]
fn system_state_precedence() {
    assert_eq!(display_system_state(true, false, true, true, true), S::Fault);
    assert_eq!(display_system_state(false, false, true, true, true), S::NoWifi);
    assert_eq!(display_system_state(false, true, true, true, true), S::Recording);
    assert_eq!(display_system_state(false, true, false, true, true), S::Playing);
    assert_eq!(display_system_state(false, true, false, false, true), S::Busy);
    assert_eq!(display_system_state(false, true, false, false, false), S::Idle);
    assert!(snapshot_busy(0, 0, 0, 1));
    assert!(!snapshot_busy(0, 0, 0, 0));
}

#[test]
fn error_total_sums_counters() {
    let mut m = Metrics::new();
    m.errors_llm_request = 2;
    m.errors_other = u32::MAX;
    assert_eq!(display_error_total(&m), 2 + u32::MAX as u64);
}

#[test]
fn first_round_refreshes_then_partial_updates() {
    let s = DisplayLoopState::new(0);
    let (s, a) = display_tick(s, input(5, S::Idle));
    assert!(matches!(a, DisplayAction::Refresh { state: S::Idle, busy_phase: false, error_flash: false }));
    assert_eq!(s.last_ip, "10.0.0.2");
    assert_eq!(s.last_heap, 40);
    assert_eq!(s.last_activity_secs, 5);
    // Nothing changed: a partial round that draws nothing.
    let (s, a) = display_tick(s, input(10, S::Idle));
    assert!(matches!(a, DisplayAction::Partial { ip: false, channels: false, footer: false, error_flash: false }));
    assert_eq!(s.last_activity_secs, 5);
    // Heap moves by one percent: no repaint; by two: the footer.
    let mut i = input(15, S::Idle);
    i.heap_percent = 41;
    let (s, a) = display_tick(s, i);
    assert!(matches!(a, DisplayAction::Partial { footer: false, .. }));
    let mut i = input(20, S::Idle);
    i.heap_percent = 42;
    let (s, a) = display_tick(s, i);
    assert!(matches!(a, DisplayAction::Partial { ip: false, channels: false, footer: true, error_flash: false }));
    assert_eq!(s.last_heap, 42);
    // A new address and a new error: address and footer, flash for one round.
    let mut i = input(25, S::Idle);
    i.heap_percent = 42;
    i.ip = "10.0.0.9".to_string();
    i.error_total = 1;
    let (s, a) = display_tick(s, i);
    assert!(matches!(a, DisplayAction::Partial { ip: true, channels: false, footer: true, error_flash: true }));
    let mut i = input(30, S::Idle);
    i.heap_percent = 42;
    i.ip = "10.0.0.9".to_string();
    i.error_total = 1;
    let (s, a) = display_tick(s, i);
    assert!(matches!(a, DisplayAction::Partial { ip: false, channels: false, footer: false, error_flash: false }));
    assert!(!s.flash_active);
    // A busy state repaints everything and flips the animation phase.
    let mut i = input(35, S::Busy);
    i.heap_percent = 42;
    i.ip = "10.0.0.9".to_string();
    i.error_total = 1;
    let (s, a) = display_tick(s, i);
    assert!(matches!(a, DisplayAction::Refresh { state: S::Busy, busy_phase: true, .. }));
    assert_eq!(s.refresh_secs, beetle::constants::DISPLAY_REFRESH_BUSY_SECS);
}

#[test]
fn auto_sleep_and_wake() {
    let s = DisplayLoopState::new(0);
    let mut i = input(1, S::Idle);
    i.sleep_enabled = true;
    i.sleep_timeout_secs = 60;
    let (s, _) = display_tick(s, i);
    let mut i = input(30, S::Idle);
    i.sleep_enabled = true;
    i.sleep_timeout_secs = 60;
    let (s, a) = display_tick(s, i);
    assert!(matches!(a, DisplayAction::Partial { .. }));
    let mut i = input(61, S::Idle);
    i.sleep_enabled = true;
    i.sleep_timeout_secs = 60;
    let (s, a) = display_tick(s, i);
    assert!(matches!(a, DisplayAction::Sleep));
    assert!(s.backlight_off);
    let mut i = input(100, S::Idle);
    i.sleep_enabled = true;
    i.sleep_timeout_secs = 60;
    let (s, a) = display_tick(s, i);
    assert!(matches!(a, DisplayAction::Skip));
    let mut i = input(120, S::Idle);
    i.sleep_enabled = true;
    i.sleep_timeout_secs = 60;
    i.msg_in = 2;
    let (s, a) = display_tick(s, i);
    assert!(matches!(a, DisplayAction::Wake));
    assert!(!s.backlight_off);
    assert!(s.last_state.is_none());
    let mut i = input(125, S::Idle);
    i.sleep_enabled = true;
    i.sleep_timeout_secs = 60;
    i.msg_in = 2;
    let (_, a) = display_tick(s, i);
    assert!(matches!(a, DisplayAction::Refresh { state: S::Idle, .. }));
}

#[test]
fn channel_lists_compare_by_entry() {
    let a = [(true, true, 0), (false, false, 0), (false, false, 0), (false, false, 0), (false, false, 3)];
    let mut b = a;
    assert!(!channels_differ(&a, &b));
    b[4].2 = 4;
    assert!(channels_differ(&a, &b));
}
