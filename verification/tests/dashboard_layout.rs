use beetle::dashboard::DisplaySystemState;
use beetle::dashboard_layout::{
    beetle_anchor, beetle_opts, dashboard_panels, BeetleOpts,
    boot_segment_filled, channel_cell, channel_dot_tone, channel_grid, channel_status_token, footer_geometry,
    heap_bar_tone, pressure_badge_width, pressure_label, pressure_tone, StatusTone,
};
use beetle::orchestrator::pressure::PressureLevel;

#[test]
fn wide_grid_three_columns() {
    let g = channel_grid(240, 60, 200);
    assert_eq!((g.cols, g.row_step, g.row_h, g.row_pad, g.dot_d, g.text_base_dy, g.col_width), (3, 24, 18, 3, 8, 13, 80));
    assert_eq!(channel_cell(&g, 8, 60, 0), (8, 63));
    assert_eq!(channel_cell(&g, 8, 60, 4), (88, 87));
}

#[test]
fn narrow_grid_two_columns() {
    let g = channel_grid(160, 50, 100);
    assert_eq!((g.cols, g.row_step, g.row_h, g.row_pad, g.dot_d, g.text_base_dy, g.col_width), (2, 14, 10, 2, 4, 8, 80));
    assert_eq!(channel_cell(&g, 4, 50, 4), (4, 80));
}

#[test]
fn grid_with_footer_above_middle_keeps_minimum_height() {
    let g = channel_grid(240, 100, 50);
    assert_eq!((g.row_step, g.row_h, g.row_pad, g.dot_d, g.text_base_dy), (10, 6, 2, 4, 7));
}

#[test]
fn status_tokens() {
    assert_eq!(channel_status_token(false, true, 5), ("OFF".to_string(), StatusTone::Off));
    assert_eq!(channel_status_token(true, true, 5), ("OK".to_string(), StatusTone::Success));
    assert_eq!(channel_status_token(true, false, 3), ("x3".to_string(), StatusTone::Danger));
    assert_eq!(channel_status_token(true, false, 0), ("DOWN".to_string(), StatusTone::Danger));
    assert_eq!(channel_status_token(true, false, 1234567), ("x1234567".to_string(), StatusTone::Danger));
    assert_eq!(channel_status_token(true, false, u32::MAX), ("x4294967".to_string(), StatusTone::Danger));
}

#[test]
fn tones() {
    assert_eq!(channel_dot_tone(true, true), StatusTone::Success);
    assert_eq!(channel_dot_tone(true, false), StatusTone::Danger);
    assert_eq!(channel_dot_tone(false, true), StatusTone::Off);
    assert_eq!(heap_bar_tone(69), StatusTone::Success);
    assert_eq!(heap_bar_tone(70), StatusTone::Warning);
    assert_eq!(heap_bar_tone(84), StatusTone::Warning);
    assert_eq!(heap_bar_tone(85), StatusTone::Danger);
    assert_eq!(pressure_tone(PressureLevel::Cautious), StatusTone::Warning);
    assert_eq!(pressure_label(PressureLevel::Normal), "NORMAL");
    assert_eq!(pressure_label(PressureLevel::Critical), "CRITICAL");
}

#[test]
fn footer_on_reference_screen() {
    let f = footer_geometry(240, 240, 180, 8, 50);
    assert_eq!((f.bar_x, f.bar_y, f.bar_w, f.bar_h, f.fill_w), (8, 198, 184, 8, 91));
    assert_eq!((f.pct_x, f.pct_y, f.stats_y), (196, 205, 218));
}

#[test]
fn footer_on_small_screen_clamps() {
    let f = footer_geometry(128, 160, 100, 4, 150);
    assert_eq!((f.bar_y, f.bar_w, f.bar_h, f.fill_w), (114, 72, 6, 70));
    assert_eq!((f.pct_x, f.pct_y, f.stats_y), (80, 120, 129));
    assert_eq!(footer_geometry(80, 80, 0, 0, 0).bar_w, 40);
}

#[test]
fn boot_segments() {
    assert!(boot_segment_filled(2, 1));
    assert!(!boot_segment_filled(2, 2));
    assert!(boot_segment_filled(9, 3));
    assert!(!boot_segment_filled(0, 0));
}

#[test]
fn pressure_badge_widths() {
    assert_eq!(pressure_badge_width(PressureLevel::Normal, false), 46);
    assert_eq!(pressure_badge_width(PressureLevel::Critical, false), 58);
    assert_eq!(pressure_badge_width(PressureLevel::Cautious, true), 52);
    assert_eq!(pressure_badge_width(PressureLevel::Normal, true), 40);
}

#[test]
fn beetle_icon_by_state() {
    let plain = BeetleOpts { flipped: false, x_eyes: false, wings: false, listening: false };
    assert_eq!(beetle_opts(DisplaySystemState::Idle), plain);
    assert_eq!(beetle_opts(DisplaySystemState::Busy), BeetleOpts { wings: true, ..plain });
    assert_eq!(beetle_opts(DisplaySystemState::Fault), BeetleOpts { flipped: true, x_eyes: true, ..plain });
    assert_eq!(beetle_opts(DisplaySystemState::Recording), BeetleOpts { listening: true, ..plain });
}

#[test]
fn beetle_anchor_points() {
    assert_eq!(beetle_anchor(10, 20, 100, false), (60, 82, 28, 50, 14));
    assert_eq!(beetle_anchor(10, 20, 100, true), (60, 60, 28, 92, 14));
    assert_eq!(beetle_anchor(0, 0, 48, false), (24, 29, 13, 14, 6));
}

#[test]
fn panels_of_reference_layout() {
    let p = dashboard_panels(20, 90, 180, 240);
    assert_eq!((p.mid_div_y, p.foot_div_y, p.head_y, p.head_h), (84, 174, 12, 72));
    assert_eq!((p.middle_y, p.middle_h, p.footer_y, p.footer_h), (90, 84, 180, 60));
}

#[test]
fn panels_keep_minimum_sizes() {
    let p = dashboard_panels(5, 3, 250, 240);
    assert_eq!((p.mid_div_y, p.head_y, p.head_h), (0, 4, 24));
    assert_eq!((p.middle_h, p.footer_h), (241, 1));
}
