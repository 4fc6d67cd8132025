use beetle::constants::{
    DISPLAY_IDLE_LONG_THRESHOLD_SECS, DISPLAY_REFRESH_BUSY_SECS, DISPLAY_REFRESH_IDLE_LONG_SECS,
    DISPLAY_REFRESH_IDLE_SECS, DISPLAY_REFRESH_SLEEP_SECS,
};
use beetle::dashboard::DisplaySystemState as S;
use beetle::dashboard::{
    compute_madctl, compute_refresh_secs, footer_clock_text, llm_latency_text, stats_line_parts,
    subtitle_ip_flush_rows, subtitle_ip_text, DisplayColorOrder,
    append_uptime_duration, approx_cos_sin, channel_display_label, format_pct, format_subtitle_with_uptime,
    format_uptime_line, write_u32_to_buf, write_u64_to_buf, HeapUsageBaseline,
};

#[test]
fn heap_usage_against_baseline() {
    let mut b = HeapUsageBaseline::new();
    assert_eq!(b.heap_used_percent(200_000), 0);
    assert_eq!(b.baseline, 200_000);
    assert_eq!(b.heap_used_percent(150_000), 25);
    assert_eq!(b.heap_used_percent(0), 100);
    assert_eq!(b.heap_used_percent(250_000), 0);
    assert_eq!(b.baseline, 250_000);
    assert_eq!(b.heap_used_percent(249_999), 0);
}

#[test]
fn uptime_texts() {
    assert_eq!(format_uptime_line(0), "");
    assert_eq!(format_uptime_line(93_784), "Up:1d2h");
    assert_eq!(format_uptime_line(3_725), "Up:1h2m");
    assert_eq!(format_uptime_line(59), "Up:0h0m");
    assert_eq!(format_subtitle_with_uptime("192.168.4.1", 0), "192.168.4.1");
    assert_eq!(format_subtitle_with_uptime("192.168.4.1", 3_725), "192.168.4.1 Up:1h2m");
    assert_eq!(format_subtitle_with_uptime("2001:db8:85a3:8d3:1319", 86_400 * 123_456_789), "2001:db8:85a3:8d Up:123456789d");
}

#[test]
fn buffer_writes() {
    let mut buf = [0u8; 6];
    let p = write_u64_to_buf(1234, &mut buf, 1);
    assert_eq!(p, 5);
    assert_eq!(&buf, b"\x001234\x00");
    let p2 = write_u32_to_buf(987, &mut buf, 4);
    assert_eq!(p2, 6);
    assert_eq!(&buf, b"\x00123987"[..6].as_ref());
    assert_eq!(write_u64_to_buf(5, &mut buf, 9), 9);
    let mut b2 = [0u8; 10];
    let n = append_uptime_duration(90_061, &mut b2, 0);
    assert_eq!(&b2[..n], b"1d1h");
}

#[test]
fn short_labels() {
    assert_eq!(format_pct(7), "7%");
    assert_eq!(format_pct(42), "42%");
    assert_eq!(format_pct(250), "100%");
    assert_eq!(channel_display_label("telegram"), "TG");
    assert_eq!(channel_display_label("qq_channel"), "QQ");
    assert_eq!(channel_display_label("slack"), "SLAC");
    assert_eq!(channel_display_label("ws"), "WS");
    assert_eq!(channel_display_label("aé€"), "?");
    assert_eq!(approx_cos_sin(3), (100, 6));
    assert_eq!(approx_cos_sin(-20), (91, -37));
    assert_eq!(approx_cos_sin(30), (82, 50));
    assert_eq!(approx_cos_sin(90), (100, 0));
}

#[test]
fn madctl_bits_per_rotation_and_order() {
    assert_eq!(compute_madctl(0, DisplayColorOrder::Rgb), 0x00);
    assert_eq!(compute_madctl(90, DisplayColorOrder::Rgb), 0x60);
    assert_eq!(compute_madctl(180, DisplayColorOrder::Bgr), 0xC8);
    assert_eq!(compute_madctl(270, DisplayColorOrder::Bgr), 0xA8);
    assert_eq!(compute_madctl(45, DisplayColorOrder::Bgr), 0x08);
}

#[test]
fn subtitle_rows_two_lines_only_when_wide_with_uptime() {
    assert_eq!(subtitle_ip_flush_rows(240, 5), 30);
    assert_eq!(subtitle_ip_flush_rows(240, 0), 16);
    assert_eq!(subtitle_ip_flush_rows(160, 5), 16);
    assert_eq!(subtitle_ip_flush_rows(200, 1), 30);
}

#[test]
fn latency_text_seconds_and_millis() {
    assert_eq!(llm_latency_text(850), "850ms");
    assert_eq!(llm_latency_text(1000), "1.0s");
    assert_eq!(llm_latency_text(12345), "12.3s");
    assert_eq!(llm_latency_text(1999), "1.9s");
}

#[test]
fn clock_text_unknown_and_utc() {
    assert_eq!(footer_clock_text(0), "--:--");
    assert_eq!(footer_clock_text(3600 * 13 + 60 * 7 + 59), "13:07");
    assert_eq!(footer_clock_text(86400 * 3 + 60), "00:01");
}

#[test]
fn stats_line_layout() {
    let p = stats_line_parts(12, 3, 0, 0);
    assert_eq!(p.len(), 3);
    assert_eq!((p[0].label.as_str(), p[0].value.as_str(), p[0].label_x, p[0].value_x), ("In:", "12", 0, 18));
    assert_eq!((p[1].label.as_str(), p[1].value.as_str(), p[1].label_x, p[1].value_x), ("Out:", "3", 36, 60));
    assert_eq!((p[2].label.as_str(), p[2].value.as_str(), p[2].label_x, p[2].value_x), ("", "--:--", 72, 72));
    let q = stats_line_parts(1, 2, 60, 1500);
    assert_eq!(q.len(), 4);
    assert_eq!((q[2].label.as_str(), q[2].value.as_str(), q[2].label_x), ("L:", "1.5s", 66));
    assert_eq!((q[3].value.as_str(), q[3].label_x), ("00:01", 108));
}

#[test]
fn subtitle_ip_text_cut_to_width() {
    assert_eq!(subtitle_ip_text("192.168.1.20", 160, 40), "192.168.1.20");
    assert_eq!(subtitle_ip_text("192.168.1.20", 240, 40), "192.168.1.20");
    // 200 - 170 = 30 pixels: five characters
    assert_eq!(subtitle_ip_text("192.168.1.20", 200, 170), "192.1");
    // no room at all still keeps one character
    assert_eq!(subtitle_ip_text("192.168.1.20", 200, 250), "1");
    // a cut inside a multi-byte character gives the fallback
    assert_eq!(subtitle_ip_text("aé", 200, 194), "a");
    assert_eq!(subtitle_ip_text("éa", 200, 194), "---");
}

#[test]
fn refresh_interval_by_state() {
    assert_eq!(compute_refresh_secs(S::Busy, true, 0), DISPLAY_REFRESH_SLEEP_SECS);
    assert_eq!(compute_refresh_secs(S::Busy, false, 0), DISPLAY_REFRESH_BUSY_SECS);
    assert_eq!(compute_refresh_secs(S::Recording, false, 9999), DISPLAY_REFRESH_BUSY_SECS);
    assert_eq!(compute_refresh_secs(S::Idle, false, 0), DISPLAY_REFRESH_IDLE_SECS);
    assert_eq!(compute_refresh_secs(S::NoWifi, false, DISPLAY_IDLE_LONG_THRESHOLD_SECS), DISPLAY_REFRESH_IDLE_LONG_SECS);
    assert_eq!(compute_refresh_secs(S::Fault, false, 99999), DISPLAY_REFRESH_IDLE_SECS);
    assert_eq!(compute_refresh_secs(S::Booting, false, 0), DISPLAY_REFRESH_IDLE_SECS);
}
