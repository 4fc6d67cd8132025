//! Geometry and texts of the dashboard's channel grid and footer: where each channel row,
//! its status dot and its status token go, and how the heap bar and the statistics line of
//! the footer are laid out. Pixel positions are relative to the screen's top-left corner.
use vstd::prelude::*;

use crate::dashboard::{DisplaySystemState, DISPLAY_WIDE_LAYOUT_MIN_PX};
use crate::orchestrator::pressure::PressureLevel;
use crate::text::{decimal, decimal_chars, to_string};

verus! {

/// Side of the reference screen that the footer's spacing is scaled from (pixels).
pub const DISPLAY_LAYOUT_REF_PX: u16 = 240;

/// Number of channel rows on the dashboard.
pub const DISPLAY_CHANNEL_COUNT: usize = 5;

/// `i32::clamp` on integers.
pub open spec fn clamp(v: int, lo: int, hi: int) -> int {
    if v < lo { lo } else if v > hi { hi } else { v }
}

/// The smaller of two integers.
pub open spec fn min(a: int, b: int) -> int {
    if a <= b { a } else { b }
}

/// The larger of two integers.
pub open spec fn max(a: int, b: int) -> int {
    if a >= b { a } else { b }
}

/// The colour role of a dashboard element.
#[derive(Clone, Copy, Debug, PartialEq, Eq)]
pub enum StatusTone {
    Success,
    Warning,
    Danger,
    Off,
}

/// Height of the middle panel: from its top to six pixels above the footer, at least 20.
pub open spec fn middle_panel_height(middle_top: u16, footer_top: u16) -> int {
    let foot_div: int = if footer_top >= 6 { footer_top - 6 } else { 0 };
    max(foot_div - middle_top, 20)
}

/// Grid of the channel rows.
pub struct ChannelGrid {
    pub cols: u32,
    pub row_step: i32,
    pub row_h: i32,
    pub row_pad: i32,
    pub dot_d: u32,
    pub text_base_dy: i32,
    pub col_width: i32,
}

/// Columns of the channel grid: three in the wide layout, two otherwise.
pub open spec fn grid_cols(width: u16) -> int {
    if width >= DISPLAY_WIDE_LAYOUT_MIN_PX { 3 } else { 2 }
}

/// Rows that the channels need in `cols` columns.
pub open spec fn grid_rows(cols: int) -> int {
    (DISPLAY_CHANNEL_COUNT + cols - 1) / cols
}

/// Distance between two row tops: the middle panel shared by the rows, 8 to 24 pixels.
pub open spec fn grid_row_step(width: u16, middle_top: u16, footer_top: u16) -> int {
    clamp(middle_panel_height(middle_top, footer_top) / grid_rows(grid_cols(width)), 8, 24)
}

/// Height of a row: four less than the step within 6..18, and at least two less than the step.
pub open spec fn grid_row_h(step: int) -> int {
    min(clamp(step - 4, 6, 18), step - 2)
}

impl ChannelGrid {
    /// Bounds that every grid from `channel_grid` keeps.
    pub open spec fn wf(&self) -> bool {
        &&& 2 <= self.cols <= 3
        &&& 0 <= self.col_width <= 32767
        &&& 8 <= self.row_step <= 24
        &&& 1 <= self.row_pad <= 9
    }

    /// The grid is the one that the screen width and the panel bounds give.
    pub open spec fn is_grid_of(&self, width: u16, middle_top: u16, footer_top: u16) -> bool {
        let step = grid_row_step(width, middle_top, footer_top);
        let h = grid_row_h(step);
        &&& self.cols == grid_cols(width)
        &&& self.row_step == step
        &&& self.row_h == h
        &&& self.row_pad == max((step - h) / 2, 1)
        &&& self.dot_d == clamp((h - 2) / 2, 4, 10)
        &&& self.text_base_dy == clamp(h - 2, 7, 13)
        &&& self.col_width == (width as int) / grid_cols(width)
    }
}

/// The channel grid for a screen `width` wide whose middle panel starts at `middle_top` and
/// whose footer starts at `footer_top`.
pub fn channel_grid(width: u16, middle_top: u16, footer_top: u16) -> (g: ChannelGrid)
    ensures
        g.is_grid_of(width, middle_top, footer_top),
        g.wf(),
{
    let foot_div: i32 = if footer_top >= 6 { (footer_top - 6) as i32 } else { 0 };
    let raw_h: i32 = foot_div - middle_top as i32;
    let middle_h: i32 = if raw_h >= 20 { raw_h } else { 20 };
    let cols: u32 = if width >= DISPLAY_WIDE_LAYOUT_MIN_PX { 3 } else { 2 };
    let rows: u32 = (DISPLAY_CHANNEL_COUNT as u32 + cols - 1) / cols;
    let per_row: u32 = (middle_h as u32) / rows;
    let step: i32 = if per_row < 8 { 8 } else if per_row > 24 { 24 } else { per_row as i32 };
    let inner: i32 = if step - 4 < 6 { 6 } else if step - 4 > 18 { 18 } else { step - 4 };
    let h: i32 = if inner <= step - 2 { inner } else { step - 2 };
    let half_gap: i32 = ((step - h) as u32 / 2) as i32;
    let pad: i32 = if half_gap >= 1 { half_gap } else { 1 };
    let dot_raw: u32 = (h - 2) as u32 / 2;
    let dot: u32 = if dot_raw < 4 { 4 } else if dot_raw > 10 { 10 } else { dot_raw };
    let base: i32 = if h - 2 < 7 { 7 } else if h - 2 > 13 { 13 } else { h - 2 };
    let col_width: i32 = (width as u32 / cols) as i32;
    ChannelGrid { cols, row_step: step, row_h: h, row_pad: pad, dot_d: dot, text_base_dy: base, col_width }
}

/// Each channel row stays within its step, and when the middle panel leaves every row at
/// least the smallest step, all rows together fit in the panel.
pub proof fn lemma_rows_inside_middle_panel(g: ChannelGrid, width: u16, middle_top: u16, footer_top: u16)
    requires
        g.is_grid_of(width, middle_top, footer_top),
    ensures
        g.row_pad + g.row_h <= g.row_step,
        middle_panel_height(middle_top, footer_top) / grid_rows(grid_cols(width)) >= 8 ==>
            grid_rows(grid_cols(width)) * g.row_step <= middle_panel_height(middle_top, footer_top),
{
    let rows = grid_rows(grid_cols(width));
    let mh = middle_panel_height(middle_top, footer_top);
    assert(DISPLAY_CHANNEL_COUNT == 5);
    if grid_cols(width) == 3 {
        assert(7int / 3int == 2);
        assert(rows == 2);
    } else {
        assert(6int / 2int == 3);
        assert(rows == 3);
    }
    let q = mh / rows;
    if q >= 8 {
        assert(g.row_step <= q);
        assert(rows * g.row_step <= rows * q) by (nonlinear_arith)
            requires
                g.row_step <= q,
                rows >= 0,
        ;
        assert(rows * q <= mh) by (nonlinear_arith)
            requires
                q == mh / rows,
                rows > 0,
        ;
    }
}

/// Top-left corner of channel `i`'s row (its dot's left edge and the row's top): channels
/// fill the grid row by row.
pub open spec fn cell_origin(g: ChannelGrid, margin_x: u16, middle_top: u16, i: int) -> (int, int) {
    let col = i % (g.cols as int);
    let row = i / (g.cols as int);
    (margin_x + col * g.col_width, middle_top + row * g.row_step + g.row_pad)
}

/// Top-left corner of channel `i`'s row (see `cell_origin`).
pub fn channel_cell(g: &ChannelGrid, margin_x: u16, middle_top: u16, i: usize) -> (r: (i32, i32))
    requires
        g.wf(),
        i < DISPLAY_CHANNEL_COUNT,
    ensures
        (r.0 as int, r.1 as int) == cell_origin(*g, margin_x, middle_top, i as int),
{
    let cols = g.cols as usize;
    let col = (i % cols) as i32;
    let row = (i / cols) as i32;
    proof {
        assert(0 <= col < 3);
        assert(0 <= row < 3) by (nonlinear_arith)
            requires
                row == (i as int) / (cols as int),
                0 <= i < 5,
                2 <= cols <= 3,
        ;
        assert(col * g.col_width <= 2 * 32767) by (nonlinear_arith)
            requires
                0 <= col < 3,
                0 <= g.col_width <= 32767,
        ;
        assert(row * g.row_step <= 2 * 24) by (nonlinear_arith)
            requires
                0 <= row < 3,
                8 <= g.row_step <= 24,
        ;
        assert(col * g.col_width >= 0) by (nonlinear_arith)
            requires
                0 <= col,
                0 <= g.col_width,
        ;
        assert(row * g.row_step >= 0) by (nonlinear_arith)
            requires
                0 <= row,
                0 <= g.row_step,
        ;
    }
    (margin_x as i32 + col * g.col_width, middle_top as i32 + row * g.row_step + g.row_pad)
}

/// The status token at the right of a channel row, with its tone: `OFF` for a disabled
/// channel, `OK` for a healthy one, `x` and the failure count (cut to eight bytes) for a
/// failing one, `DOWN` for an unhealthy one without counted failures.
pub open spec fn status_token(enabled: bool, healthy: bool, failures: u32) -> (Seq<char>, StatusTone) {
    if !enabled {
        ("OFF"@, StatusTone::Off)
    } else if healthy {
        ("OK"@, StatusTone::Success)
    } else if failures > 0 {
        let t = seq!['x'] + decimal(failures as nat);
        (if t.len() <= 8 { t } else { t.take(8) }, StatusTone::Danger)
    } else {
        ("DOWN"@, StatusTone::Danger)
    }
}

/// The status token of a channel row (see `status_token`).
pub fn channel_status_token(enabled: bool, healthy: bool, failures: u32) -> (r: (String, StatusTone))
    ensures
        r.0@ == status_token(enabled, healthy, failures).0,
        r.1 == status_token(enabled, healthy, failures).1,
{
    if !enabled {
        return (to_string("OFF"), StatusTone::Off);
    }
    if healthy {
        return (to_string("OK"), StatusTone::Success);
    }
    if failures == 0 {
        return (to_string("DOWN"), StatusTone::Danger);
    }
    let digits = decimal_chars(failures as u64);
    let mut t: Vec<char> = Vec::new();
    t.push('x');
    let mut i: usize = 0;
    while i < digits.len() && t.len() < 8
        invariant
            i <= digits@.len(),
            t@ == seq!['x'] + digits@.take(i as int),
            t@.len() == i + 1,
            t@.len() <= 8,
        decreases digits.len() - i,
    {
        t.push(digits[i]);
        assert(digits@.take(i as int + 1) =~= digits@.take(i as int).push(digits@[i as int]));
        i = i + 1;
    }
    let ghost full = seq!['x'] + decimal(failures as nat);
    if i == digits.len() {
        assert(digits@.take(i as int) =~= digits@);
        assert(full =~= t@);
    } else {
        assert(full.take(8) =~= t@);
    }
    (crate::text::chars_to_string(&t), StatusTone::Danger)
}

/// Tone of a channel's status dot: success when enabled and healthy, danger when enabled and
/// unhealthy, off when disabled.
pub fn channel_dot_tone(enabled: bool, healthy: bool) -> (r: StatusTone)
    ensures
        r == (if enabled { if healthy { StatusTone::Success } else { StatusTone::Danger } } else { StatusTone::Off }),
{
    if enabled {
        if healthy {
            StatusTone::Success
        } else {
            StatusTone::Danger
        }
    } else {
        StatusTone::Off
    }
}

/// Label of the footer badge for a pressure level.
pub open spec fn pressure_label_text(level: PressureLevel) -> Seq<char> {
    match level {
        PressureLevel::Normal => "NORMAL"@,
        PressureLevel::Cautious => "CAUTIOUS"@,
        PressureLevel::Critical => "CRITICAL"@,
    }
}

/// Label of the footer badge for a pressure level.
pub fn pressure_label(level: PressureLevel) -> (r: &'static str)
    ensures
        r@ == pressure_label_text(level),
{
    match level {
        PressureLevel::Normal => "NORMAL",
        PressureLevel::Cautious => "CAUTIOUS",
        PressureLevel::Critical => "CRITICAL",
    }
}

/// Width of the footer's pressure badge: a flashing badge is its label at six pixels per
/// character plus four; a plain badge adds ten, and is at least 30 wide.
pub fn pressure_badge_width(level: PressureLevel, error_flash: bool) -> (r: u32)
    ensures
        r == (if error_flash { (pressure_label_text(level).len() * 6 + 4) as int } else { max((pressure_label_text(level).len() * 6 + 10) as int, 30) }),
{
    let label = pressure_label(level);
    proof {
        reveal_strlit("NORMAL");
        reveal_strlit("CAUTIOUS");
        reveal_strlit("CRITICAL");
    }
    let n: u32 = match level {
        PressureLevel::Normal => 6,
        PressureLevel::Cautious => 8,
        PressureLevel::Critical => 8,
    };
    assert(n == label@.len());
    if error_flash {
        n * 6 + 4
    } else {
        let w = n * 6 + 10;
        if w >= 30 { w } else { 30 }
    }
}

/// Tone of the pressure badge.
pub fn pressure_tone(level: PressureLevel) -> (r: StatusTone)
    ensures
        r == (match level {
            PressureLevel::Normal => StatusTone::Success,
            PressureLevel::Cautious => StatusTone::Warning,
            PressureLevel::Critical => StatusTone::Danger,
        }),
{
    match level {
        PressureLevel::Normal => StatusTone::Success,
        PressureLevel::Cautious => StatusTone::Warning,
        PressureLevel::Critical => StatusTone::Danger,
    }
}

/// Tone of the heap bar by the used percentage (not by the pressure level): success below
/// 70, warning below 85, danger from 85 on.
pub fn heap_bar_tone(heap_percent: u8) -> (r: StatusTone)
    ensures
        r == (if heap_percent < 70 { StatusTone::Success } else if heap_percent < 85 { StatusTone::Warning } else { StatusTone::Danger }),
{
    if heap_percent < 70 {
        StatusTone::Success
    } else if heap_percent < 85 {
        StatusTone::Warning
    } else {
        StatusTone::Danger
    }
}

/// Layout of the footer below its badge: the heap bar and the statistics line.
pub struct FooterGeometry {
    pub bar_x: i32,
    pub bar_y: i32,
    pub bar_w: u32,
    pub bar_h: u32,
    pub fill_w: u32,
    pub pct_x: i32,
    pub pct_y: i32,
    pub stats_y: i32,
}

/// Spacing scaled by the smaller screen side against the reference side.
pub open spec fn scaled(dim_min: int, k: int, lo: int, hi: int) -> int {
    clamp(dim_min * k / (DISPLAY_LAYOUT_REF_PX as int), lo, hi)
}

impl FooterGeometry {
    /// The geometry that the screen size, the footer's top and margin and the heap
    /// percentage give.
    pub open spec fn is_footer_of(&self, width: u16, height: u16, footer_top: u16, margin_x: u16, heap_percent: u8) -> bool {
        let dim_min = min(width as int, height as int);
        let pad = scaled(dim_min, 18, 14, 22);
        let gap = scaled(dim_min, 12, 9, 14);
        let h = scaled(dim_min, 8, 6, 10);
        let w = max(width - 56, 40);
        let pct = min(heap_percent as int, 100);
        &&& self.bar_x == margin_x
        &&& self.bar_y == footer_top + pad
        &&& self.bar_w == w
        &&& self.bar_h == h
        &&& self.fill_w == pct * (w - 2) / 100
        &&& self.pct_x == margin_x + w + 4
        &&& self.pct_y == footer_top + pad + clamp(h - 1, 6, 10)
        &&& self.stats_y == footer_top + pad + h + gap
    }
}

fn scale_clamp(dim_min: u32, k: u32, lo: u32, hi: u32) -> (r: u32)
    requires
        dim_min <= 65535,
        k <= 18,
        lo <= hi,
    ensures
        r == scaled(dim_min as int, k as int, lo as int, hi as int),
{
    assert(dim_min * k <= 65535 * 18) by (nonlinear_arith)
        requires
            dim_min <= 65535,
            k <= 18,
    ;
    let v: u32 = dim_min * k / (DISPLAY_LAYOUT_REF_PX as u32);
    if v < lo {
        lo
    } else if v > hi {
        hi
    } else {
        v
    }
}

/// The footer's heap bar and statistics line (see `is_footer_of`).
pub fn footer_geometry(width: u16, height: u16, footer_top: u16, margin_x: u16, heap_percent: u8) -> (g: FooterGeometry)
    ensures
        g.is_footer_of(width, height, footer_top, margin_x, heap_percent),
{
    let dim_min: u32 = if width <= height { width as u32 } else { height as u32 };
    let pad = scale_clamp(dim_min, 18, 14, 22);
    let gap = scale_clamp(dim_min, 12, 9, 14);
    let h = scale_clamp(dim_min, 8, 6, 10);
    let w: u32 = if width >= 96 { width as u32 - 56 } else { 40 };
    let pct: u32 = if heap_percent <= 100 { heap_percent as u32 } else { 100 };
    assert(pct * (w - 2) <= 100 * 65535) by (nonlinear_arith)
        requires
            pct <= 100,
            w - 2 <= 65535,
    ;
    let fill: u32 = pct * (w - 2) / 100;
    let bar_y: i32 = footer_top as i32 + pad as i32;
    let pct_dy: i32 = if (h as i32) - 1 < 6 { 6 } else if (h as i32) - 1 > 10 { 10 } else { h as i32 - 1 };
    FooterGeometry {
        bar_x: margin_x as i32,
        bar_y,
        bar_w: w,
        bar_h: h,
        fill_w: fill,
        pct_x: margin_x as i32 + w as i32 + 4,
        pct_y: bar_y + pct_dy,
        stats_y: bar_y + h as i32 + gap as i32,
    }
}

/// Boot progress: of the four segments (WiFi, time, channels, agent), those before `stage`
/// (at most four) are filled.
pub fn boot_segment_filled(stage: u8, segment: u8) -> (r: bool)
    ensures
        r == (segment < (if stage > 4 { 4u8 } else { stage })),
{
    let s: u8 = if stage > 4 { 4 } else { stage };
    segment < s
}

/// How the beetle icon is drawn.
#[derive(Clone, Copy, Debug, PartialEq, Eq)]
pub struct BeetleOpts {
    pub flipped: bool,
    pub x_eyes: bool,
    pub wings: bool,
    /// Recording: antennae spread and sound arcs at the head.
    pub listening: bool,
}

/// The icon for a system state: wings while busy, on its back with crossed eyes on a fault,
/// listening while recording, plain otherwise.
pub fn beetle_opts(state: DisplaySystemState) -> (r: BeetleOpts)
    ensures
        r.wings == (state == DisplaySystemState::Busy),
        r.flipped == (state == DisplaySystemState::Fault),
        r.x_eyes == (state == DisplaySystemState::Fault),
        r.listening == (state == DisplaySystemState::Recording),
{
    match state {
        DisplaySystemState::Busy => BeetleOpts { flipped: false, x_eyes: false, wings: true, listening: false },
        DisplaySystemState::Fault => BeetleOpts { flipped: true, x_eyes: true, wings: false, listening: false },
        DisplaySystemState::Recording => BeetleOpts { flipped: false, x_eyes: false, wings: false, listening: true },
        _ => BeetleOpts { flipped: false, x_eyes: false, wings: false, listening: false },
    }
}

/// Anchor points of the beetle icon in a `size` box at (`x`, `y`), which the state overlays
/// are placed by: (centre x, body centre y, body radius, head centre y, head radius). On its
/// back the head is below the body.
pub open spec fn beetle_anchor_spec(x: u16, y: u16, size: u16, flipped: bool) -> (int, int, int, int, int) {
    let head_cy = if flipped { y + size * 72 / 100 } else { y + size * 30 / 100 };
    let body_cy = if flipped { y + size * 40 / 100 } else { y + size * 62 / 100 };
    (x + size / 2, body_cy, size * 28 / 100, head_cy, size * 14 / 100)
}

/// Anchor points of the beetle icon (see `beetle_anchor_spec`).
pub fn beetle_anchor(x: u16, y: u16, size: u16, flipped: bool) -> (r: (i32, i32, i32, i32, i32))
    ensures
        (r.0 as int, r.1 as int, r.2 as int, r.3 as int, r.4 as int) == beetle_anchor_spec(x, y, size, flipped),
{
    let s: u32 = size as u32;
    let head_dy: u32 = if flipped { s * 72 / 100 } else { s * 30 / 100 };
    let body_dy: u32 = if flipped { s * 40 / 100 } else { s * 62 / 100 };
    (
        (x as u32 + s / 2) as i32,
        (y as u32 + body_dy) as i32,
        (s * 28 / 100) as i32,
        (y as u32 + head_dy) as i32,
        (s * 14 / 100) as i32,
    )
}

/// The three panels of the dashboard and the dividers between them.
pub struct PanelGeometry {
    pub mid_div_y: i32,
    pub foot_div_y: i32,
    pub head_y: i32,
    pub head_h: u32,
    pub middle_y: i32,
    pub middle_h: u32,
    pub footer_y: i32,
    pub footer_h: u32,
}

/// `u16::saturating_sub` on integers.
pub open spec fn sat_sub(a: u16, b: int) -> int {
    if a >= b { a - b } else { 0 }
}

impl PanelGeometry {
    /// The panels of a screen `height` high whose header, middle and footer start at the given
    /// rows: dividers six pixels above the middle and the footer; the header panel from eight
    /// pixels above the header (at least at row 4) down to the first divider, at least 24
    /// high; the middle panel as `middle_panel_height`; the footer to the bottom, at least 1.
    pub open spec fn is_panels_of(&self, header_top: u16, middle_top: u16, footer_top: u16, height: u16) -> bool {
        let mid_div = sat_sub(middle_top, 6);
        let head = max(header_top - 8, 4);
        &&& self.mid_div_y == mid_div
        &&& self.foot_div_y == sat_sub(footer_top, 6)
        &&& self.head_y == head
        &&& self.head_h == max(mid_div - head, 24)
        &&& self.middle_y == middle_top
        &&& self.middle_h == middle_panel_height(middle_top, footer_top)
        &&& self.footer_y == footer_top
        &&& self.footer_h == max(height - footer_top, 1)
    }
}

/// The panels of the dashboard (see `is_panels_of`).
pub fn dashboard_panels(header_top: u16, middle_top: u16, footer_top: u16, height: u16) -> (g: PanelGeometry)
    ensures
        g.is_panels_of(header_top, middle_top, footer_top, height),
{
    let mid_div: i32 = if middle_top >= 6 { (middle_top - 6) as i32 } else { 0 };
    let foot_div: i32 = if footer_top >= 6 { (footer_top - 6) as i32 } else { 0 };
    let head_raw: i32 = header_top as i32 - 8;
    let head: i32 = if head_raw >= 4 { head_raw } else { 4 };
    let head_h: i32 = if mid_div - head >= 24 { mid_div - head } else { 24 };
    let middle_raw: i32 = foot_div - middle_top as i32;
    let middle_h: i32 = if middle_raw >= 20 { middle_raw } else { 20 };
    let footer_raw: i32 = height as i32 - footer_top as i32;
    let footer_h: i32 = if footer_raw >= 1 { footer_raw } else { 1 };
    PanelGeometry {
        mid_div_y: mid_div,
        foot_div_y: foot_div,
        head_y: head,
        head_h: head_h as u32,
        middle_y: middle_top as i32,
        middle_h: middle_h as u32,
        footer_y: footer_top as i32,
        footer_h: footer_h as u32,
    }
}

} // verus!
