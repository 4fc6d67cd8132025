//! Status-display helpers: heap usage against a calibrated baseline, and the short texts of
//! the dashboard (uptime, percentages, channel labels), written into fixed byte buffers the
//! way the display code writes them.
use vstd::prelude::*;
use vstd::string::StringSliceAdditionalSpecFns;
use vstd::utf8::*;

use crate::text::{chars_to_string, decimal, digit, digit_char, push_decimal, str_eq, to_string};
use crate::constants::{
    DISPLAY_IDLE_LONG_THRESHOLD_SECS, DISPLAY_REFRESH_BUSY_SECS, DISPLAY_REFRESH_IDLE_LONG_SECS, DISPLAY_REFRESH_IDLE_SECS,
    DISPLAY_REFRESH_SLEEP_SECS,
};
use crate::utf8::string_from_utf8;

verus! {

/// Heap usage is measured against the largest free internal heap seen so far; 0 means
/// not calibrated yet.
pub struct HeapUsageBaseline {
    pub baseline: u32,
}

/// The usage percentage reported for `free` bytes against baseline `b`.
pub open spec fn used_percent(b: u32, free: u32) -> int {
    if b == 0 || free > b {
        0
    } else {
        let p = ((b - free) * 100) / (b as int);
        if p > 100 { 100 } else { p }
    }
}

/// The baseline after observing `free` bytes: set on the first observation and raised
/// whenever more is free than before.
pub open spec fn next_baseline(b: u32, free: u32) -> u32 {
    if b == 0 || free > b { free } else { b }
}

impl HeapUsageBaseline {
    pub fn new() -> (r: Self)
        ensures
            r.baseline == 0,
    {
        HeapUsageBaseline { baseline: 0 }
    }

    /// Percentage of the baseline that is in use now; the first observation calibrates
    /// and reports 0.
    pub fn heap_used_percent(&mut self, free: u32) -> (r: u8)
        ensures
            r == used_percent(old(self).baseline, free),
            final(self).baseline == next_baseline(old(self).baseline, free),
            r <= 100,
    {
        let baseline = self.baseline;
        if baseline == 0 {
            self.baseline = free;
            return 0;
        }
        if free > baseline {
            self.baseline = free;
            return 0;
        }
        let used = (baseline - free) as u64;
        assert(used * 100 <= 100 * (u32::MAX as int)) by (nonlinear_arith)
            requires
                used <= u32::MAX,
        ;
        let p = (used * 100) / (baseline as u64);
        assert(p <= 100) by (nonlinear_arith)
            requires
                used <= baseline,
                baseline > 0,
                p == (used * 100) / (baseline as int),
        ;
        p as u8
    }
}

/// Once calibrated, the baseline never goes down, and the reported usage is a percentage.
pub proof fn lemma_baseline_monotone(b: u32, free: u32)
    ensures
        b > 0 ==> next_baseline(b, free) >= b,
        0 <= used_percent(b, free) <= 100,
{
    if b > 0 && free <= b {
        let u = (b - free) as int;
        assert(u * 100 >= 0) by (nonlinear_arith)
            requires
                u >= 0,
        ;
        assert((u * 100) / (b as int) >= 0) by (nonlinear_arith)
            requires
                u * 100 >= 0,
                b > 0,
        ;
    }
}

/// Approximate cosine and sine, times 100, of a small angle in degrees.
pub open spec fn cos_sin_table(deg: i32) -> (i32, i32) {
    if -25 <= deg <= -16 {
        (91, -37i32)
    } else if -15 <= deg <= -6 {
        (97, -17i32)
    } else if -5 <= deg <= 5 {
        (100, (deg * 2) as i32)
    } else if 6 <= deg <= 15 {
        (97, 17)
    } else if 16 <= deg <= 25 {
        (91, 37)
    } else if 26 <= deg <= 35 {
        (82, 50)
    } else {
        (100, 0)
    }
}

/// Approximate cosine and sine (times 100) for the arc angles the display draws.
pub fn approx_cos_sin(deg: i32) -> (r: (i32, i32))
    ensures
        r == cos_sin_table(deg),
{
    if -25 <= deg && deg <= -16 {
        (91, -37)
    } else if -15 <= deg && deg <= -6 {
        (97, -17)
    } else if -5 <= deg && deg <= 5 {
        (100, deg * 2)
    } else if 6 <= deg && deg <= 15 {
        (97, 17)
    } else if 16 <= deg && deg <= 25 {
        (91, 37)
    } else if 26 <= deg && deg <= 35 {
        (82, 50)
    } else {
        (100, 0)
    }
}

/// A percentage as text: capped at 100, then the number and `%`.
pub fn format_pct(val: u8) -> (r: String)
    ensures
        r@ == decimal(if val > 100 { 100nat } else { val as nat }) + "%"@,
{
    let v: u8 = if val > 100 { 100 } else { val };
    let mut out: Vec<char> = Vec::new();
    push_decimal(&mut out, v as u64);
    crate::text::extend_with_str(&mut out, "%");
    chars_to_string(&out)
}

/// The ASCII bytes of a natural number in decimal.
pub open spec fn dec_bytes(n: nat) -> Seq<u8>
    decreases n,
{
    if n < 10 {
        seq![(48 + n) as u8]
    } else {
        dec_bytes(n / 10).push((48 + n % 10) as u8)
    }
}

/// Writing one byte at `pos`: done when `pos` is inside the buffer, which then advances.
pub open spec fn put_byte(buf: Seq<u8>, pos: int, b: u8) -> (Seq<u8>, int) {
    if 0 <= pos < buf.len() { (buf.update(pos, b), pos + 1) } else { (buf, pos) }
}

/// Writing bytes one by one at `pos` while there is room: the buffer and the position after.
pub open spec fn put_bytes(buf: Seq<u8>, pos: int, bytes: Seq<u8>) -> (Seq<u8>, int)
    decreases bytes.len(),
{
    if bytes.len() == 0 {
        (buf, pos)
    } else {
        let (b2, p2) = put_bytes(buf, pos, bytes.drop_last());
        put_byte(b2, p2, bytes.last())
    }
}

/// Writing `x` then `y` is writing `x + y`.
pub proof fn lemma_put_bytes_concat(buf: Seq<u8>, pos: int, x: Seq<u8>, y: Seq<u8>)
    ensures
        put_bytes(put_bytes(buf, pos, x).0, put_bytes(buf, pos, x).1, y) == put_bytes(buf, pos, x + y),
    decreases y.len(),
{
    if y.len() == 0 {
        assert(x + y =~= x);
    } else {
        lemma_put_bytes_concat(buf, pos, x, y.drop_last());
        assert((x + y).drop_last() =~= x + y.drop_last());
        assert((x + y).last() == y.last());
    }
}

/// From a position inside the buffer, the bytes land in order until the buffer is full.
pub proof fn lemma_put_bytes_fill(buf: Seq<u8>, pos: int, bytes: Seq<u8>)
    requires
        0 <= pos <= buf.len(),
    ensures
        put_bytes(buf, pos, bytes).0.len() == buf.len(),
        put_bytes(buf, pos, bytes).1 == pos + if bytes.len() <= buf.len() - pos { bytes.len() as int } else { buf.len() - pos },
        put_bytes(buf, pos, bytes).0.take(put_bytes(buf, pos, bytes).1) == buf.take(pos) + bytes.take(put_bytes(buf, pos, bytes).1 - pos),
    decreases bytes.len(),
{
    if bytes.len() > 0 {
        let d = bytes.drop_last();
        lemma_put_bytes_fill(buf, pos, d);
        let (b2, p2) = put_bytes(buf, pos, d);
        if p2 < buf.len() {
            assert(b2.update(p2, bytes.last()).take(p2 + 1) =~= b2.take(p2).push(bytes.last()));
            assert(bytes.take(p2 + 1 - pos) =~= d.take(p2 - pos).push(bytes.last()));
        } else {
            assert(bytes.take(p2 - pos) =~= d.take(p2 - pos));
        }
    }
}

fn put_one(buf: &mut [u8], pos: usize, b: u8) -> (r: usize)
    ensures
        (final(buf)@, r as int) == put_byte(old(buf)@, pos as int, b),
{
    if pos < buf.len() {
        buf[pos] = b;
        pos + 1
    } else {
        pos
    }
}

/// Writes `bytes` at `pos` while there is room and returns the position after.
fn put_slice(buf: &mut [u8], pos: usize, bytes: &[u8]) -> (r: usize)
    ensures
        (final(buf)@, r as int) == put_bytes(old(buf)@, pos as int, bytes@),
{
    let mut p = pos;
    let mut i: usize = 0;
    assert(bytes@.take(0) =~= Seq::<u8>::empty());
    while i < bytes.len()
        invariant
            i <= bytes.len(),
            buf@.len() == old(buf)@.len(),
            (buf@, p as int) == put_bytes(old(buf)@, pos as int, bytes@.take(i as int)),
        decreases bytes.len() - i,
    {
        assert(bytes@.take(i as int + 1).drop_last() =~= bytes@.take(i as int));
        p = put_one(buf, p, bytes[i]);
        i = i + 1;
    }
    assert(bytes@.take(bytes.len() as int) =~= bytes@);
    p
}

/// The decimal digits of a number, as bytes.
fn dec_digits(n: u64) -> (v: Vec<u8>)
    ensures
        v@ == dec_bytes(n as nat),
    decreases n,
{
    if n < 10 {
        let mut v: Vec<u8> = Vec::new();
        v.push((48 + n) as u8);
        v
    } else {
        let mut v = dec_digits(n / 10);
        v.push((48 + n % 10) as u8);
        v
    }
}

/// Writes a number in decimal at `pos` (as far as there is room) and returns the position
/// after.
pub fn write_u64_to_buf(val: u64, buf: &mut [u8], pos: usize) -> (r: usize)
    ensures
        (final(buf)@, r as int) == put_bytes(old(buf)@, pos as int, dec_bytes(val as nat)),
{
    let digits = dec_digits(val);
    put_slice(buf, pos, digits.as_slice())
}

/// Writes a number in decimal at `pos` (as far as there is room) and returns the position
/// after.
pub fn write_u32_to_buf(val: u32, buf: &mut [u8], pos: usize) -> (r: usize)
    ensures
        (final(buf)@, r as int) == put_bytes(old(buf)@, pos as int, dec_bytes(val as nat)),
{
    write_u64_to_buf(val as u64, buf, pos)
}

/// A running time: `XdYh` from one day on, else `XhYm`.
pub open spec fn uptime_bytes(secs: u64) -> Seq<u8> {
    let days = secs / 86400;
    let hours = (secs % 86400) / 3600;
    let mins = (secs % 3600) / 60;
    if days > 0 {
        dec_bytes(days as nat) + seq![100u8] + dec_bytes(hours as nat) + seq![104u8]
    } else {
        dec_bytes(hours as nat) + seq![104u8] + dec_bytes(mins as nat) + seq![109u8]
    }
}

/// Writes a running time at `pos` (as far as there is room) and returns the position after.
pub fn append_uptime_duration(secs: u64, buf: &mut [u8], pos: usize) -> (r: usize)
    ensures
        (final(buf)@, r as int) == put_bytes(old(buf)@, pos as int, uptime_bytes(secs)),
{
    let days = secs / 86400;
    let hours = (secs % 86400) / 3600;
    let mins = (secs % 3600) / 60;
    let ghost b0 = buf@;
    let (first, first_unit, second, second_unit) = if days > 0 {
        (days, 100u8, hours, 104u8)
    } else {
        (hours, 104u8, mins, 109u8)
    };
    let d1 = dec_digits(first);
    let p1 = put_slice(buf, pos, d1.as_slice());
    let ghost b1 = buf@;
    let p2 = put_one(buf, p1, first_unit);
    let ghost b2 = buf@;
    let d2 = dec_digits(second);
    let p3 = put_slice(buf, p2, d2.as_slice());
    let ghost b3 = buf@;
    let p4 = put_one(buf, p3, second_unit);
    proof {
        let x1 = dec_bytes(first as nat);
        let x2 = seq![first_unit];
        let x3 = dec_bytes(second as nat);
        let x4 = seq![second_unit];
        assert(put_bytes(b1, p1 as int, x2) == put_byte(b1, p1 as int, first_unit)) by {
            assert(x2.drop_last() =~= Seq::<u8>::empty());
            assert(put_bytes(b1, p1 as int, Seq::<u8>::empty()) == (b1, p1 as int));
        }
        assert(put_bytes(b3, p3 as int, x4) == put_byte(b3, p3 as int, second_unit)) by {
            assert(x4.drop_last() =~= Seq::<u8>::empty());
            assert(put_bytes(b3, p3 as int, Seq::<u8>::empty()) == (b3, p3 as int));
        }
        lemma_put_bytes_concat(b0, pos as int, x1, x2);
        lemma_put_bytes_concat(b0, pos as int, x1 + x2, x3);
        lemma_put_bytes_concat(b0, pos as int, x1 + x2 + x3, x4);
    }
    p4
}

/// The bytes that a fixed buffer of `cap` bytes, written from its start, keeps of `data`.
pub open spec fn fitted(data: Seq<u8>, cap: nat) -> Seq<u8> {
    if data.len() <= cap { data } else { data.take(cap as int) }
}

/// Text of well-formed bytes, or `fallback` for ill-formed ones.
pub open spec fn text_or(bytes: Seq<u8>, fallback: Seq<char>) -> Seq<char> {
    if valid_utf8(bytes) { decode_utf8(bytes) } else { fallback }
}

fn zeroed(n: usize) -> (v: Vec<u8>)
    ensures
        v@.len() == n,
{
    let mut v: Vec<u8> = Vec::new();
    let mut i: usize = 0;
    while i < n
        invariant
            i <= n,
            v@.len() == i,
        decreases n - i,
    {
        v.push(0);
        i = i + 1;
    }
    v
}

fn bytes_prefix(v: &Vec<u8>, n: usize) -> (r: Vec<u8>)
    requires
        n <= v@.len(),
    ensures
        r@ == v@.take(n as int),
{
    let mut r: Vec<u8> = Vec::new();
    let mut i: usize = 0;
    while i < n
        invariant
            i <= n <= v@.len(),
            r@ == v@.take(i as int),
        decreases n - i,
    {
        r.push(v[i]);
        assert(v@.take(i as int + 1) =~= v@.take(i as int).push(v@[i as int]));
        i = i + 1;
    }
    r
}

/// The second dashboard line, `Up:` and the running time (empty for a zero time).
pub fn format_uptime_line(secs: u64) -> (r: String)
    ensures
        secs == 0 ==> r@ == Seq::<char>::empty(),
        secs > 0 ==> r@ == text_or(fitted(seq![85u8, 112u8, 58u8] + uptime_bytes(secs), 24), Seq::<char>::empty()),
{
    if secs == 0 {
        return String::new();
    }
    let mut buf = zeroed(24);
    let ghost b0 = buf@;
    let tag: [u8; 3] = [85u8, 112u8, 58u8];
    let p1 = put_slice(buf.as_mut_slice(), 0, &tag);
    let ghost b1 = buf@;
    let pos = append_uptime_duration(secs, buf.as_mut_slice(), p1);
    let ghost data = seq![85u8, 112u8, 58u8] + uptime_bytes(secs);
    proof {
        assert(tag@ =~= seq![85u8, 112u8, 58u8]);
        lemma_put_bytes_concat(b0, 0, tag@, uptime_bytes(secs));
        lemma_put_bytes_fill(b0, 0, data);
        assert(b0.take(0) =~= Seq::<u8>::empty());
        assert(data.take(pos as int) =~= fitted(data, 24));
    }
    let text = bytes_prefix(&buf, pos);
    match string_from_utf8(text) {
        Some(s) => s,
        None => String::new(),
    }
}

/// The narrow-screen subtitle: the address (at most 16 bytes of it), then ` Up:` and the
/// running time when it is not zero, within 30 bytes; the address itself when the cut
/// leaves ill-formed text.
pub fn format_subtitle_with_uptime(ip: &str, secs: u64) -> (r: String)
    ensures
        r@ == text_or(
            fitted(fitted(ip.spec_bytes(), 16) + if secs > 0 { seq![32u8, 85u8, 112u8, 58u8] + uptime_bytes(secs) } else { Seq::<u8>::empty() }, 30),
            ip@,
        ),
{
    let mut buf = zeroed(30);
    let ghost b0 = buf@;
    let ip_bytes = ip.as_bytes();
    let ip_max = if ip_bytes.len() < 16 { ip_bytes.len() } else { 16 };
    let (ip_head, _rest) = ip_bytes.split_at(ip_max);
    let mut pos = put_slice(buf.as_mut_slice(), 0, ip_head);
    let ghost ipd = fitted(ip.spec_bytes(), 16);
    assert(ip_head@ =~= ipd);
    let ghost tail: Seq<u8> = if secs > 0 { seq![32u8, 85u8, 112u8, 58u8] + uptime_bytes(secs) } else { Seq::<u8>::empty() };
    if secs > 0 {
        let ghost b1 = buf@;
        let ghost p1 = pos;
        let tag: [u8; 4] = [32u8, 85u8, 112u8, 58u8];
        pos = put_slice(buf.as_mut_slice(), pos, &tag);
        pos = append_uptime_duration(secs, buf.as_mut_slice(), pos);
        proof {
            assert(tag@ =~= seq![32u8, 85u8, 112u8, 58u8]);
            lemma_put_bytes_concat(b1, p1 as int, tag@, uptime_bytes(secs));
            lemma_put_bytes_concat(b0, 0, ipd, tail);
        }
    } else {
        proof {
            assert(ipd + tail =~= ipd);
        }
    }
    proof {
        lemma_put_bytes_fill(b0, 0, ipd + tail);
        assert(b0.take(0) =~= Seq::<u8>::empty());
        assert((ipd + tail).take(pos as int) =~= fitted(ipd + tail, 30));
    }
    let text = bytes_prefix(&buf, pos);
    match string_from_utf8(text) {
        Some(s) => s,
        None => to_string(ip),
    }
}

/// Most characters of the address line in the wide layout: the pixels right of the title's
/// left edge at six per character, at least 1 and at most 40.
pub open spec fn ip_max_chars(width: u16, title_left: u16) -> nat {
    let px: int = if width >= title_left { width - title_left } else { 0 };
    let c = px / 6;
    if c < 1 { 1 } else if c > 40 { 40 } else { c as nat }
}

/// The address line of the subtitle: in the wide layout the address cut to what fits
/// (`---` when the cut leaves ill-formed text), in the narrow layout the whole address.
pub fn subtitle_ip_text(ip: &str, width: u16, title_left: u16) -> (r: String)
    ensures
        width >= DISPLAY_WIDE_LAYOUT_MIN_PX ==> r@ == text_or(fitted(ip.spec_bytes(), ip_max_chars(width, title_left)), "---"@),
        width < DISPLAY_WIDE_LAYOUT_MIN_PX ==> r@ == ip@,
{
    if width < DISPLAY_WIDE_LAYOUT_MIN_PX {
        return to_string(ip);
    }
    let max_px: u16 = if width >= title_left { width - title_left } else { 0 };
    let c: u16 = max_px / 6;
    let max_chars: usize = if c < 1 { 1 } else if c > 40 { 40 } else { c as usize };
    let bytes = ip.as_bytes();
    let n = if bytes.len() < max_chars { bytes.len() } else { max_chars };
    let (head, _rest) = bytes.split_at(n);
    let v = vstd::slice::slice_to_vec(head);
    assert(v@ =~= fitted(ip.spec_bytes(), ip_max_chars(width, title_left)));
    match string_from_utf8(v) {
        Some(t) => t,
        None => to_string("---"),
    }
}

/// `u8::to_ascii_uppercase`: `a`..`z` become `A`..`Z`, other bytes stay.
pub open spec fn ascii_upper(b: u8) -> u8 {
    if 97 <= b <= 122 { (b - 32) as u8 } else { b }
}

/// The label of a channel on the screen: a fixed abbreviation for the known channels, else
/// the first four bytes of the name in upper case (`?` when that cut is not text).
pub open spec fn channel_label(name: Seq<char>, bytes: Seq<u8>) -> Seq<char> {
    if name == "telegram"@ {
        "TG"@
    } else if name == "feishu"@ {
        "FS"@
    } else if name == "dingtalk"@ {
        "DT"@
    } else if name == "wecom"@ {
        "WC"@
    } else if name == "qq_channel"@ {
        "QQ"@
    } else {
        text_or(fitted(bytes, 4).map_values(|b: u8| ascii_upper(b)), "?"@)
    }
}

/// The screen label of a channel.
pub fn channel_display_label(name: &str) -> (r: String)
    ensures
        r@ == channel_label(name@, name.spec_bytes()),
{
    if str_eq(name, "telegram") {
        return to_string("TG");
    }
    if str_eq(name, "feishu") {
        return to_string("FS");
    }
    if str_eq(name, "dingtalk") {
        return to_string("DT");
    }
    if str_eq(name, "wecom") {
        return to_string("WC");
    }
    if str_eq(name, "qq_channel") {
        return to_string("QQ");
    }
    let bytes = name.as_bytes();
    let n = if bytes.len() < 4 { bytes.len() } else { 4 };
    let mut out: Vec<u8> = Vec::new();
    let mut i: usize = 0;
    while i < n
        invariant
            i <= n <= bytes@.len(),
            n == (if bytes@.len() < 4 { bytes@.len() } else { 4 }),
            out@ == bytes@.take(i as int).map_values(|b: u8| ascii_upper(b)),
        decreases n - i,
    {
        let b = bytes[i];
        let u = if 97 <= b && b <= 122 { b - 32 } else { b };
        out.push(u);
        assert(bytes@.take(i as int + 1) =~= bytes@.take(i as int).push(b));
        assert(out@ =~= bytes@.take(i as int + 1).map_values(|b: u8| ascii_upper(b)));
        i = i + 1;
    }
    assert(bytes@.take(n as int) =~= fitted(bytes@, 4));
    match string_from_utf8(out) {
        Some(s) => s,
        None => to_string("?"),
    }
}

/// Width from which the dashboard uses its wide layout (pixels).
pub const DISPLAY_WIDE_LAYOUT_MIN_PX: u16 = 200;

/// Rows of the subtitle strip that an IP update repaints: two text lines in the wide layout
/// when an uptime is shown, one otherwise.
pub fn subtitle_ip_flush_rows(width: u16, uptime_secs: u64) -> (r: u16)
    ensures
        r == (if width >= DISPLAY_WIDE_LAYOUT_MIN_PX && uptime_secs > 0 { 30u16 } else { 16u16 }),
{
    if width >= DISPLAY_WIDE_LAYOUT_MIN_PX && uptime_secs > 0 {
        30
    } else {
        16
    }
}

/// Colour byte order of a display panel.
#[derive(Clone, Copy, Debug, PartialEq, Eq)]
pub enum DisplayColorOrder {
    Rgb,
    Bgr,
}

/// Rotation bits of the panel's memory-access-control byte (0, 90, 180, 270 degrees; any
/// other value counts as 0).
pub open spec fn rotation_bits(rotation: u16) -> u8 {
    if rotation == 90 {
        0x60
    } else if rotation == 180 {
        0xC0
    } else if rotation == 270 {
        0xA0
    } else {
        0x00
    }
}

/// Colour-order bit of the memory-access-control byte.
pub open spec fn color_order_bit(order: DisplayColorOrder) -> u8 {
    match order {
        DisplayColorOrder::Rgb => 0x00,
        DisplayColorOrder::Bgr => 0x08,
    }
}

/// The panel's memory-access-control byte for a rotation and a colour order.
pub fn compute_madctl(rotation: u16, color_order: DisplayColorOrder) -> (r: u8)
    ensures
        r == rotation_bits(rotation) | color_order_bit(color_order),
{
    let color_bit: u8 = match color_order {
        DisplayColorOrder::Rgb => 0x00,
        DisplayColorOrder::Bgr => 0x08,
    };
    let rot_bits: u8 = if rotation == 90 {
        0x60
    } else if rotation == 180 {
        0xC0
    } else if rotation == 270 {
        0xA0
    } else {
        0x00
    };
    rot_bits | color_bit
}

/// The last LLM latency as the footer shows it: from a second on, seconds with one decimal
/// (tenths cut, not rounded) and `s`; below that, milliseconds and `ms`.
pub open spec fn latency_text(ms: u32) -> Seq<char> {
    if ms >= 1000 {
        decimal((ms / 1000) as nat) + seq!['.', digit_char(((ms % 1000) / 100) as nat), 's']
    } else {
        decimal(ms as nat) + "ms"@
    }
}

/// The footer's clock: `--:--` before the time is known (0), else the UTC hour and minute
/// of the day as `HH:MM`.
pub open spec fn clock_text(epoch_secs: u32) -> Seq<char> {
    if epoch_secs == 0 {
        "--:--"@
    } else {
        let day = epoch_secs % 86400;
        let h = (day / 3600) % 24;
        let m = (day % 3600) / 60;
        seq![digit_char((h / 10) as nat), digit_char((h % 10) as nat), ':', digit_char((m / 10) as nat), digit_char((m % 10) as nat)]
    }
}

/// Text of the last LLM latency (see `latency_text`).
pub fn llm_latency_text(ms: u32) -> (r: String)
    ensures
        r@ == latency_text(ms),
{
    let mut out: Vec<char> = Vec::new();
    if ms >= 1000 {
        push_decimal(&mut out, (ms / 1000) as u64);
        out.push('.');
        out.push(digit(((ms % 1000) / 100) as u64));
        out.push('s');
    } else {
        push_decimal(&mut out, ms as u64);
        crate::text::extend_with_str(&mut out, "ms");
    }
    chars_to_string(&out)
}

/// Text of the footer's clock (see `clock_text`).
pub fn footer_clock_text(epoch_secs: u32) -> (r: String)
    ensures
        r@ == clock_text(epoch_secs),
{
    if epoch_secs == 0 {
        return to_string("--:--");
    }
    let day = epoch_secs % 86400;
    let h = (day / 3600) % 24;
    let m = (day % 3600) / 60;
    let mut out: Vec<char> = Vec::new();
    out.push(digit((h / 10) as u64));
    out.push(digit((h % 10) as u64));
    out.push(':');
    out.push(digit((m / 10) as u64));
    out.push(digit((m % 10) as u64));
    chars_to_string(&out)
}

/// The parts of the footer's statistics line, as (label, value): messages in and out, the
/// last LLM latency when there was one, and the clock (without a label).
pub open spec fn stats_parts(msg_in: u32, msg_out: u32, epoch_secs: u32, llm_ms: u32) -> Seq<(Seq<char>, Seq<char>)> {
    let counts = seq![("In:"@, decimal(msg_in as nat)), ("Out:"@, decimal(msg_out as nat))];
    let with_latency = if llm_ms > 0 { counts.push(("L:"@, latency_text(llm_ms))) } else { counts };
    with_latency.push((""@, clock_text(epoch_secs)))
}

/// Horizontal offset (pixels) of part `i` of a statistics line: each earlier part takes six
/// pixels per character of its label and value, and one blank character after it.
pub open spec fn part_offset(parts: Seq<(Seq<char>, Seq<char>)>, i: int) -> int
    decreases i,
{
    if i <= 0 {
        0
    } else {
        part_offset(parts, i - 1) + 6 * (parts[i - 1].0.len() + parts[i - 1].1.len() + 1)
    }
}

/// One part of the statistics line with the offsets of its label and its value.
pub struct StatsPart {
    pub label: String,
    pub value: String,
    pub label_x: u32,
    pub value_x: u32,
}

fn push_part(parts: &mut Vec<StatsPart>, x: &mut u32, label: &str, value: String)
    requires
        *old(x) + 6 * (label@.len() + value@.len() + 1) <= u32::MAX,
    ensures
        final(parts)@.len() == old(parts)@.len() + 1,
        forall|k: int| 0 <= k < old(parts)@.len() ==> final(parts)@[k] == old(parts)@[k],
        final(parts)@.last().label@ == label@,
        final(parts)@.last().value@ == value@,
        final(parts)@.last().label_x == *old(x),
        final(parts)@.last().value_x == *old(x) + 6 * label@.len(),
        *final(x) == *old(x) + 6 * (label@.len() + value@.len() + 1),
{
    let label_x = *x;
    let label_chars = crate::text::str_to_chars(label);
    let value_chars = crate::text::str_to_chars(value.as_str());
    let ll = label_chars.len() as u32;
    let vl = value_chars.len() as u32;
    let value_x = label_x + 6 * ll;
    *x = value_x + 6 * vl + 6;
    parts.push(StatsPart { label: to_string(label), value, label_x, value_x });
}

/// The footer's statistics line, laid out from offset 0 (see `stats_parts` and `part_offset`).
pub fn stats_line_parts(msg_in: u32, msg_out: u32, epoch_secs: u32, llm_ms: u32) -> (r: Vec<StatsPart>)
    ensures
        r@.len() == stats_parts(msg_in, msg_out, epoch_secs, llm_ms).len(),
        forall|i: int| 0 <= i < r@.len() ==> {
            let p = #[trigger] stats_parts(msg_in, msg_out, epoch_secs, llm_ms)[i];
            &&& r@[i].label@ == p.0
            &&& r@[i].value@ == p.1
            &&& r@[i].label_x == part_offset(stats_parts(msg_in, msg_out, epoch_secs, llm_ms), i)
            &&& r@[i].value_x == r@[i].label_x + 6 * p.0.len()
        },
{
    let ghost parts = stats_parts(msg_in, msg_out, epoch_secs, llm_ms);
    let mut out: Vec<StatsPart> = Vec::new();
    let mut x: u32 = 0;
    let in_text = chars_to_string(&crate::text::decimal_chars(msg_in as u64));
    proof {
        lemma_decimal_len(msg_in as nat);
        lemma_decimal_len(msg_out as nat);
        reveal_strlit("In:");
        reveal_strlit("Out:");
        reveal_strlit("L:");
        reveal_strlit("");
        reveal_strlit("ms");
        reveal_strlit("--:--");
    }
    push_part(&mut out, &mut x, "In:", in_text);
    let out_text = chars_to_string(&crate::text::decimal_chars(msg_out as u64));
    push_part(&mut out, &mut x, "Out:", out_text);
    if llm_ms > 0 {
        proof {
            lemma_decimal_len((llm_ms / 1000) as nat);
            lemma_decimal_len(llm_ms as nat);
        }
        let l = llm_latency_text(llm_ms);
        push_part(&mut out, &mut x, "L:", l);
    }
    let c = footer_clock_text(epoch_secs);
    push_part(&mut out, &mut x, "", c);
    proof {
        assert(part_offset(parts, 0) == 0);
        assert(part_offset(parts, 1) == 6 * (3 + parts[0].1.len() + 1));
        assert(part_offset(parts, 2) == part_offset(parts, 1) + 6 * (4 + parts[1].1.len() + 1));
        assert(part_offset(parts, 3) == part_offset(parts, 2) + 6 * (parts[2].0.len() + parts[2].1.len() + 1));
    }
    out
}

/// A decimal rendering of a `u32` has at most ten digits.
proof fn lemma_decimal_len(n: nat)
    ensures
        n < 4294967296 ==> decimal(n).len() <= 10,
{
    if n < 4294967296 {
        assert(pow10(10) == 10000000000) by {
            reveal_with_fuel(pow10, 11);
        }
        lemma_decimal_len_pow(n, 10);
    }
}

/// `10^k`.
spec fn pow10(k: nat) -> nat
    decreases k,
{
    if k == 0 { 1 } else { 10 * pow10((k - 1) as nat) }
}

/// A number below `10^k` has at most `k` decimal digits.
proof fn lemma_decimal_len_pow(n: nat, k: nat)
    requires
        n < pow10(k),
        k >= 1,
    ensures
        decimal(n).len() <= k,
    decreases k,
{
    if n >= 10 {
        assert(k >= 2) by {
            if k == 1 {
                assert(pow10(1) == 10) by {
                    reveal_with_fuel(pow10, 2);
                }
            }
        }
        assert(n / 10 < pow10((k - 1) as nat));
        lemma_decimal_len_pow(n / 10, (k - 1) as nat);
    }
}

/// What the dashboard shows the system doing.
#[derive(Clone, Copy, Debug, PartialEq, Eq, Structural)]
pub enum DisplaySystemState {
    Booting,
    NoWifi,
    Idle,
    Busy,
    Fault,
    Recording,
    Playing,
}

/// Seconds until the next display refresh: slow with the backlight off, fast while busy or
/// recording, and for an idle screen (or one without WiFi) slower once the last activity is
/// at least the long-idle threshold ago.
pub open spec fn refresh_secs(state: DisplaySystemState, backlight_off: bool, idle_secs: u64) -> u64 {
    if backlight_off {
        DISPLAY_REFRESH_SLEEP_SECS
    } else {
        match state {
            DisplaySystemState::Busy | DisplaySystemState::Recording => DISPLAY_REFRESH_BUSY_SECS,
            DisplaySystemState::Idle | DisplaySystemState::NoWifi => if idle_secs >= DISPLAY_IDLE_LONG_THRESHOLD_SECS {
                DISPLAY_REFRESH_IDLE_LONG_SECS
            } else {
                DISPLAY_REFRESH_IDLE_SECS
            },
            _ => DISPLAY_REFRESH_IDLE_SECS,
        }
    }
}

/// Seconds until the next display refresh, given the seconds since the last activity (see
/// `refresh_secs`).
pub fn compute_refresh_secs(state: DisplaySystemState, backlight_off: bool, idle_secs: u64) -> (r: u64)
    ensures
        r == refresh_secs(state, backlight_off, idle_secs),
{
    if backlight_off {
        return DISPLAY_REFRESH_SLEEP_SECS;
    }
    match state {
        DisplaySystemState::Busy | DisplaySystemState::Recording => DISPLAY_REFRESH_BUSY_SECS,
        DisplaySystemState::Idle | DisplaySystemState::NoWifi => {
            if idle_secs >= DISPLAY_IDLE_LONG_THRESHOLD_SECS {
                DISPLAY_REFRESH_IDLE_LONG_SECS
            } else {
                DISPLAY_REFRESH_IDLE_SECS
            }
        },
        _ => DISPLAY_REFRESH_IDLE_SECS,
    }
}

/// A busy screen refreshes at least as often as any other, and a longer idle spell never
/// makes the screen refresh more often.
pub proof fn lemma_refresh_busy_fastest_idle_monotone(state: DisplaySystemState, backlight_off: bool, a: u64, b: u64)
    requires
        a <= b,
    ensures
        refresh_secs(DisplaySystemState::Busy, false, a) <= refresh_secs(state, backlight_off, b),
        refresh_secs(state, backlight_off, a) <= refresh_secs(state, backlight_off, b),
{
}

} // verus!
