//! Device tools of a host build (GPIO, PWM, ADC, buzzer, DHT): parameter checks, limits and
//! the JSON replies, with simulated readings; and the DHT frame arithmetic shared with real
//! sensors.
use vstd::prelude::*;

use crate::error::Error;
use crate::platform::hardware::{RateLimiter, rate_verdict};
use crate::text::{chars_to_string, decimal, extend_chars, extend_with_str, push_decimal, str_eq, str_to_chars, to_string};

verus! {

/// PWM duty resolution (bits).
pub const LEDC_DUTY_RESOLUTION_BITS: u32 = 13;
/// Largest duty value at that resolution.
pub const LEDC_DUTY_MAX: u32 = 8191;
/// PWM frequency when none is given (Hz).
pub const PWM_DEFAULT_FREQ_HZ: u32 = 5000;
/// Longest buzzer sound (ms).
pub const MAX_BUZZER_DURATION_MS: u64 = 3000;
/// Length of a short beep (ms).
pub const BUZZER_BEEP_MS: u64 = 100;
/// Minimum interval between two successful DHT11 reads (ms).
pub const DHT11_MIN_INTERVAL_MS: u64 = 1000;
/// Minimum interval between two successful DHT22/DHT21 reads (ms).
pub const DHT22_MIN_INTERVAL_MS: u64 = 2000;

/// `r` is a configuration error of `stage` with message `msg`.
pub open spec fn config_err<T>(r: Result<T, Error>, stage: &'static str, msg: Seq<char>) -> bool {
    r matches Err(Error::Config { stage: s, message: m }) && s == stage && m@ == msg
}

/// A signed integer in decimal.
pub open spec fn signed_decimal(i: int) -> Seq<char> {
    if i < 0 { "-"@ + decimal((-i) as nat) } else { decimal(i as nat) }
}

fn push_signed(v: &mut Vec<char>, i: i64)
    ensures
        final(v)@ == old(v)@ + signed_decimal(i as int),
{
    if i < 0 {
        v.push('-');
        let m: u64 = if i == i64::MIN { 9223372036854775808u64 } else { (-i) as u64 };
        let ghost mid = v@;
        push_decimal(v, m);
        assert(v@ == old(v)@ + ("-"@ + decimal((-i) as nat))) by {
            reveal_strlit("-");
            assert(mid == old(v)@.push('-'));
        }
    } else {
        push_decimal(v, i as u64);
    }
}

fn config_error(stage: &'static str, msg: Vec<char>) -> (e: Error)
    ensures
        e matches Error::Config { stage: s, message: m } && s == stage && m@ == msg@,
{
    Error::Config { stage, message: chars_to_string(&msg) }
}

fn config_error_str(stage: &'static str, msg: &str) -> (e: Error)
    ensures
        e matches Error::Config { stage: s, message: m } && s == stage && m@ == msg@,
{
    Error::Config { stage, message: to_string(msg) }
}

/// The reply of a GPIO write.
pub open spec fn gpio_out_reply(value: i64) -> Seq<char> {
    "{\"ok\":true,\"actual_value\":"@ + signed_decimal(value as int) + ",\"stub\":true}"@
}

/// GPIO output on a host build: the pin must be configured and `value` must be 0 or 1.
pub fn drive_gpio_out(pin: Option<i32>, value: Option<i64>) -> (r: Result<String, Error>)
    ensures
        pin is None ==> config_err(r, "gpio_out", "missing pin"@),
        pin is Some ==> match value {
            None => config_err(r, "gpio_out", "missing or invalid 'value' (0 or 1)"@),
            Some(v) => if v == 0 || v == 1 {
                r matches Ok(s) && s@ == gpio_out_reply(v)
            } else {
                config_err(r, "gpio_out", "value must be 0 or 1"@)
            },
        },
{
    if pin.is_none() {
        return Err(config_error_str("gpio_out", "missing pin"));
    }
    let v = match value {
        Some(v) => v,
        None => return Err(config_error_str("gpio_out", "missing or invalid 'value' (0 or 1)")),
    };
    if v != 0 && v != 1 {
        return Err(config_error_str("gpio_out", "value must be 0 or 1"));
    }
    let mut out: Vec<char> = Vec::new();
    extend_with_str(&mut out, "{\"ok\":true,\"actual_value\":");
    push_signed(&mut out, v);
    extend_with_str(&mut out, ",\"stub\":true}");
    Ok(chars_to_string(&out))
}

/// GPIO input on a host build: the pin must be configured; the level reads 0.
pub fn drive_gpio_in(pin: Option<i32>) -> (r: Result<String, Error>)
    ensures
        pin is None ==> config_err(r, "gpio_in", "missing pin"@),
        pin is Some ==> (r matches Ok(s) && s@ == "{\"value\":0,\"stub\":true}"@),
{
    if pin.is_none() {
        return Err(config_error_str("gpio_in", "missing pin"));
    }
    Ok(to_string("{\"value\":0,\"stub\":true}"))
}

/// The duty value for a duty percentage.
pub open spec fn duty_raw(duty: nat) -> nat {
    (duty * (LEDC_DUTY_MAX as nat)) / 100
}

/// The reply of a PWM write.
pub open spec fn pwm_reply(duty: nat) -> Seq<char> {
    "{\"ok\":true,\"duty\":"@ + decimal(duty) + ",\"duty_raw\":"@ + decimal(duty_raw(duty)) + ",\"stub\":true}"@
}

/// PWM output on a host build: the pin must be configured and `duty` must be a percentage;
/// the reply gives the duty and its 13-bit value.
pub fn drive_pwm_out(pin: Option<i32>, duty: Option<u64>, frequency_hz: Option<u64>, ledc_channel: u8, ledc_timer_index: u8) -> (r: Result<String, Error>)
    ensures
        pin is None ==> config_err(r, "pwm_out", "missing pin"@),
        pin is Some ==> match duty {
            None => config_err(r, "pwm_out", "missing or invalid 'duty' (0–100)"@),
            Some(d) => if d <= 100 {
                r matches Ok(s) && s@ == pwm_reply(d as nat)
            } else {
                config_err(r, "pwm_out", "duty must be 0–100"@)
            },
        },
{
    if pin.is_none() {
        return Err(config_error_str("pwm_out", "missing pin"));
    }
    let d = match duty {
        Some(d) => d,
        None => return Err(config_error_str("pwm_out", "missing or invalid 'duty' (0–100)")),
    };
    if d > 100 {
        return Err(config_error_str("pwm_out", "duty must be 0–100"));
    }
    let raw: u32 = ((d as u32) * LEDC_DUTY_MAX) / 100;
    let mut out: Vec<char> = Vec::new();
    extend_with_str(&mut out, "{\"ok\":true,\"duty\":");
    push_decimal(&mut out, d);
    extend_with_str(&mut out, ",\"duty_raw\":");
    push_decimal(&mut out, raw as u64);
    extend_with_str(&mut out, ",\"stub\":true}");
    Ok(chars_to_string(&out))
}

/// The message for a pin outside the ADC1 range.
pub open spec fn adc_range_message(pin: i32) -> Seq<char> {
    "pin "@ + signed_decimal(pin as int) + " not in ADC1 range (GPIO 1–10)"@
}

/// ADC input on a host build: the pin must be configured and be GPIO 1 to 10; the raw
/// reading is mid-scale.
pub fn drive_adc_in(pin: Option<i32>) -> (r: Result<String, Error>)
    ensures
        match pin {
            None => config_err(r, "adc_in", "missing pin"@),
            Some(p) => if 1 <= p <= 10 {
                r matches Ok(s) && s@ == "{\"raw\":2048,\"stub\":true}"@
            } else {
                config_err(r, "adc_in", adc_range_message(p))
            },
        },
{
    let p = match pin {
        Some(p) => p,
        None => return Err(config_error_str("adc_in", "missing pin")),
    };
    if !(1 <= p && p <= 10) {
        let mut msg: Vec<char> = Vec::new();
        extend_with_str(&mut msg, "pin ");
        push_signed(&mut msg, p as i64);
        extend_with_str(&mut msg, " not in ADC1 range (GPIO 1–10)");
        return Err(config_error("adc_in", msg));
    }
    Ok(to_string("{\"raw\":2048,\"stub\":true}"))
}

/// The sound length asked for: a beep, else the given duration, else a beep.
pub open spec fn buzzer_request(beep: Option<bool>, duration_ms: Option<u64>) -> u64 {
    if beep == Some(true) {
        BUZZER_BEEP_MS
    } else {
        match duration_ms {
            Some(d) => d,
            None => BUZZER_BEEP_MS,
        }
    }
}

/// The reply of a buzzer request: the length used, with a warning when it was cut to the
/// maximum.
pub open spec fn buzzer_reply(asked: u64) -> Seq<char> {
    if asked > MAX_BUZZER_DURATION_MS {
        "{\"ok\":true,\"duration_ms\":3000,\"warning\":\"clamped to max 3000ms\",\"stub\":true}"@
    } else {
        "{\"ok\":true,\"duration_ms\":"@ + decimal(asked as nat) + ",\"stub\":true}"@
    }
}

/// Buzzer on a host build: the pin must be configured; the length is capped at 3 s.
pub fn drive_buzzer(pin: Option<i32>, beep: Option<bool>, duration_ms: Option<u64>) -> (r: Result<String, Error>)
    ensures
        pin is None ==> config_err(r, "buzzer", "missing pin"@),
        pin is Some ==> (r matches Ok(s) && s@ == buzzer_reply(buzzer_request(beep, duration_ms))),
{
    if pin.is_none() {
        return Err(config_error_str("buzzer", "missing pin"));
    }
    let is_beep = match beep {
        Some(b) => b,
        None => false,
    };
    let mut d: u64 = if is_beep {
        BUZZER_BEEP_MS
    } else {
        match duration_ms {
            Some(d) => d,
            None => BUZZER_BEEP_MS,
        }
    };
    let clamped = d > MAX_BUZZER_DURATION_MS;
    if clamped {
        d = MAX_BUZZER_DURATION_MS;
    }
    let mut out: Vec<char> = Vec::new();
    extend_with_str(&mut out, "{\"ok\":true,\"duration_ms\":");
    push_decimal(&mut out, d);
    if clamped {
        extend_with_str(&mut out, ",\"warning\":\"clamped to max ");
        push_decimal(&mut out, MAX_BUZZER_DURATION_MS);
        extend_with_str(&mut out, "ms\",\"stub\":true}");
        proof {
            reveal_strlit("{\"ok\":true,\"duration_ms\":");
            reveal_strlit(",\"warning\":\"clamped to max ");
            reveal_strlit("ms\",\"stub\":true}");
            reveal_strlit("{\"ok\":true,\"duration_ms\":3000,\"warning\":\"clamped to max 3000ms\",\"stub\":true}");
            reveal_with_fuel(decimal, 5);
            assert(out@ =~= "{\"ok\":true,\"duration_ms\":3000,\"warning\":\"clamped to max 3000ms\",\"stub\":true}"@);
        }
    } else {
        extend_with_str(&mut out, ",\"stub\":true}");
    }
    Ok(chars_to_string(&out))
}

/// The DHT models accepted.
pub open spec fn dht_model_ok(model: Seq<char>) -> bool {
    model == "dht11"@ || model == "dht22"@ || model == "dht21"@
}

/// Minimum interval between two successful reads of a DHT model.
pub open spec fn dht_min_interval(model: Seq<char>) -> u64 {
    if model == "dht11"@ { DHT11_MIN_INTERVAL_MS } else { DHT22_MIN_INTERVAL_MS }
}

/// The message for a read that comes too early.
pub open spec fn too_frequent_message(wait: u64, min_interval: u64) -> Seq<char> {
    "too frequent: wait "@ + decimal(wait as nat) + "ms before next read (min interval "@ + decimal(min_interval as nat) + "ms)"@
}

/// The reply of a simulated DHT read.
pub open spec fn dht_stub_reply(model: Seq<char>) -> Seq<char> {
    "{\"temperature\":22.0,\"humidity\":55.0,\"model\":\""@ + model + "\",\"stub\":true}"@
}

/// DHT read on a host build: the pin must be configured and the model (default `dht11`) be
/// one of `dht11`, `dht22`, `dht21`; reads of a pin are rate-limited per model, and a
/// success is recorded at `now_ms`.
pub fn drive_dht(limiter: &mut RateLimiter, pin: Option<i32>, model: Option<&str>, now_ms: u64) -> (r: Result<String, Error>)
    ensures
        pin is None ==> config_err(r, "drive_dht", "missing pin"@) && *final(limiter) == *old(limiter),
        pin matches Some(p) ==> {
            let m = match model { Some(m) => m@, None => "dht11"@ };
            if !dht_model_ok(m) {
                &&& config_err(r, "drive_dht", "options.model must be dht11|dht22|dht21, got '"@ + m + "'"@)
                &&& *final(limiter) == *old(limiter)
            } else {
                match rate_verdict(old(limiter).last_of(p), now_ms, dht_min_interval(m)) {
                    Some(w) => config_err(r, "drive_dht", too_frequent_message(w, dht_min_interval(m)))
                        && *final(limiter) == *old(limiter),
                    None => {
                        &&& r matches Ok(s) && s@ == dht_stub_reply(m)
                        &&& final(limiter).last_of(p) == Some(now_ms)
                        &&& forall|k: i32| k != p ==> final(limiter).last_of(k) == old(limiter).last_of(k)
                    },
                }
            }
        },
{
    let p = match pin {
        Some(p) => p,
        None => return Err(config_error_str("drive_dht", "missing pin")),
    };
    let m: &str = match model {
        Some(m) => m,
        None => "dht11",
    };
    let is11 = str_eq(m, "dht11");
    if !is11 && !str_eq(m, "dht22") && !str_eq(m, "dht21") {
        let mut msg: Vec<char> = Vec::new();
        extend_with_str(&mut msg, "options.model must be dht11|dht22|dht21, got '");
        extend_with_str(&mut msg, m);
        extend_with_str(&mut msg, "'");
        return Err(config_error("drive_dht", msg));
    }
    let min_interval = if is11 { DHT11_MIN_INTERVAL_MS } else { DHT22_MIN_INTERVAL_MS };
    match limiter.check(p, now_ms, min_interval) {
        Err(wait) => {
            let mut msg: Vec<char> = Vec::new();
            extend_with_str(&mut msg, "too frequent: wait ");
            push_decimal(&mut msg, wait);
            extend_with_str(&mut msg, "ms before next read (min interval ");
            push_decimal(&mut msg, min_interval);
            extend_with_str(&mut msg, "ms)");
            return Err(config_error("drive_dht", msg));
        },
        Ok(()) => {},
    }
    limiter.on_success(p, now_ms);
    let mut out: Vec<char> = Vec::new();
    extend_with_str(&mut out, "{\"temperature\":22.0,\"humidity\":55.0,\"model\":\"");
    extend_with_str(&mut out, m);
    extend_with_str(&mut out, "\",\"stub\":true}");
    Ok(chars_to_string(&out))
}

/// Whether a DHT frame's fifth byte is the low byte of the sum of the first four.
pub open spec fn dht_checksum_ok(frame: Seq<u8>) -> bool {
    (frame[0] + frame[1] + frame[2] + frame[3]) % 256 == frame[4]
}

/// Checks the checksum of a 5-byte DHT frame (sum with wrap-around).
pub fn dht_frame_checksum_ok(frame: &[u8; 5]) -> (r: bool)
    ensures
        r == dht_checksum_ok(frame@),
{
    let sum: u32 = frame[0] as u32 + frame[1] as u32 + frame[2] as u32 + frame[3] as u32;
    sum % 256 == frame[4] as u32
}

/// Temperature and humidity of a DHT frame, in tenths of a degree and of a percent: DHT11
/// gives whole units in bytes 2 and 0; DHT22/DHT21 give big-endian tenths, the temperature
/// with a sign bit.
pub open spec fn dht_tenths(frame: Seq<u8>, is_dht11: bool) -> (int, int) {
    if is_dht11 {
        (frame[2] * 10, frame[0] * 10)
    } else {
        let rh = frame[0] * 256 + frame[1];
        let t_raw = frame[2] * 256 + frame[3];
        let t = if t_raw >= 0x8000 { -(t_raw - 0x8000) } else { t_raw };
        (t, rh)
    }
}

/// Decodes a DHT frame into (temperature, humidity) in tenths.
pub fn dht_decode_tenths(frame: &[u8; 5], is_dht11: bool) -> (r: (i32, u32))
    ensures
        r.0 == dht_tenths(frame@, is_dht11).0,
        r.1 == dht_tenths(frame@, is_dht11).1,
{
    if is_dht11 {
        ((frame[2] as i32) * 10, (frame[0] as u32) * 10)
    } else {
        let rh: u32 = (frame[0] as u32) * 256 + (frame[1] as u32);
        let t_raw: u32 = (frame[2] as u32) * 256 + (frame[3] as u32);
        let t: i32 = if t_raw >= 0x8000 { -((t_raw - 0x8000) as i32) } else { t_raw as i32 };
        (t, rh)
    }
}

/// The byte whose bits, most significant first, are `bits`.
pub open spec fn byte_of_bits(bits: Seq<bool>) -> nat
    decreases bits.len(),
{
    if bits.len() == 0 { 0 } else { byte_of_bits(bits.drop_last()) * 2 + if bits.last() { 1nat } else { 0nat } }
}

proof fn lemma_byte_of_bits_bound(bits: Seq<bool>)
    ensures
        byte_of_bits(bits) < vstd::arithmetic::power2::pow2(bits.len()),
    decreases bits.len(),
{
    if bits.len() > 0 {
        lemma_byte_of_bits_bound(bits.drop_last());
        vstd::arithmetic::power2::lemma_pow2_unfold(bits.len());
    } else {
        vstd::arithmetic::power2::lemma2_to64();
    }
}

/// Packs the 40 sampled bits of a DHT frame, most significant bit of each byte first.
pub fn dht_pack_bits(bits: &[bool]) -> (frame: [u8; 5])
    requires
        bits@.len() == 40,
    ensures
        forall|k: int| 0 <= k < 5 ==> frame@[k] as nat == byte_of_bits(#[trigger] bits@.subrange(8 * k, 8 * k + 8)),
{
    let mut frame: [u8; 5] = [0u8; 5];
    let mut k: usize = 0;
    while k < 5
        invariant
            k <= 5,
            bits@.len() == 40,
            forall|j: int| 0 <= j < k ==> frame@[j] as nat == byte_of_bits(#[trigger] bits@.subrange(8 * j, 8 * j + 8)),
        decreases 5 - k,
    {
        let mut acc: u32 = 0;
        let mut j: usize = 0;
        while j < 8
            invariant
                j <= 8,
                k < 5,
                bits@.len() == 40,
                acc as nat == byte_of_bits(bits@.subrange(8 * k as int, 8 * k as int + j as int)),
            decreases 8 - j,
        {
            proof {
                lemma_byte_of_bits_bound(bits@.subrange(8 * k as int, 8 * k as int + j as int));
                vstd::arithmetic::power2::lemma2_to64();
                vstd::arithmetic::power2::lemma_pow2_strictly_increases(j as nat, 8);
                assert(bits@.subrange(8 * k as int, 8 * k as int + j as int + 1).drop_last()
                    =~= bits@.subrange(8 * k as int, 8 * k as int + j as int));
            }
            let b: u32 = if bits[8 * k + j] { 1 } else { 0 };
            acc = acc * 2 + b;
            j = j + 1;
        }
        proof {
            lemma_byte_of_bits_bound(bits@.subrange(8 * k as int, 8 * k as int + 8));
            vstd::arithmetic::power2::lemma2_to64();
        }
        frame[k] = acc as u8;
        k = k + 1;
    }
    frame
}

} // verus!
