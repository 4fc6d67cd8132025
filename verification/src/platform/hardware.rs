//! Sensor frame checks (SHT3x, AHT20), the per-device read rate limit, and the I2C stubs of a
//! host build.
use std::collections::HashMap;
use vstd::prelude::*;

use crate::constants::I2C_SENSOR_RATE_LIMIT_MS;
use crate::error::Error;
use crate::text::{decimal, push_str, str_eq, to_string};

verus! {

/// One bit step of the SHT3x CRC-8 (polynomial 0x31).
pub open spec fn crc_shift(c: u8) -> u8 {
    if c & 0x80 != 0 { ((c << 1u8) ^ 0x31u8) as u8 } else { (c << 1u8) as u8 }
}

/// Eight bit steps.
pub open spec fn crc_shift_n(c: u8, n: nat) -> u8
    decreases n,
{
    if n == 0 { c } else { crc_shift(crc_shift_n(c, (n - 1) as nat)) }
}

/// SHT3x CRC-8 of a byte sequence: initial value 0xFF, polynomial 0x31, no final XOR.
pub open spec fn crc8(data: Seq<u8>) -> u8
    decreases data.len(),
{
    if data.len() == 0 {
        0xFF
    } else {
        crc_shift_n(crc8(data.drop_last()) ^ data.last(), 8)
    }
}

pub fn crc8_sht3x(data: &[u8]) -> (r: u8)
    ensures
        r == crc8(data@),
{
    let mut crc: u8 = 0xFF;
    let mut i: usize = 0;
    while i < data.len()
        invariant
            i <= data.len(),
            crc == crc8(data@.take(i as int)),
        decreases data.len() - i,
    {
        assert(data@.take(i as int + 1).drop_last() == data@.take(i as int));
        crc = crc ^ data[i];
        let ghost start = crc;
        let mut k: u32 = 0;
        while k < 8
            invariant
                k <= 8,
                crc == crc_shift_n(start, k as nat),
            decreases 8 - k,
        {
            if (crc & 0x80) != 0 {
                crc = (crc << 1) ^ 0x31;
            } else {
                crc = crc << 1;
            }
            k = k + 1;
        }
        i = i + 1;
    }
    assert(data@.take(data.len() as int) == data@);
    crc
}

/// Why a sensor frame was refused.
#[derive(Debug, Clone, Copy, PartialEq, Eq, Structural)]
pub enum SensorError {
    /// Fewer than six bytes.
    TooShort { len: usize },
    /// SHT3x humidity CRC mismatch.
    HumidityCrc,
    /// SHT3x temperature CRC mismatch.
    TemperatureCrc,
    /// AHT20 status bit 7 set (measurement not finished).
    Busy,
}

/// The raw humidity and temperature words of an SHT3x measurement frame
/// (humidity MSB, LSB, CRC, temperature MSB, LSB, CRC), after both CRCs check.
pub open spec fn sht3x_verdict(d: Seq<u8>) -> Result<(u16, u16), SensorError> {
    if d.len() < 6 {
        Err(SensorError::TooShort { len: d.len() as usize })
    } else if crc8(d.subrange(0, 2)) != d[2] {
        Err(SensorError::HumidityCrc)
    } else if crc8(d.subrange(3, 5)) != d[5] {
        Err(SensorError::TemperatureCrc)
    } else {
        Ok(((d[0] * 256 + d[1]) as u16, (d[3] * 256 + d[4]) as u16))
    }
}

/// Checks an SHT3x frame and returns the raw (humidity, temperature) words.
pub fn sht3x_raw(data: &[u8]) -> (r: Result<(u16, u16), SensorError>)
    ensures
        r == sht3x_verdict(data@),
{
    if data.len() < 6 {
        return Err(SensorError::TooShort { len: data.len() });
    }
    let h = [data[0], data[1]];
    let t = [data[3], data[4]];
    assert(h@ == data@.subrange(0, 2));
    assert(t@ == data@.subrange(3, 5));
    if crc8_sht3x(&h) != data[2] {
        return Err(SensorError::HumidityCrc);
    }
    if crc8_sht3x(&t) != data[5] {
        return Err(SensorError::TemperatureCrc);
    }
    let rh = (data[0] as u16) * 256 + data[1] as u16;
    let tr = (data[3] as u16) * 256 + data[4] as u16;
    Ok((rh, tr))
}

/// The raw 20-bit humidity and temperature of an AHT20 frame (status, then 40 bits of data),
/// refused while the busy bit is set.
pub open spec fn aht20_verdict(d: Seq<u8>) -> Result<(u32, u32), SensorError> {
    if d.len() < 6 {
        Err(SensorError::TooShort { len: d.len() as usize })
    } else if d[0] >= 0x80 {
        Err(SensorError::Busy)
    } else {
        Ok((
            (d[1] * 4096 + d[2] * 16 + d[3] / 16) as u32,
            ((d[3] % 16) * 65536 + d[4] * 256 + d[5]) as u32,
        ))
    }
}

/// Checks an AHT20 frame and returns the raw (humidity, temperature) values.
pub fn aht20_raw(data: &[u8]) -> (r: Result<(u32, u32), SensorError>)
    ensures
        r == aht20_verdict(data@),
{
    if data.len() < 6 {
        return Err(SensorError::TooShort { len: data.len() });
    }
    if (data[0] & 0x80) != 0 {
        let b = data[0];
        assert((b & 0x80) != 0 ==> b >= 0x80) by (bit_vector);
        return Err(SensorError::Busy);
    }
    let b0 = data[0];
    assert((b0 & 0x80) == 0 ==> b0 < 0x80) by (bit_vector);
    let d1 = data[1] as u32;
    let d2 = data[2] as u32;
    let d3 = data[3] as u32;
    let d4 = data[4] as u32;
    let d5 = data[5] as u32;
    let h_raw: u32 = ((d1 << 12) | (d2 << 4) | (d3 >> 4)) & 0xFFFFF;
    let t_raw: u32 = (((d3 & 0x0F) << 16) | (d4 << 8) | d5) & 0xFFFFF;
    assert(d1 < 256 && d2 < 256 && d3 < 256 ==> ((d1 << 12) | (d2 << 4) | (d3 >> 4)) & 0xFFFFF == d1 * 4096 + d2 * 16 + d3 / 16) by (bit_vector);
    assert(d3 < 256 && d4 < 256 && d5 < 256 ==> (((d3 & 0x0F) << 16) | (d4 << 8) | d5) & 0xFFFFF == (d3 % 16) * 65536 + d4 * 256 + d5) by (bit_vector);
    Ok((h_raw, t_raw))
}

/// Last successful read per device key (ms on a monotonic clock).
pub struct RateLimiter {
    last: HashMap<i32, u64>,
}

/// Whether a read at `now_ms` is too early: a previous success less than `min_interval_ms` ago.
/// The answer is the wait left.
pub open spec fn rate_verdict(prev: Option<u64>, now_ms: u64, min_interval_ms: u64) -> Option<u64> {
    match prev {
        Some(p) => {
            let elapsed = if now_ms >= p { now_ms - p } else { 0 };
            if elapsed < min_interval_ms { Some((min_interval_ms - elapsed) as u64) } else { None }
        },
        None => None,
    }
}

impl RateLimiter {
    /// The time of the last recorded success for `key`, if any.
    pub closed spec fn last_of(&self, key: i32) -> Option<u64> {
        if self.last@.contains_key(key) {
            Some(self.last@[key])
        } else {
            None
        }
    }

    /// The keys with a recorded success: one entry each.
    pub closed spec fn tracked_keys(&self) -> Set<i32> {
        self.last@.dom()
    }

    pub fn new() -> (r: Self)
        ensures
            forall|k: i32| r.last_of(k) is None,
            r.tracked_keys() == Set::<i32>::empty(),
    {
        RateLimiter { last: HashMap::new() }
    }

    fn lookup(&self, key: i32) -> (r: Option<u64>)
        ensures
            r == self.last_of(key),
    {
        broadcast use vstd::std_specs::hash::group_hash_axioms;
        match self.last.get(&key) {
            Some(v) => Some(*v),
            None => None,
        }
    }

    /// `Err(wait_ms)` when the previous success for `key` is less than `min_interval_ms` old.
    pub fn check(&self, key: i32, now_ms: u64, min_interval_ms: u64) -> (r: Result<(), u64>)
        ensures
            match rate_verdict(self.last_of(key), now_ms, min_interval_ms) {
                Some(w) => r == Err::<(), u64>(w),
                None => r is Ok,
            },
    {
        match self.lookup(key) {
            Some(prev) => {
                let elapsed = now_ms.saturating_sub(prev);
                if elapsed < min_interval_ms {
                    Err(min_interval_ms - elapsed)
                } else {
                    Ok(())
                }
            },
            None => Ok(()),
        }
    }

    /// Records a successful read of `key` at `now_ms`, replacing the key's earlier time: a key
    /// seen before adds no entry.
    pub fn on_success(&mut self, key: i32, now_ms: u64)
        ensures
            final(self).last_of(key) == Some(now_ms),
            forall|k: i32| k != key ==> final(self).last_of(k) == old(self).last_of(k),
            final(self).tracked_keys() == old(self).tracked_keys().insert(key),
    {
        broadcast use vstd::std_specs::hash::group_hash_axioms;
        self.last.insert(key, now_ms);
    }
}

/// I2C register read on a host build: `len` zero bytes.
pub fn drive_i2c_read(addr: u8, register: u8, len: usize) -> (r: Result<Vec<u8>, Error>)
    ensures
        r matches Ok(v) && v@ == Seq::new(len as nat, |i: int| 0u8),
{
    let mut v: Vec<u8> = Vec::new();
    let mut i: usize = 0;
    while i < len
        invariant
            i <= len,
            v@ == Seq::new(i as nat, |k: int| 0u8),
        decreases len - i,
    {
        v.push(0);
        i = i + 1;
    }
    Ok(v)
}

/// I2C register write on a host build: accepted, nothing written.
pub fn drive_i2c_write(addr: u8, register: u8, data: &[u8]) -> (r: Result<(), Error>)
    ensures
        r is Ok,
{
    Ok(())
}

/// The simulated reading of a host build for a sensor model.
pub open spec fn sensor_stub_json(model: Seq<char>) -> Seq<char> {
    if model == "raw"@ {
        "{\"raw\":\"000000000000\",\"model\":\"raw\",\"stub\":true}"@
    } else {
        "{\"temperature\":22.0,\"humidity\":55.0,\"model\":\""@ + model + "\",\"stub\":true}"@
    }
}

/// Host stand-in for an I2C sensor read: rate-limited per address, then a fixed reading.
pub fn drive_i2c_sensor_stub(limiter: &mut RateLimiter, addr: u8, model: &str, now_ms: u64) -> (r: Result<String, Error>)
    ensures
        match rate_verdict(old(limiter).last_of(addr as i32), now_ms, I2C_SENSOR_RATE_LIMIT_MS) {
            Some(w) => {
                &&& crate::platform::gpio::config_err(r, "drive_i2c_sensor", "too frequent: wait "@ + decimal(w as nat) + "ms (min interval "@ + decimal(I2C_SENSOR_RATE_LIMIT_MS as nat) + "ms)"@)
                &&& *final(limiter) == *old(limiter)
            },
            None => {
                &&& r matches Ok(s) && s@ == sensor_stub_json(model@)
                &&& final(limiter).last_of(addr as i32) == Some(now_ms)
                &&& forall|k: i32| k != addr as i32 ==> final(limiter).last_of(k) == old(limiter).last_of(k)
            },
        },
{
    let key = addr as i32;
    match limiter.check(key, now_ms, I2C_SENSOR_RATE_LIMIT_MS) {
        Err(wait) => {
            let mut msg: Vec<char> = Vec::new();
            crate::text::extend_with_str(&mut msg, "too frequent: wait ");
            crate::text::push_decimal(&mut msg, wait);
            crate::text::extend_with_str(&mut msg, "ms (min interval ");
            crate::text::push_decimal(&mut msg, I2C_SENSOR_RATE_LIMIT_MS);
            crate::text::extend_with_str(&mut msg, "ms)");
            return Err(Error::Config { stage: "drive_i2c_sensor", message: crate::text::chars_to_string(&msg) });
        },
        Ok(()) => {},
    }
    limiter.on_success(key, now_ms);
    if str_eq(model, "raw") {
        Ok(to_string("{\"raw\":\"000000000000\",\"model\":\"raw\",\"stub\":true}"))
    } else {
        let mut s = to_string("{\"temperature\":22.0,\"humidity\":55.0,\"model\":\"");
        push_str(&mut s, model);
        push_str(&mut s, "\",\"stub\":true}");
        Ok(s)
    }
}

} // verus!
