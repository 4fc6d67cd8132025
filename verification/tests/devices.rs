use beetle::error::Error;
use beetle::platform::csrf::{constant_time_eq, generate_token, get_token, hex_encode, init, seeded_token_bytes, verify_token, CsrfTokens};
use beetle::platform::gpio::{
    dht_decode_tenths, dht_frame_checksum_ok, dht_pack_bits, drive_adc_in, drive_buzzer, drive_dht,
    drive_gpio_in, drive_gpio_out, drive_pwm_out,
};
use beetle::platform::hardware::{aht20_raw, crc8_sht3x, drive_i2c_read, drive_i2c_sensor_stub, drive_i2c_write, sht3x_raw, RateLimiter, SensorError};

fn config_message<T: std::fmt::Debug>(r: Result<T, Error>) -> (&'static str, String) {
    match r {
        Err(Error::Config { stage, message }) => (stage, message),
        other => panic!("expected a configuration error, got {:?}", other),
    }
}

#[test]
fn csrf_token_roundtrip() {
    let mut store = CsrfTokens::new();
    assert!(get_token(&store).is_none());
    assert!(!verify_token(&store, ""));
    let mut random = [0u8; 16];
    random[0] = 0x00;
    random[1] = 0x0f;
    random[2] = 0xa5;
    random[15] = 0xff;
    init(&mut store, &random);
    let token = get_token(&store).unwrap();
    assert_eq!(token, "000fa5000000000000000000000000ff");
    assert_eq!(token.len(), 32);
    assert!(token.chars().all(|c| c.is_ascii_digit() || ('a'..='f').contains(&c)));
    assert!(verify_token(&store, &token));
    assert!(!verify_token(&store, "000fa5"));
    assert_eq!(get_token(&store).unwrap(), token);
    assert_eq!(generate_token(&seeded_token_bytes(1)), "0102030405060708090a0b0c0d0e0f10");
    assert_eq!(hex_encode(&[0xde, 0xad]), "dead");
    assert_eq!(hex_encode(&[]), "");
}

#[test]
fn csrf_helpers() {
    assert!(constant_time_eq("abc", "abc"));
    assert!(!constant_time_eq("abc", "abd"));
    assert!(!constant_time_eq("abc", "ab"));
    let b = seeded_token_bytes(3);
    assert_eq!(b.len(), 16);
    assert_eq!(b[0], 3);
    assert_eq!(b[15], 48);
    let big = seeded_token_bytes(0x1_0000_0001);
    assert_eq!(big[1], 2);
}

#[test]
fn sht3x_crc_and_frames() {
    assert_eq!(crc8_sht3x(&[0xBE, 0xEF]), 0x92);
    assert_eq!(sht3x_raw(&[0xBE, 0xEF, 0x92, 0xBE, 0xEF, 0x92]), Ok((0xBEEF, 0xBEEF)));
    assert_eq!(sht3x_raw(&[0xBE, 0xEF, 0x93, 0xBE, 0xEF, 0x92]), Err(SensorError::HumidityCrc));
    assert_eq!(sht3x_raw(&[0xBE, 0xEF, 0x92, 0xBE, 0xEF, 0x00]), Err(SensorError::TemperatureCrc));
    assert_eq!(sht3x_raw(&[1, 2, 3]), Err(SensorError::TooShort { len: 3 }));
}

#[test]
fn aht20_frames() {
    assert_eq!(aht20_raw(&[0x80, 0, 0, 0, 0, 0]), Err(SensorError::Busy));
    assert_eq!(aht20_raw(&[0x1C, 0x12, 0x34, 0x56, 0x78, 0x9A]), Ok((0x12345, 0x6789A)));
    assert_eq!(aht20_raw(&[0x1C]), Err(SensorError::TooShort { len: 1 }));
}

#[test]
fn i2c_stubs_and_rate_limit() {
    assert_eq!(drive_i2c_read(0x44, 0x00, 3).unwrap(), vec![0u8, 0, 0]);
    assert!(drive_i2c_write(0x44, 0x00, &[1, 2]).is_ok());
    let mut lim = RateLimiter::new();
    assert_eq!(
        drive_i2c_sensor_stub(&mut lim, 0x44, "sht30", 5000).unwrap(),
        "{\"temperature\":22.0,\"humidity\":55.0,\"model\":\"sht30\",\"stub\":true}"
    );
    let (stage, msg) = config_message(drive_i2c_sensor_stub(&mut lim, 0x44, "sht30", 5400));
    assert_eq!(stage, "drive_i2c_sensor");
    assert_eq!(msg, "too frequent: wait 600ms (min interval 1000ms)");
    assert_eq!(
        drive_i2c_sensor_stub(&mut lim, 0x45, "raw", 5400).unwrap(),
        "{\"raw\":\"000000000000\",\"model\":\"raw\",\"stub\":true}"
    );
    assert!(drive_i2c_sensor_stub(&mut lim, 0x44, "sht30", 6000).is_ok());
}

#[test]
fn rate_limiter_checks() {
    let mut lim = RateLimiter::new();
    assert!(lim.check(4, 100, 1000).is_ok());
    lim.on_success(4, 100);
    assert_eq!(lim.check(4, 600, 1000), Err(500));
    assert!(lim.check(5, 600, 1000).is_ok());
    assert!(lim.check(4, 1100, 1000).is_ok());
}

#[test]
fn gpio_out_checks() {
    assert_eq!(config_message(drive_gpio_out(None, Some(1))), ("gpio_out", "missing pin".to_string()));
    assert_eq!(config_message(drive_gpio_out(Some(2), None)), ("gpio_out", "missing or invalid 'value' (0 or 1)".to_string()));
    assert_eq!(config_message(drive_gpio_out(Some(2), Some(2))), ("gpio_out", "value must be 0 or 1".to_string()));
    assert_eq!(drive_gpio_out(Some(2), Some(1)).unwrap(), "{\"ok\":true,\"actual_value\":1,\"stub\":true}");
    assert_eq!(drive_gpio_in(Some(2)).unwrap(), "{\"value\":0,\"stub\":true}");
    assert_eq!(config_message(drive_gpio_in(None)), ("gpio_in", "missing pin".to_string()));
}

#[test]
fn pwm_checks() {
    assert_eq!(drive_pwm_out(Some(5), Some(50), None, 0, 0).unwrap(), "{\"ok\":true,\"duty\":50,\"duty_raw\":4095,\"stub\":true}");
    assert_eq!(drive_pwm_out(Some(5), Some(100), Some(1000), 1, 1).unwrap(), "{\"ok\":true,\"duty\":100,\"duty_raw\":8191,\"stub\":true}");
    assert_eq!(config_message(drive_pwm_out(Some(5), Some(101), None, 0, 0)), ("pwm_out", "duty must be 0–100".to_string()));
    assert_eq!(config_message(drive_pwm_out(Some(5), None, None, 0, 0)), ("pwm_out", "missing or invalid 'duty' (0–100)".to_string()));
    assert_eq!(config_message(drive_pwm_out(None, Some(1), None, 0, 0)), ("pwm_out", "missing pin".to_string()));
}

#[test]
fn adc_checks() {
    assert_eq!(drive_adc_in(Some(3)).unwrap(), "{\"raw\":2048,\"stub\":true}");
    assert_eq!(config_message(drive_adc_in(Some(11))), ("adc_in", "pin 11 not in ADC1 range (GPIO 1–10)".to_string()));
    assert_eq!(config_message(drive_adc_in(Some(-4))), ("adc_in", "pin -4 not in ADC1 range (GPIO 1–10)".to_string()));
    assert_eq!(config_message(drive_adc_in(None)), ("adc_in", "missing pin".to_string()));
}

#[test]
fn buzzer_lengths() {
    assert_eq!(drive_buzzer(Some(7), Some(true), Some(2000)).unwrap(), "{\"ok\":true,\"duration_ms\":100,\"stub\":true}");
    assert_eq!(drive_buzzer(Some(7), None, Some(2000)).unwrap(), "{\"ok\":true,\"duration_ms\":2000,\"stub\":true}");
    assert_eq!(drive_buzzer(Some(7), None, None).unwrap(), "{\"ok\":true,\"duration_ms\":100,\"stub\":true}");
    assert_eq!(
        drive_buzzer(Some(7), Some(false), Some(9000)).unwrap(),
        "{\"ok\":true,\"duration_ms\":3000,\"warning\":\"clamped to max 3000ms\",\"stub\":true}"
    );
    assert_eq!(config_message(drive_buzzer(None, None, None)), ("buzzer", "missing pin".to_string()));
}

#[test]
fn dht_stub_and_rate_limit() {
    let mut lim = RateLimiter::new();
    assert_eq!(
        drive_dht(&mut lim, Some(4), None, 10_000).unwrap(),
        "{\"temperature\":22.0,\"humidity\":55.0,\"model\":\"dht11\",\"stub\":true}"
    );
    let (_, msg) = config_message(drive_dht(&mut lim, Some(4), None, 10_400));
    assert_eq!(msg, "too frequent: wait 600ms before next read (min interval 1000ms)");
    assert!(drive_dht(&mut lim, Some(5), Some("dht22"), 10_400).is_ok());
    let (_, msg22) = config_message(drive_dht(&mut lim, Some(5), Some("dht22"), 11_400));
    assert_eq!(msg22, "too frequent: wait 1000ms before next read (min interval 2000ms)");
    let (stage, bad) = config_message(drive_dht(&mut lim, Some(6), Some("bme280"), 0));
    assert_eq!(stage, "drive_dht");
    assert_eq!(bad, "options.model must be dht11|dht22|dht21, got 'bme280'");
    assert_eq!(config_message(drive_dht(&mut lim, None, None, 0)).1, "missing pin");
}

#[test]
fn dht_frames() {
    let frame = [0x02u8, 0x8C, 0x80, 0x65, 0x73];
    assert!(dht_frame_checksum_ok(&frame));
    assert!(!dht_frame_checksum_ok(&[1, 2, 3, 4, 11]));
    assert!(dht_frame_checksum_ok(&[0xFF, 0xFF, 0x01, 0x00, 0xFF]));
    // DHT22: 65.2 %RH and -10.1 degrees.
    assert_eq!(dht_decode_tenths(&frame, false), (-101, 652));
    // DHT11: whole units in bytes 0 and 2.
    assert_eq!(dht_decode_tenths(&[45, 0, 23, 0, 68], true), (230, 450));
    let mut bits = [false; 40];
    bits[6] = true; // byte 0 = 0b0000_0010
    bits[8] = true; // byte 1 = 0b1000_0000
    bits[39] = true; // byte 4 = 1
    assert_eq!(dht_pack_bits(&bits), [2, 128, 0, 0, 1]);
}
