use weather_station::AppConfig;
use weather_station::decode;
use weather_station::temp_f_tenths;

fn fixture() -> AppConfig {
    AppConfig {
        gpio_radio_pin_bcm: 4,
        bit1_length_micros: 3900,
        bit0_length_micros: 1800,
        first_sync_length_micros: 7900,
        last_sync_length_micros: 15900,
        signal_variance_micros: 500,
        expected_bit_length: 40,
        influx_host: String::from("localhost"),
        influx_port: 8086,
        influx_database: String::from("weather"),
    }
}

/// The 40 bits of a frame with the given field values, first bit first.
fn frame_bits(temp_field: u16, left_hum: u8, right_hum: u8, channel: u8) -> Vec<bool> {
    let mut bits = Vec::new();
    // 16 header bits, alternating.
    for i in 0..16 {
        bits.push(i % 2 == 1);
    }
    for i in (0..12).rev() {
        bits.push(temp_field & (1 << i) != 0);
    }
    for i in (0..4).rev() {
        bits.push(left_hum & (1 << i) != 0);
    }
    for i in (0..4).rev() {
        bits.push(right_hum & (1 << i) != 0);
    }
    for i in (0..4).rev() {
        bits.push(channel & (1 << i) != 0);
    }
    bits
}

fn durations_of(bits: &[bool]) -> Vec<i64> {
    bits.iter().map(|&b| if b { 3900 } else { 1800 }).collect()
}

#[test]
fn alternating_frame_decodes() {
    let cfg = fixture();
    // Temperature field 0b000101100101 = 357, humidity digits 4 and 5,
    // channel 3.
    let bits = frame_bits(0b0001_0110_0101, 4, 5, 3);
    let durations = durations_of(&bits);
    let reading = decode(&cfg, &durations, 123).expect("a 40-bit frame must decode");
    assert_eq!(reading.temp_f_tenths, 357);
    assert_eq!(reading.humidity, 45);
    assert_eq!(reading.channel, 3);
    assert_eq!(reading.time, 123);
    // The sink's floating-point renderings are derived from the tenths.
    let temp_f = reading.temp_f_tenths as f64 / 10.0;
    assert!((temp_f - 35.7).abs() < 1e-9);
    let temp_c = (temp_f - 32.0) * 5.0 / 9.0;
    assert!((temp_c - 2.0555555555555554).abs() < 1e-9);
}

#[test]
fn noise_entries_are_dropped_during_decode() {
    let cfg = fixture();
    let bits = frame_bits(357, 4, 5, 3);
    let mut durations = durations_of(&bits);
    // Unclassifiable durations recorded during assembly do not change the
    // bit sequence.
    durations.insert(0, 100);
    durations.insert(17, 999_999);
    durations.push(42);
    let reading = decode(&cfg, &durations, 0).expect("noise must not spoil a frame");
    assert_eq!(reading.temp_f_tenths, 357);
    assert_eq!(reading.humidity, 45);
    assert_eq!(reading.channel, 3);
}

#[test]
fn frame_with_39_bits_gives_no_reading() {
    let cfg = fixture();
    let bits = frame_bits(357, 4, 5, 3);
    let durations = durations_of(&bits[..39]);
    assert!(decode(&cfg, &durations, 0).is_none());
}

#[test]
fn frame_with_41_bits_gives_no_reading() {
    let cfg = fixture();
    let mut bits = frame_bits(357, 4, 5, 3);
    bits.push(true);
    let durations = durations_of(&bits);
    assert!(decode(&cfg, &durations, 0).is_none());
}

#[test]
fn two_digit_temperature_field() {
    // 35 renders as "35": 3.5 degrees, i.e. 35 tenths.
    assert_eq!(temp_f_tenths(35), 35);
    assert_eq!(temp_f_tenths(10), 10);
    assert_eq!(temp_f_tenths(99), 99);
}

#[test]
fn three_digit_temperature_field() {
    // 357 renders as "357": 35.7 degrees.
    assert_eq!(temp_f_tenths(357), 357);
    assert_eq!(temp_f_tenths(100), 100);
    assert_eq!(temp_f_tenths(999), 999);
}

#[test]
fn four_digit_temperature_field() {
    // 1234 renders as "1234": (1 + 2) tens, 3 ones, 4 tenths = 33.4 degrees.
    assert_eq!(temp_f_tenths(1234), 334);
    assert_eq!(temp_f_tenths(4095), 495);
    assert_eq!(temp_f_tenths(1000), 100);
}

#[test]
fn five_digit_temperature_field_falls_back_to_zero() {
    // A 12-bit field never renders as five digits; the decoding rule still
    // fixes the fallback, and this asserts it exactly.
    assert_eq!(temp_f_tenths(10000), 0);
    assert_eq!(temp_f_tenths(12345), 0);
    assert_eq!(temp_f_tenths(65535), 0);
}

#[test]
fn one_digit_temperature_field_falls_back_to_zero() {
    assert_eq!(temp_f_tenths(0), 0);
    assert_eq!(temp_f_tenths(9), 0);
}

#[test]
fn one_digit_field_frame_still_produces_a_reading() {
    // The fallback yields 0.0 degrees inside a reading, not a decode failure.
    let cfg = fixture();
    let bits = frame_bits(5, 4, 5, 3);
    let durations = durations_of(&bits);
    let reading = decode(&cfg, &durations, 0).expect("the frame itself is well-formed");
    assert_eq!(reading.temp_f_tenths, 0);
    assert_eq!(reading.humidity, 45);
    assert_eq!(reading.channel, 3);
}
