use lsm6dso::convert::{convert_accel_data, convert_gyro_data, convert_temp_data, decode_i16_le};
use lsm6dso::{AccelerometerScale, GyroscopeFullScale};

const EARTH_GRAVITY: f64 = 9.80665;

fn microgee_to_mps2(ug: i64) -> f64 {
    ug as f64 * EARTH_GRAVITY / 1_000_000.0
}

fn microdps_to_rads(udps: i64) -> f64 {
    (udps as f64 / 1_000_000.0).to_radians()
}

#[test]
fn i16_decode_is_two_complement_little_endian() {
    assert_eq!(decode_i16_le(0x00, 0x00), 0);
    assert_eq!(decode_i16_le(0x01, 0x00), 1);
    assert_eq!(decode_i16_le(0x00, 0x01), 256);
    assert_eq!(decode_i16_le(0xFF, 0xFF), -1);
    assert_eq!(decode_i16_le(0x00, 0xFF), -256);
    assert_eq!(decode_i16_le(0xFF, 0x7F), 32767);
    assert_eq!(decode_i16_le(0x00, 0x80), -32768);
    assert_eq!(decode_i16_le(0xE8, 0x03), 1000);
}

#[test]
fn temperature_zero_raw_is_25_degrees() {
    let t = convert_temp_data(&vec![0x00, 0x00], 0);
    assert_eq!(t, 6400);
    assert_eq!(t as f64 / 256.0, 25.0);
}

#[test]
fn temperature_minus_256_raw_is_24_degrees() {
    // raw -256 in little-endian two's complement is 0x00, 0xFF
    let t = convert_temp_data(&vec![0x00, 0xFF], 0);
    assert_eq!(t, 6144);
    assert_eq!(t as f64 / 256.0, 24.0);
}

#[test]
fn temperature_respects_offset() {
    let t = convert_temp_data(&vec![0xAA, 0x80, 0x00], 1);
    assert_eq!(t, 128 + 6400);
}

#[test]
fn accel_1000_raw_at_2g_is_about_0_5982_mps2() {
    // raw X = 1000 at the 2g range: 1000 * 0.061 / 1000 * 9.80665
    let data = vec![0xE8, 0x03, 0x00, 0x00, 0x00, 0x00];
    let (x, y, z) = convert_accel_data(&data, 0, AccelerometerScale::G02);
    assert_eq!(x, 61_000); // micro-g, exact
    assert_eq!(y, 0);
    assert_eq!(z, 0);
    let mps2 = microgee_to_mps2(x);
    assert!((mps2 - 0.5982).abs() < 1e-3);
}

#[test]
fn accel_scale_constants_match_datasheet() {
    assert_eq!(AccelerometerScale::G02.scale(), 61);
    assert_eq!(AccelerometerScale::G04.scale(), 122);
    assert_eq!(AccelerometerScale::G08.scale(), 244);
    assert_eq!(AccelerometerScale::G16.scale(), 488);
}

#[test]
fn gyro_1000_raw_at_250dps_is_about_0_15272_rads() {
    // raw X = 1000 at the 250 degrees-per-second range:
    // 1000 * 8.75 / 1000 = 8.75 degrees per second
    let data = vec![0xE8, 0x03, 0x00, 0x00, 0x00, 0x00];
    let (x, y, z) = convert_gyro_data(&data, 0, GyroscopeFullScale::Dps250);
    assert_eq!(x, 8_750_000); // micro-degrees per second, exact
    assert_eq!(y, 0);
    assert_eq!(z, 0);
    let rads = microdps_to_rads(x);
    assert!((rads - 0.15272).abs() < 1e-4);
}

#[test]
fn gyro_scale_constants_match_datasheet() {
    assert_eq!(GyroscopeFullScale::Dps125.scale(), 4_375);
    assert_eq!(GyroscopeFullScale::Dps250.scale(), 8_750);
    assert_eq!(GyroscopeFullScale::Dps500.scale(), 17_500);
    assert_eq!(GyroscopeFullScale::Dps1000.scale(), 35_000);
    assert_eq!(GyroscopeFullScale::Dps2000.scale(), 70_000);
}

#[test]
fn three_axes_convert_independently() {
    // X = 1, Y = -1, Z = 256 at the 16g range
    let data = vec![0x01, 0x00, 0xFF, 0xFF, 0x00, 0x01];
    let (x, y, z) = convert_accel_data(&data, 0, AccelerometerScale::G16);
    assert_eq!(x, 488);
    assert_eq!(y, -488);
    assert_eq!(z, 256 * 488);
}

#[test]
fn extreme_raw_values_convert_exactly() {
    let data = vec![0xFF, 0x7F, 0x00, 0x80, 0x00, 0x00];
    let (x, y, _) = convert_gyro_data(&data, 0, GyroscopeFullScale::Dps2000);
    assert_eq!(x, 32767i64 * 70_000);
    assert_eq!(y, -32768i64 * 70_000);
}
