use vstd::prelude::*;

use crate::regs::{AccelerometerScale, GyroscopeFullScale};

verus! {

/// The signed 16-bit integer spelled by a little-endian byte pair, as
/// an exact mathematical integer (two's complement).
pub open spec fn spec_i16_le(lo: u8, hi: u8) -> int {
    if hi >= 0x80 {
        (hi as int) * 256 + (lo as int) - 65536
    } else {
        (hi as int) * 256 + (lo as int)
    }
}

/// One temperature sample in 1/256 degrees Celsius: raw counts over the
/// fixed 256 LSB per degree sensitivity, plus the datasheet's 25 degree
/// offset. Dividing the result by 256 yields degrees Celsius exactly.
pub open spec fn spec_temp_c_x256(lo: u8, hi: u8) -> int {
    spec_i16_le(lo, hi) + 25 * 256
}

/// One acceleration axis in micro-g: raw counts times the configured
/// range's sensitivity in micro-g per count. Multiplying the result by
/// standard gravity over one million yields metres per second squared.
pub open spec fn spec_accel_axis_ug(lo: u8, hi: u8, scale: AccelerometerScale) -> int {
    spec_i16_le(lo, hi) * scale.spec_scale_ug()
}

/// One angular-rate axis in micro-degrees per second: raw counts times
/// the configured range's sensitivity in micro-degrees per second per
/// count. Dividing the result by one million and converting degrees to
/// radians yields radians per second.
pub open spec fn spec_gyro_axis_udps(lo: u8, hi: u8, scale: GyroscopeFullScale) -> int {
    spec_i16_le(lo, hi) * scale.spec_scale_udps()
}

/// Executable little-endian two's-complement decode of one raw sample.
pub fn decode_i16_le(lo: u8, hi: u8) -> (r: i16)
    ensures
        r as int == spec_i16_le(lo, hi),
{
    let wide: i32 = (hi as i32) * 256 + (lo as i32);
    let signed: i32 = if wide >= 32768 {
        wide - 65536
    } else {
        wide
    };
    signed as i16
}

/// One raw axis scaled by a sensitivity constant, exactly.
fn scale_axis(raw: i16, sens: u32) -> (r: i64)
    requires
        sens <= 70000,
    ensures
        r as int == (raw as int) * (sens as int),
{
    proof {
        assert((raw as int) * (sens as int) <= 32767 * 70000 && (raw as int) * (sens as int)
            >= -32768 * 70000) by (nonlinear_arith)
            requires
                -32768 <= raw as int <= 32767,
                0 <= sens as int <= 70000,
        ;
    }
    (raw as i64) * (sens as i64)
}

/// Convert a 2-byte raw temperature sample, starting at `offset`, to
/// 1/256 degrees Celsius.
pub fn convert_temp_data(data: &Vec<u8>, offset: usize) -> (r: i32)
    requires
        offset + 2 <= data@.len() <= usize::MAX,
    ensures
        r as int == spec_temp_c_x256(data@[offset as int], data@[offset as int + 1]),
{
    let raw = decode_i16_le(data[offset], data[offset + 1]);
    (raw as i32) + 6400
}

/// Convert a 6-byte raw acceleration sample (X, Y, Z), starting at
/// `offset`, to micro-g per axis at the given full-scale range.
pub fn convert_accel_data(data: &Vec<u8>, offset: usize, scale: AccelerometerScale) -> (r: (
    i64,
    i64,
    i64,
))
    requires
        offset + 6 <= data@.len() <= usize::MAX,
    ensures
        r.0 as int == spec_accel_axis_ug(data@[offset as int], data@[offset as int + 1], scale),
        r.1 as int == spec_accel_axis_ug(
            data@[offset as int + 2],
            data@[offset as int + 3],
            scale,
        ),
        r.2 as int == spec_accel_axis_ug(
            data@[offset as int + 4],
            data@[offset as int + 5],
            scale,
        ),
{
    let sens = scale.scale();
    let x = scale_axis(decode_i16_le(data[offset], data[offset + 1]), sens);
    let y = scale_axis(decode_i16_le(data[offset + 2], data[offset + 3]), sens);
    let z = scale_axis(decode_i16_le(data[offset + 4], data[offset + 5]), sens);
    (x, y, z)
}

/// Convert a 6-byte raw angular-rate sample (X, Y, Z), starting at
/// `offset`, to micro-degrees per second per axis at the given
/// full-scale range.
pub fn convert_gyro_data(data: &Vec<u8>, offset: usize, scale: GyroscopeFullScale) -> (r: (
    i64,
    i64,
    i64,
))
    requires
        offset + 6 <= data@.len() <= usize::MAX,
    ensures
        r.0 as int == spec_gyro_axis_udps(data@[offset as int], data@[offset as int + 1], scale),
        r.1 as int == spec_gyro_axis_udps(
            data@[offset as int + 2],
            data@[offset as int + 3],
            scale,
        ),
        r.2 as int == spec_gyro_axis_udps(
            data@[offset as int + 4],
            data@[offset as int + 5],
            scale,
        ),
{
    let sens = scale.scale();
    let x = scale_axis(decode_i16_le(data[offset], data[offset + 1]), sens);
    let y = scale_axis(decode_i16_le(data[offset + 2], data[offset + 3]), sens);
    let z = scale_axis(decode_i16_le(data[offset + 4], data[offset + 5]), sens);
    (x, y, z)
}

} // verus!
