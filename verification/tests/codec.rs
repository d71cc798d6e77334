use lsm6dso::regs::{merge_bits, AccelerometerScale, GyroscopeFullScale, RegisterOption};
use lsm6dso::{AccelerometerOutput, Bandwidth, Ctrl6C, Ctrl7G, GyroscopeOutput, Register};

fn merged(reg: u8, value: u8, mask: u8, offset: u8) -> u8 {
    merge_bits(reg, value, mask, offset)
}

#[test]
fn accel_scale_roundtrip_through_any_register() {
    let variants = [
        AccelerometerScale::G02,
        AccelerometerScale::G16,
        AccelerometerScale::G04,
        AccelerometerScale::G08,
    ];
    for &junk in &[0x00u8, 0xFF, 0xA5, 0x5A] {
        for &v in &variants {
            let byte = merged(
                junk,
                v.value(),
                AccelerometerScale::mask(),
                AccelerometerScale::bit_offset(),
            );
            let back = AccelerometerScale::try_from(byte).unwrap();
            assert_eq!(back, v);
            // bits outside the field are untouched
            let field = (AccelerometerScale::mask()) << AccelerometerScale::bit_offset();
            assert_eq!(byte & !field, junk & !field);
        }
    }
}

#[test]
fn gyro_scale_roundtrip_through_any_register() {
    let variants = [
        GyroscopeFullScale::Dps125,
        GyroscopeFullScale::Dps250,
        GyroscopeFullScale::Dps500,
        GyroscopeFullScale::Dps1000,
        GyroscopeFullScale::Dps2000,
    ];
    for &junk in &[0x00u8, 0xFF, 0xA5, 0x5A] {
        for &v in &variants {
            let byte = merged(
                junk,
                v.value(),
                GyroscopeFullScale::mask(),
                GyroscopeFullScale::bit_offset(),
            );
            let back = GyroscopeFullScale::try_from(byte).unwrap();
            assert_eq!(back, v);
            let field = (GyroscopeFullScale::mask()) << GyroscopeFullScale::bit_offset();
            assert_eq!(byte & !field, junk & !field);
        }
    }
}

#[test]
fn gyro_scale_rejects_reserved_patterns() {
    // the three-bit field defines codes {0, 1, 2, 4, 6}; 3, 5 and 7 are
    // reserved and must fail to decode, whatever the unrelated bits
    for &bad in &[0b011u8, 0b101, 0b111] {
        for &junk in &[0x00u8, 0xFF, 0xA4] {
            let byte = merged(
                junk,
                bad,
                GyroscopeFullScale::mask(),
                GyroscopeFullScale::bit_offset(),
            );
            assert!(GyroscopeFullScale::try_from(byte).is_err());
        }
    }
}

#[test]
fn accel_scale_codes_match_datasheet() {
    assert_eq!(AccelerometerScale::G02.value(), 0b00);
    assert_eq!(AccelerometerScale::G16.value(), 0b01);
    assert_eq!(AccelerometerScale::G04.value(), 0b10);
    assert_eq!(AccelerometerScale::G08.value(), 0b11);
    assert_eq!(AccelerometerScale::mask(), 0x03);
    assert_eq!(AccelerometerScale::bit_offset(), 2);
}

#[test]
fn gyro_scale_codes_match_datasheet() {
    assert_eq!(GyroscopeFullScale::Dps125.value(), 0b001);
    assert_eq!(GyroscopeFullScale::Dps250.value(), 0b000);
    assert_eq!(GyroscopeFullScale::Dps500.value(), 0b010);
    assert_eq!(GyroscopeFullScale::Dps1000.value(), 0b100);
    assert_eq!(GyroscopeFullScale::Dps2000.value(), 0b110);
    assert_eq!(GyroscopeFullScale::mask(), 0b111);
    assert_eq!(GyroscopeFullScale::bit_offset(), 1);
}

#[test]
fn output_rate_fields_match_datasheet() {
    assert_eq!(AccelerometerOutput::PowerDown.value(), 0b0000);
    assert_eq!(AccelerometerOutput::Rate1_6.value(), 0b1011);
    assert_eq!(AccelerometerOutput::Rate12_5.value(), 0b0001);
    assert_eq!(AccelerometerOutput::Rate6_66k.value(), 0b1010);
    assert_eq!(AccelerometerOutput::mask(), 0x0F);
    assert_eq!(AccelerometerOutput::bit_offset(), 4);
    assert_eq!(GyroscopeOutput::PowerDown.value(), 0b0000);
    assert_eq!(GyroscopeOutput::Rate6_66k.value(), 0b1010);
    assert_eq!(GyroscopeOutput::mask(), 0x0F);
    assert_eq!(GyroscopeOutput::bit_offset(), 4);
    assert_eq!(Bandwidth::OdrDiv4.value(), 0b000);
    assert_eq!(Bandwidth::OdrDiv800.value(), 0b111);
    assert_eq!(Bandwidth::mask(), 0b111);
    assert_eq!(Bandwidth::bit_offset(), 5);
}

#[test]
fn register_addresses_match_datasheet() {
    assert_eq!(Register::WhoAmI.addr(), 0x0F);
    assert_eq!(Register::Ctrl1XL.addr(), 0x10);
    assert_eq!(Register::Ctrl2G.addr(), 0x11);
    assert_eq!(Register::Ctrl6C.addr(), 0x15);
    assert_eq!(Register::Ctrl7G.addr(), 0x16);
    assert_eq!(Register::Ctrl8Xl.addr(), 0x17);
    assert_eq!(Register::StatusReg.addr(), 0x1E);
    assert_eq!(Register::OutTempL.addr(), 0x20);
    assert_eq!(Register::OutXLG.addr(), 0x22);
    assert_eq!(Register::OutXLA.addr(), 0x28);
    assert_eq!(Register::FifoDataOutZH.addr(), 0x7E);
}

#[test]
fn performance_mode_bits_match_datasheet() {
    assert_eq!(Ctrl6C::AccelHighPerformanceMode.bit(), 4);
    assert_eq!(Ctrl7G::GyroHighPerformanceMode.bit(), 7);
}

#[test]
fn merge_touches_only_the_field() {
    // datasheet example: set gyro full-scale bits in a register whose
    // other bits are all ones
    let byte = merged(0xFF, 0b010, 0b111, 1);
    assert_eq!(byte, 0b1111_0101);
    // and in a register whose other bits are all zeros
    let byte = merged(0x00, 0b010, 0b111, 1);
    assert_eq!(byte, 0b0000_0100);
}
