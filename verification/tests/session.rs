use std::cell::RefCell;
use std::rc::Rc;

use lsm6dso::{
    AccelerometerScale, Bandwidth, Error, GyroscopeFullScale, Lsm6dso, Transport,
};

const ADDR: u8 = 0x6B;

#[derive(Default)]
struct Shared {
    reads: Vec<(u8, usize)>,
    writes: Vec<(u8, u8)>,
    fail_reads: bool,
    fail_writes: bool,
}

struct MockBus {
    regs: [u8; 128],
    shared: Rc<RefCell<Shared>>,
}

impl MockBus {
    fn new(shared: Rc<RefCell<Shared>>) -> Self {
        MockBus { regs: [0u8; 128], shared }
    }
}

impl Transport for MockBus {
    type BusError = u8;

    fn write_read(&mut self, _addr: u8, reg: u8, len: usize) -> Result<Vec<u8>, u8> {
        if self.shared.borrow().fail_reads {
            return Err(7);
        }
        self.shared.borrow_mut().reads.push((reg, len));
        let mut out = Vec::with_capacity(len);
        for i in 0..len {
            out.push(self.regs[reg as usize + i]);
        }
        Ok(out)
    }

    fn write(&mut self, _addr: u8, reg: u8, value: u8) -> Result<(), u8> {
        if self.shared.borrow().fail_writes {
            return Err(9);
        }
        self.shared.borrow_mut().writes.push((reg, value));
        self.regs[reg as usize] = value;
        Ok(())
    }
}

fn session_with(regs: &[(u8, u8)]) -> (Lsm6dso<MockBus>, Rc<RefCell<Shared>>) {
    let shared = Rc::new(RefCell::new(Shared::default()));
    let mut bus = MockBus::new(shared.clone());
    for &(reg, value) in regs {
        bus.regs[reg as usize] = value;
    }
    (Lsm6dso::new(bus, ADDR), shared)
}

#[test]
fn check_succeeds_on_expected_identity() {
    let (mut imu, shared) = session_with(&[(0x0F, 0x6C)]);
    assert!(imu.check().is_ok());
    assert_eq!(shared.borrow().reads.as_slice(), &[(0x0F, 1)]);
    assert!(shared.borrow().writes.is_empty());
}

#[test]
fn check_fails_with_chip_detect_on_any_other_byte() {
    for bad in [0x00u8, 0x12, 0x6B, 0x6D, 0xFF] {
        let (mut imu, _shared) = session_with(&[(0x0F, bad)]);
        let r = imu.check();
        assert!(matches!(r, Err(Error::ChipDetectFailed)));
    }
}

#[test]
fn check_wraps_bus_errors_unchanged() {
    let (mut imu, shared) = session_with(&[(0x0F, 0x6C)]);
    shared.borrow_mut().fail_reads = true;
    let r = imu.check();
    assert!(matches!(r, Err(Error::CommunicationError(7))));
}

#[test]
fn accel_scale_is_read_once_then_cached() {
    let (mut imu, shared) = session_with(&[(0x10, 0b0000_1000)]); // G04
    let s1 = imu.read_accelerometer_scale().unwrap();
    assert_eq!(s1, AccelerometerScale::G04);
    assert_eq!(shared.borrow().reads.as_slice(), &[(0x10, 1)]);
    let s2 = imu.read_accelerometer_scale().unwrap();
    assert_eq!(s2, AccelerometerScale::G04);
    // second call hits the cache: still exactly one bus read
    assert_eq!(shared.borrow().reads.len(), 1);
}

#[test]
fn failed_scale_write_invalidates_the_cache() {
    let (mut imu, shared) = session_with(&[(0x10, 0b0000_1000)]);
    imu.read_accelerometer_scale().unwrap();
    assert_eq!(shared.borrow().reads.len(), 1);
    shared.borrow_mut().fail_writes = true;
    assert!(imu.set_accelerometer_scale(AccelerometerScale::G08).is_err());
    shared.borrow_mut().fail_writes = false;
    let before = shared.borrow().reads.len();
    let s = imu.read_accelerometer_scale().unwrap();
    // the cache was cleared, so this read costs one bus transaction
    assert_eq!(shared.borrow().reads.len(), before + 1);
    // the register was never changed by the failed write
    assert_eq!(s, AccelerometerScale::G04);
}

#[test]
fn failed_gyro_scale_write_leaves_accel_cache_alone() {
    let (mut imu, shared) = session_with(&[(0x10, 0b0000_1000)]);
    imu.read_accelerometer_scale().unwrap();
    shared.borrow_mut().fail_writes = true;
    assert!(imu.set_gyroscope_scale(GyroscopeFullScale::Dps500).is_err());
    shared.borrow_mut().fail_writes = false;
    let before = shared.borrow().reads.len();
    imu.read_accelerometer_scale().unwrap();
    // the accelerometer cache describes a different field: still warm
    assert_eq!(shared.borrow().reads.len(), before);
}

#[test]
fn successful_scale_set_caches_without_rereading() {
    let (mut imu, shared) = session_with(&[]);
    imu.set_accelerometer_scale(AccelerometerScale::G08).unwrap();
    // the set cost one read (modify) and one write
    assert_eq!(shared.borrow().reads.as_slice(), &[(0x10, 1)]);
    assert_eq!(shared.borrow().writes.as_slice(), &[(0x10, 0b0000_1100)]);
    let s = imu.read_accelerometer_scale().unwrap();
    assert_eq!(s, AccelerometerScale::G08);
    // no further read: the set populated the cache
    assert_eq!(shared.borrow().reads.len(), 1);
}

#[test]
fn undecodable_scale_register_is_a_decode_failure() {
    // gyro full-scale bits 0b011 name no defined range
    let (mut imu, _shared) = session_with(&[(0x11, 0b0000_0110)]);
    let r = imu.read_gyroscope_scale();
    assert!(matches!(r, Err(Error::RegisterReadFailed)));
}

#[test]
fn read_all_is_one_14_byte_read() {
    let (mut imu, shared) = session_with(&[
        (0x22, 0xE8),
        (0x23, 0x03), // gyro X raw = 1000
        (0x28, 0xE8),
        (0x29, 0x03), // accel X raw = 1000
    ]);
    // warm both caches first
    imu.set_gyroscope_scale(GyroscopeFullScale::Dps250).unwrap();
    imu.set_accelerometer_scale(AccelerometerScale::G02).unwrap();
    shared.borrow_mut().reads.clear();
    shared.borrow_mut().writes.clear();
    let d = imu.read_all().unwrap();
    // exactly one burst read, spanning temperature + gyro + accel
    assert_eq!(shared.borrow().reads.as_slice(), &[(0x20, 14)]);
    assert!(shared.borrow().writes.is_empty());
    assert_eq!(d.temp, 6400); // 25.0 degrees Celsius
    assert_eq!(d.gyro_x, 8_750_000); // 8.75 degrees per second
    assert_eq!(d.gyro_y, 0);
    assert_eq!(d.gyro_z, 0);
    assert_eq!(d.accel_x, 61_000); // 1000 raw counts at 2g
    assert_eq!(d.accel_y, 0);
    assert_eq!(d.accel_z, 0);
}

#[test]
fn read_all_resolves_missing_scales_first() {
    let (mut imu, shared) = session_with(&[]);
    imu.read_all().unwrap();
    // cold caches: gyro scale, accel scale, then the burst read
    assert_eq!(
        shared.borrow().reads.as_slice(),
        &[(0x11, 1), (0x10, 1), (0x20, 14)]
    );
}

#[test]
fn read_temperature_is_one_2_byte_read() {
    let (mut imu, shared) = session_with(&[(0x20, 0x00), (0x21, 0xFF)]);
    let t = imu.read_temperature().unwrap();
    assert_eq!(t, 6144); // raw -256 is 24.0 degrees Celsius
    assert_eq!(shared.borrow().reads.as_slice(), &[(0x20, 2)]);
}

#[test]
fn read_accelerometer_uses_cached_scale_and_one_burst_read() {
    let (mut imu, shared) = session_with(&[
        (0x10, 0b0000_0100), // G16
        (0x28, 0x01),
        (0x2A, 0xFF),
        (0x2B, 0xFF),
    ]);
    let (x, y, z) = imu.read_accelerometer().unwrap();
    assert_eq!(shared.borrow().reads.as_slice(), &[(0x10, 1), (0x28, 6)]);
    assert_eq!(x, 488);
    assert_eq!(y, -488);
    assert_eq!(z, 0);
    // the scale is now cached: another read costs one transaction
    shared.borrow_mut().reads.clear();
    imu.read_accelerometer().unwrap();
    assert_eq!(shared.borrow().reads.as_slice(), &[(0x28, 6)]);
}

#[test]
fn read_gyro_uses_cached_scale_and_one_burst_read() {
    let (mut imu, shared) = session_with(&[
        (0x11, 0b0000_1000), // 1000 degrees per second
        (0x22, 0x01),
    ]);
    let (x, y, z) = imu.read_gyro().unwrap();
    assert_eq!(shared.borrow().reads.as_slice(), &[(0x11, 1), (0x22, 6)]);
    assert_eq!(x, 35_000);
    assert_eq!(y, 0);
    assert_eq!(z, 0);
}

#[test]
fn data_ready_bits_are_tested_independently() {
    let (mut imu, _s) = session_with(&[(0x1E, 0b01)]);
    assert!(imu.accel_data_available().unwrap());
    assert!(!imu.gyro_data_available().unwrap());
    let (mut imu, _s) = session_with(&[(0x1E, 0b10)]);
    assert!(!imu.accel_data_available().unwrap());
    assert!(imu.gyro_data_available().unwrap());
    let (mut imu, _s) = session_with(&[(0x1E, 0b11)]);
    assert!(imu.accel_data_available().unwrap());
    assert!(imu.gyro_data_available().unwrap());
}

#[test]
fn low_power_mode_writes_one_bit_in_each_register() {
    let (mut imu, shared) = session_with(&[]);
    imu.set_low_power_mode(true).unwrap();
    assert_eq!(
        shared.borrow().writes.as_slice(),
        &[(0x15, 0x10), (0x16, 0x80)]
    );
    shared.borrow_mut().writes.clear();
    imu.set_low_power_mode(false).unwrap();
    // only the performance-mode bits fall back to zero
    assert_eq!(
        shared.borrow().writes.as_slice(),
        &[(0x15, 0x00), (0x16, 0x00)]
    );
}

#[test]
fn low_power_mode_preserves_unrelated_bits() {
    let (mut imu, shared) = session_with(&[(0x15, 0xEF), (0x16, 0x7F)]);
    imu.set_low_power_mode(true).unwrap();
    assert_eq!(
        shared.borrow().writes.as_slice(),
        &[(0x15, 0xFF), (0x16, 0xFF)]
    );
}

#[test]
fn low_pass_with_bandwidth_enables_filter_and_sets_field() {
    let (mut imu, shared) = session_with(&[]);
    imu.set_accelerometer_low_pass(Some(Bandwidth::OdrDiv100)).unwrap();
    assert_eq!(
        shared.borrow().writes.as_slice(),
        &[(0x10, 0x01), (0x17, 0b1000_0000)]
    );
}

#[test]
fn low_pass_without_bandwidth_clears_enable_bit_only() {
    let (mut imu, shared) = session_with(&[(0x10, 0x01), (0x17, 0b1000_0000)]);
    imu.set_accelerometer_low_pass(None).unwrap();
    // one read-modify-write of the enable bit; the bandwidth register
    // keeps its selection untouched
    assert_eq!(shared.borrow().writes.as_slice(), &[(0x10, 0x00)]);
    let bus = imu.release();
    assert_eq!(bus.regs[0x17], 0b1000_0000);
}

#[test]
fn output_rate_writes_leave_scale_caches_warm() {
    let (mut imu, shared) = session_with(&[(0x10, 0b0000_1000)]);
    imu.read_accelerometer_scale().unwrap();
    imu.set_accelerometer_output(lsm6dso::AccelerometerOutput::Rate104).unwrap();
    imu.set_gyroscope_output(lsm6dso::GyroscopeOutput::Rate208).unwrap();
    // rate bits [7:4] of the register holding the G04 scale bits
    assert!(shared.borrow().writes.contains(&(0x10, 0b0100_1000)));
    assert!(shared.borrow().writes.contains(&(0x11, 0b0101_0000)));
    let before = shared.borrow().reads.len();
    let s = imu.read_accelerometer_scale().unwrap();
    assert_eq!(s, AccelerometerScale::G04);
    // an output-rate write never touches the scale cache
    assert_eq!(shared.borrow().reads.len(), before);
}

#[test]
fn failed_first_write_stops_low_power_sequence() {
    let (mut imu, shared) = session_with(&[]);
    shared.borrow_mut().fail_writes = true;
    assert!(imu.set_low_power_mode(true).is_err());
    // only the first register's read-modify-write was attempted: its
    // read happened, its write failed, and the second register was
    // never touched
    assert_eq!(shared.borrow().reads.as_slice(), &[(0x15, 1)]);
    assert!(shared.borrow().writes.is_empty());
}

#[test]
fn failed_read_stops_low_power_sequence_before_any_write() {
    let (mut imu, shared) = session_with(&[]);
    shared.borrow_mut().fail_reads = true;
    assert!(imu.set_low_power_mode(true).is_err());
    assert!(shared.borrow().reads.is_empty());
    assert!(shared.borrow().writes.is_empty());
}

#[test]
fn failed_enable_write_stops_low_pass_sequence() {
    let (mut imu, shared) = session_with(&[]);
    shared.borrow_mut().fail_writes = true;
    assert!(imu.set_accelerometer_low_pass(Some(Bandwidth::OdrDiv45)).is_err());
    // the bandwidth register was never touched after the enable bit's
    // write failed
    assert_eq!(shared.borrow().reads.as_slice(), &[(0x10, 1)]);
    assert!(shared.borrow().writes.is_empty());
}

#[test]
fn failed_read_leaves_no_partial_traffic() {
    let (mut imu, shared) = session_with(&[]);
    shared.borrow_mut().fail_reads = true;
    assert!(imu.read_all().is_err());
    assert!(imu.read_accelerometer().is_err());
    assert!(imu.read_temperature().is_err());
    assert!(shared.borrow().reads.is_empty());
    assert!(shared.borrow().writes.is_empty());
}

#[test]
fn release_returns_the_transport() {
    let (imu, _shared) = session_with(&[(0x42, 0xAB)]);
    let bus = imu.release();
    assert_eq!(bus.regs[0x42], 0xAB);
}
