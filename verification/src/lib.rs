//! Driver core for a 6-degree-of-freedom inertial sensor (accelerometer
//! + gyroscope) behind a two-wire serial bus.
//!
//! The crate translates the chip's register map into a typed
//! configuration and sampling API: a bit-field codec for the option
//! fields of the control registers ([`regs`]), a session type that
//! caches the configured full-scale settings ([`Lsm6dso`]), and exact
//! integer unit conversion of raw samples ([`convert`]). Bus traffic
//! goes through the [`Transport`] capability, which a host crate
//! implements for its concrete bus; the session's contracts account for
//! every transaction through the transport's ghost histories.
//!
//! Physical units are kept exact by fixed-point scaling: temperature in
//! 1/256 degrees Celsius, acceleration in micro-g, angular rate in
//! micro-degrees per second. A host converts those to floating point
//! with one multiplication of its choosing.

use vstd::prelude::*;

pub mod convert;
pub mod regs;
pub mod transport;

pub use regs::{
    AccelerometerOutput, AccelerometerScale, Bandwidth, Ctrl3C, Ctrl6C, Ctrl7G, GyroscopeFullScale,
    GyroscopeOutput, Register, RegisterError, RegisterOption,
};
pub use transport::Transport;

use regs::{merge_bits, spec_decode_field, spec_merge_bits};
use transport::spec_read_appended;

verus! {

/// Value the identity register must hold for this chip.
pub const CHIP_ID: u8 = 0x6C;

/// All the ways an operation against the device can fail.
#[derive(Debug)]
pub enum Error<E> {
    /// The underlying bus reported an error; its value is kept
    /// unchanged.
    CommunicationError(E),
    /// The identity register did not hold the documented constant: the
    /// bus works, but this is not the expected chip.
    ChipDetectFailed,
    /// A register field held a bit pattern outside its defined variant
    /// set.
    RegisterReadFailed,
}

impl<E> From<E> for Error<E> {
    /// Wrap a bus implementation's error value, unchanged.
    fn from(e: E) -> (r: Self) {
        Error::CommunicationError(e)
    }
}

impl<E> vstd::std_specs::convert::FromSpecImpl<E> for Error<E> {
    open spec fn obeys_from_spec() -> bool {
        true
    }

    open spec fn from_spec(e: E) -> Self {
        Error::CommunicationError(e)
    }
}

/// One temporally coherent snapshot of all three sensing channels:
/// temperature in 1/256 degrees Celsius, acceleration per axis in
/// micro-g, angular rate per axis in micro-degrees per second.
#[derive(Debug, Clone, Copy, PartialEq, Eq, Structural)]
pub struct SensorData {
    pub temp: i32,
    pub accel_x: i64,
    pub accel_y: i64,
    pub accel_z: i64,
    pub gyro_x: i64,
    pub gyro_y: i64,
    pub gyro_z: i64,
}

/// Tests whether a status register byte reports fresh accelerometer
/// data (bit 0 of the status register).
pub fn status_accel_ready(status: u8) -> (r: bool)
    ensures
        r == ((status & 0x01) != 0),
{
    status & 0x01 != 0
}

/// Tests whether a status register byte reports fresh gyroscope data
/// (bit 1 of the status register).
pub fn status_gyro_ready(status: u8) -> (r: bool)
    ensures
        r == ((status & 0x02) != 0),
{
    status & 0x02 != 0
}

/// Tests whether an identity register byte names this chip.
pub fn identity_matches(byte: u8) -> (r: bool)
    ensures
        r == (byte == CHIP_ID),
{
    byte == CHIP_ID
}

/// One read-modify-write of `reg`, and nothing else, stands between the
/// bus histories `reads0`/`writes0` (before) and `reads1`/`writes1`
/// (after): one one-byte read of `reg`, then one write of the byte just
/// read with only the bits under `mask << shift` replaced by `value`.
pub open spec fn spec_rmw_appended(
    reads0: Seq<(u8, Seq<u8>)>,
    writes0: Seq<(u8, u8)>,
    reads1: Seq<(u8, Seq<u8>)>,
    writes1: Seq<(u8, u8)>,
    reg: u8,
    value: u8,
    mask: u8,
    shift: u8,
) -> bool {
    &&& spec_read_appended(reads0, reads1, reg, 1)
    &&& writes1 == writes0.push((reg, spec_merge_bits(reads1.last().1[0], value, mask, shift)))
}

/// What a failed read-modify-write of `reg` leaves in the bus
/// histories: only the completed prefix — nothing, or the one-byte
/// read alone — and never a write.
pub open spec fn spec_rmw_prefix(
    reads0: Seq<(u8, Seq<u8>)>,
    writes0: Seq<(u8, u8)>,
    reads1: Seq<(u8, Seq<u8>)>,
    writes1: Seq<(u8, u8)>,
    reg: u8,
) -> bool {
    &&& writes1 == writes0
    &&& (reads1 == reads0 || spec_read_appended(reads0, reads1, reg, 1))
}

/// The accelerometer-range resolution step between the read histories
/// `reads0` and `reads1`: a warm cache (`cache0` present) costs no bus
/// traffic and keeps its value; a cold cache appends at most one read
/// of the accelerometer control register, after which the cache holds
/// exactly what that byte's scale field decodes to — nothing, if it
/// decodes to nothing. Every range a session ever uses therefore comes
/// from a scale write or from a decoded register read.
pub open spec fn spec_accel_resolution_step(
    cache0: Option<AccelerometerScale>,
    cache1: Option<AccelerometerScale>,
    reads0: Seq<(u8, Seq<u8>)>,
    reads1: Seq<(u8, Seq<u8>)>,
) -> bool {
    if cache0 is Some {
        reads1 == reads0 && cache1 == cache0
    } else {
        ||| (reads1 == reads0 && cache1 is None)
        ||| (spec_read_appended(reads0, reads1, Register::Ctrl1XL.spec_addr(), 1)
            && spec_decode_field::<AccelerometerScale>(reads1.last().1[0]) == cache1)
    }
}

/// The gyroscope-range resolution step, built like the accelerometer's
/// over the gyroscope control register.
pub open spec fn spec_gyro_resolution_step(
    cache0: Option<GyroscopeFullScale>,
    cache1: Option<GyroscopeFullScale>,
    reads0: Seq<(u8, Seq<u8>)>,
    reads1: Seq<(u8, Seq<u8>)>,
) -> bool {
    if cache0 is Some {
        reads1 == reads0 && cache1 == cache0
    } else {
        ||| (reads1 == reads0 && cache1 is None)
        ||| (spec_read_appended(reads0, reads1, Register::Ctrl2G.spec_addr(), 1)
            && spec_decode_field::<GyroscopeFullScale>(reads1.last().1[0]) == cache1)
    }
}

/// The driver session: one transport handle, the device's bus address,
/// and the lazily filled caches of the two configured full-scale
/// ranges. The caches exist so unit conversion does not cost a register
/// read per sample; every path that could let them diverge from the
/// hardware clears them instead.
pub struct Lsm6dso<T> {
    i2c: T,
    addr: u8,
    accelerometer_scale: Option<AccelerometerScale>,
    gyroscope_scale: Option<GyroscopeFullScale>,
}

impl<T: Transport> Lsm6dso<T> {
    /// The cached accelerometer full-scale range, if any.
    pub closed spec fn accel_cache(&self) -> Option<AccelerometerScale> {
        self.accelerometer_scale
    }

    /// The cached gyroscope full-scale range, if any.
    pub closed spec fn gyro_cache(&self) -> Option<GyroscopeFullScale> {
        self.gyroscope_scale
    }

    /// The device's bus address, fixed at construction.
    pub closed spec fn bus_addr(&self) -> u8 {
        self.addr
    }

    /// The transport's history of successful reads.
    pub closed spec fn bus_reads(&self) -> Seq<(u8, Seq<u8>)> {
        self.i2c.reads()
    }

    /// The transport's history of successful writes.
    pub closed spec fn bus_writes(&self) -> Seq<(u8, u8)> {
        self.i2c.writes()
    }

    /// The owned transport handle.
    pub closed spec fn transport(&self) -> T {
        self.i2c
    }

    /// Create a session over `i2c` for the device at `addr`. Performs
    /// no bus traffic; both scale caches start empty.
    pub fn new(i2c: T, addr: u8) -> (r: Self)
        ensures
            r.accel_cache() is None,
            r.gyro_cache() is None,
            r.bus_addr() == addr,
            r.transport() == i2c,
    {
        Lsm6dso { i2c, addr, accelerometer_scale: None, gyroscope_scale: None }
    }

    /// Check that the device is connected and responding: read the
    /// identity register and compare it against the chip's documented
    /// constant. Succeeds exactly when the read works and returns that
    /// constant; any other byte is a chip-detection failure, never a
    /// decode failure.
    pub fn check(&mut self) -> (r: Result<(), Error<T::BusError>>)
        ensures
            final(self).accel_cache() == old(self).accel_cache(),
            final(self).gyro_cache() == old(self).gyro_cache(),
            final(self).bus_addr() == old(self).bus_addr(),
            final(self).bus_writes() == old(self).bus_writes(),
            r is Ok ==> spec_read_appended(
                old(self).bus_reads(),
                final(self).bus_reads(),
                Register::WhoAmI.spec_addr(),
                1,
            ) && final(self).bus_reads().last().1[0] == CHIP_ID,
            r matches Err(e) ==> !(e is RegisterReadFailed),
            r matches Err(e) ==> (e is ChipDetectFailed ==> spec_read_appended(
                old(self).bus_reads(),
                final(self).bus_reads(),
                Register::WhoAmI.spec_addr(),
                1,
            ) && final(self).bus_reads().last().1[0] != CHIP_ID),
            r matches Err(e) ==> (e is CommunicationError ==> final(self).bus_reads() == old(
                self,
            ).bus_reads()),
    {
        let byte = match self.read_register(Register::WhoAmI) {
            Ok(b) => b,
            Err(e) => {
                return Err(e);
            },
        };
        proof {
            assert(self.bus_reads().drop_last() =~= old(self).bus_reads());
        }
        if identity_matches(byte) {
            Ok(())
        } else {
            Err(Error::ChipDetectFailed)
        }
    }

    /// Read the temperature, in 1/256 degrees Celsius, from one 2-byte
    /// burst read.
    pub fn read_temperature(&mut self) -> (r: Result<i32, Error<T::BusError>>)
        ensures
            final(self).accel_cache() == old(self).accel_cache(),
            final(self).gyro_cache() == old(self).gyro_cache(),
            final(self).bus_addr() == old(self).bus_addr(),
            final(self).bus_writes() == old(self).bus_writes(),
            r matches Ok(t) ==> spec_read_appended(
                old(self).bus_reads(),
                final(self).bus_reads(),
                Register::OutTempL.spec_addr(),
                2,
            ) && t == convert::spec_temp_c_x256(
                final(self).bus_reads().last().1[0],
                final(self).bus_reads().last().1[1],
            ),
            r is Err ==> final(self).bus_reads() == old(self).bus_reads(),
            r matches Err(e) ==> e is CommunicationError,
    {
        let data = match self.read_registers(Register::OutTempL, 2) {
            Ok(d) => d,
            Err(e) => {
                return Err(e);
            },
        };
        proof {
            assert(self.bus_reads().drop_last() =~= old(self).bus_reads());
        }
        Ok(convert::convert_temp_data(&data, 0))
    }

    /// Check if there is new accelerometer data, from one status
    /// register read.
    pub fn accel_data_available(&mut self) -> (r: Result<bool, Error<T::BusError>>)
        ensures
            final(self).accel_cache() == old(self).accel_cache(),
            final(self).gyro_cache() == old(self).gyro_cache(),
            final(self).bus_addr() == old(self).bus_addr(),
            final(self).bus_writes() == old(self).bus_writes(),
            r matches Ok(b) ==> spec_read_appended(
                old(self).bus_reads(),
                final(self).bus_reads(),
                Register::StatusReg.spec_addr(),
                1,
            ) && b == ((final(self).bus_reads().last().1[0] & 0x01) != 0),
            r is Err ==> final(self).bus_reads() == old(self).bus_reads(),
            r matches Err(e) ==> e is CommunicationError,
    {
        match self.read_status() {
            Ok(status) => {
                proof {
                    assert(self.bus_reads().drop_last() =~= old(self).bus_reads());
                }
                Ok(status_accel_ready(status))
            },
            Err(e) => Err(e),
        }
    }

    /// Check if there is new gyroscope data, from one status register
    /// read.
    pub fn gyro_data_available(&mut self) -> (r: Result<bool, Error<T::BusError>>)
        ensures
            final(self).accel_cache() == old(self).accel_cache(),
            final(self).gyro_cache() == old(self).gyro_cache(),
            final(self).bus_addr() == old(self).bus_addr(),
            final(self).bus_writes() == old(self).bus_writes(),
            r matches Ok(b) ==> spec_read_appended(
                old(self).bus_reads(),
                final(self).bus_reads(),
                Register::StatusReg.spec_addr(),
                1,
            ) && b == ((final(self).bus_reads().last().1[0] & 0x02) != 0),
            r is Err ==> final(self).bus_reads() == old(self).bus_reads(),
            r matches Err(e) ==> e is CommunicationError,
    {
        match self.read_status() {
            Ok(status) => {
                proof {
                    assert(self.bus_reads().drop_last() =~= old(self).bus_reads());
                }
                Ok(status_gyro_ready(status))
            },
            Err(e) => Err(e),
        }
    }

    /// Set the accelerometer output rate by read-modify-write of its
    /// control register. The scale caches are untouched: the rate field
    /// is disjoint from the scale field and does not affect conversion.
    pub fn set_accelerometer_output(&mut self, output: AccelerometerOutput) -> (r: Result<
        (),
        Error<T::BusError>,
    >)
        ensures
            final(self).accel_cache() == old(self).accel_cache(),
            final(self).gyro_cache() == old(self).gyro_cache(),
            final(self).bus_addr() == old(self).bus_addr(),
            r is Ok ==> spec_rmw_appended(
                old(self).bus_reads(),
                old(self).bus_writes(),
                final(self).bus_reads(),
                final(self).bus_writes(),
                Register::Ctrl1XL.spec_addr(),
                output.spec_value(),
                AccelerometerOutput::spec_mask(),
                AccelerometerOutput::spec_offset(),
            ),
            r is Err ==> spec_rmw_prefix(
                old(self).bus_reads(),
                old(self).bus_writes(),
                final(self).bus_reads(),
                final(self).bus_writes(),
                Register::Ctrl1XL.spec_addr(),
            ),
            r matches Err(e) ==> e is CommunicationError,
    {
        self.write_register_option(Register::Ctrl1XL, output)
    }

    /// Set the accelerometer operating range by read-modify-write of
    /// its control register. On success the range is cached; on failure
    /// the accelerometer cache is cleared, because the register's true
    /// state is then unknown and must be re-read before the next
    /// conversion.
    pub fn set_accelerometer_scale(&mut self, scale: AccelerometerScale) -> (r: Result<
        (),
        Error<T::BusError>,
    >)
        ensures
            final(self).gyro_cache() == old(self).gyro_cache(),
            final(self).bus_addr() == old(self).bus_addr(),
            r is Ok ==> final(self).accel_cache() == Some(scale),
            r is Err ==> final(self).accel_cache() is None,
            r is Ok ==> spec_rmw_appended(
                old(self).bus_reads(),
                old(self).bus_writes(),
                final(self).bus_reads(),
                final(self).bus_writes(),
                Register::Ctrl1XL.spec_addr(),
                scale.spec_value(),
                AccelerometerScale::spec_mask(),
                AccelerometerScale::spec_offset(),
            ),
            r is Err ==> spec_rmw_prefix(
                old(self).bus_reads(),
                old(self).bus_writes(),
                final(self).bus_reads(),
                final(self).bus_writes(),
                Register::Ctrl1XL.spec_addr(),
            ),
            r matches Err(e) ==> e is CommunicationError,
    {
        match self.write_register_option(Register::Ctrl1XL, scale) {
            Ok(()) => {
                self.accelerometer_scale = Some(scale);
                Ok(())
            },
            Err(e) => {
                self.accelerometer_scale = None;
                Err(e)
            },
        }
    }

    /// Set the gyroscope output rate by read-modify-write of its
    /// control register. The scale caches are untouched.
    pub fn set_gyroscope_output(&mut self, output: GyroscopeOutput) -> (r: Result<
        (),
        Error<T::BusError>,
    >)
        ensures
            final(self).accel_cache() == old(self).accel_cache(),
            final(self).gyro_cache() == old(self).gyro_cache(),
            final(self).bus_addr() == old(self).bus_addr(),
            r is Ok ==> spec_rmw_appended(
                old(self).bus_reads(),
                old(self).bus_writes(),
                final(self).bus_reads(),
                final(self).bus_writes(),
                Register::Ctrl2G.spec_addr(),
                output.spec_value(),
                GyroscopeOutput::spec_mask(),
                GyroscopeOutput::spec_offset(),
            ),
            r is Err ==> spec_rmw_prefix(
                old(self).bus_reads(),
                old(self).bus_writes(),
                final(self).bus_reads(),
                final(self).bus_writes(),
                Register::Ctrl2G.spec_addr(),
            ),
            r matches Err(e) ==> e is CommunicationError,
    {
        self.write_register_option(Register::Ctrl2G, output)
    }

    /// Set the gyroscope operating range by read-modify-write of its
    /// control register. On success the range is cached; on failure the
    /// gyroscope cache is cleared — only its own field's cache, the
    /// accelerometer cache describes a disjoint register field and
    /// keeps its value.
    pub fn set_gyroscope_scale(&mut self, scale: GyroscopeFullScale) -> (r: Result<
        (),
        Error<T::BusError>,
    >)
        ensures
            final(self).accel_cache() == old(self).accel_cache(),
            final(self).bus_addr() == old(self).bus_addr(),
            r is Ok ==> final(self).gyro_cache() == Some(scale),
            r is Err ==> final(self).gyro_cache() is None,
            r is Ok ==> spec_rmw_appended(
                old(self).bus_reads(),
                old(self).bus_writes(),
                final(self).bus_reads(),
                final(self).bus_writes(),
                Register::Ctrl2G.spec_addr(),
                scale.spec_value(),
                GyroscopeFullScale::spec_mask(),
                GyroscopeFullScale::spec_offset(),
            ),
            r is Err ==> spec_rmw_prefix(
                old(self).bus_reads(),
                old(self).bus_writes(),
                final(self).bus_reads(),
                final(self).bus_writes(),
                Register::Ctrl2G.spec_addr(),
            ),
            r matches Err(e) ==> e is CommunicationError,
    {
        match self.write_register_option(Register::Ctrl2G, scale) {
            Ok(()) => {
                self.gyroscope_scale = Some(scale);
                Ok(())
            },
            Err(e) => {
                self.gyroscope_scale = None;
                Err(e)
            },
        }
    }

    /// Set low power (true) or high performance (false) mode for both
    /// sensors: one single-bit read-modify-write in each of the two
    /// performance-mode registers. The register polarity follows the
    /// datasheet — bit value 1 means low power.
    pub fn set_low_power_mode(&mut self, low_power: bool) -> (r: Result<(), Error<T::BusError>>)
        ensures
            final(self).accel_cache() == old(self).accel_cache(),
            final(self).gyro_cache() == old(self).gyro_cache(),
            final(self).bus_addr() == old(self).bus_addr(),
            r is Ok ==> {
                let bit = if low_power {
                    1u8
                } else {
                    0u8
                };
                &&& spec_rmw_appended(
                    old(self).bus_reads(),
                    old(self).bus_writes(),
                    final(self).bus_reads().drop_last(),
                    final(self).bus_writes().drop_last(),
                    Register::Ctrl6C.spec_addr(),
                    bit,
                    0x01,
                    Ctrl6C::AccelHighPerformanceMode.spec_bit(),
                )
                &&& spec_rmw_appended(
                    final(self).bus_reads().drop_last(),
                    final(self).bus_writes().drop_last(),
                    final(self).bus_reads(),
                    final(self).bus_writes(),
                    Register::Ctrl7G.spec_addr(),
                    bit,
                    0x01,
                    Ctrl7G::GyroHighPerformanceMode.spec_bit(),
                )
            },
            r is Err ==> {
                let bit = if low_power {
                    1u8
                } else {
                    0u8
                };
                // at most the completed prefix: the second register is
                // never touched unless the first read-modify-write
                // completed in full
                ||| spec_rmw_prefix(
                    old(self).bus_reads(),
                    old(self).bus_writes(),
                    final(self).bus_reads(),
                    final(self).bus_writes(),
                    Register::Ctrl6C.spec_addr(),
                )
                ||| spec_rmw_appended(
                    old(self).bus_reads(),
                    old(self).bus_writes(),
                    final(self).bus_reads(),
                    final(self).bus_writes(),
                    Register::Ctrl6C.spec_addr(),
                    bit,
                    0x01,
                    Ctrl6C::AccelHighPerformanceMode.spec_bit(),
                )
                ||| (spec_rmw_appended(
                    old(self).bus_reads(),
                    old(self).bus_writes(),
                    final(self).bus_reads().drop_last(),
                    final(self).bus_writes(),
                    Register::Ctrl6C.spec_addr(),
                    bit,
                    0x01,
                    Ctrl6C::AccelHighPerformanceMode.spec_bit(),
                ) && spec_read_appended(
                    final(self).bus_reads().drop_last(),
                    final(self).bus_reads(),
                    Register::Ctrl7G.spec_addr(),
                    1,
                ))
            },
            r matches Err(e) ==> e is CommunicationError,
    {
        let value: u8 = if low_power {
            1
        } else {
            0
        };
        match self.write_bit(Register::Ctrl6C, value, Ctrl6C::AccelHighPerformanceMode.bit()) {
            Ok(()) => {},
            Err(e) => {
                return Err(e);
            },
        }
        let ghost mid = *self;
        match self.write_bit(Register::Ctrl7G, value, Ctrl7G::GyroHighPerformanceMode.bit()) {
            Ok(()) => {
                proof {
                    assert(self.bus_reads().drop_last() =~= mid.bus_reads());
                    assert(self.bus_writes().drop_last() =~= mid.bus_writes());
                }
                Ok(())
            },
            Err(e) => {
                proof {
                    if self.bus_reads() != mid.bus_reads() {
                        assert(self.bus_reads().drop_last() =~= mid.bus_reads());
                    }
                }
                Err(e)
            },
        }
    }

    /// Configure the accelerometer's second digital low pass filter.
    /// With a bandwidth, the filter-enable bit is set and the bandwidth
    /// field written; with none, the enable bit alone is cleared, which
    /// disables the filter without disturbing the stored bandwidth
    /// selection.
    pub fn set_accelerometer_low_pass(&mut self, bandwidth: Option<Bandwidth>) -> (r: Result<
        (),
        Error<T::BusError>,
    >)
        ensures
            final(self).accel_cache() == old(self).accel_cache(),
            final(self).gyro_cache() == old(self).gyro_cache(),
            final(self).bus_addr() == old(self).bus_addr(),
            bandwidth matches Some(cutoff) ==> (r is Ok ==> {
                &&& spec_rmw_appended(
                    old(self).bus_reads(),
                    old(self).bus_writes(),
                    final(self).bus_reads().drop_last(),
                    final(self).bus_writes().drop_last(),
                    Register::Ctrl1XL.spec_addr(),
                    1,
                    0x01,
                    0,
                )
                &&& spec_rmw_appended(
                    final(self).bus_reads().drop_last(),
                    final(self).bus_writes().drop_last(),
                    final(self).bus_reads(),
                    final(self).bus_writes(),
                    Register::Ctrl8Xl.spec_addr(),
                    cutoff.spec_value(),
                    Bandwidth::spec_mask(),
                    Bandwidth::spec_offset(),
                )
            }),
            bandwidth is None ==> (r is Ok ==> spec_rmw_appended(
                old(self).bus_reads(),
                old(self).bus_writes(),
                final(self).bus_reads(),
                final(self).bus_writes(),
                Register::Ctrl1XL.spec_addr(),
                0,
                0x01,
                0,
            )),
            bandwidth is Some ==> (r is Err ==> {
                // at most the completed prefix: the bandwidth register
                // is never touched unless the enable-bit
                // read-modify-write completed in full
                ||| spec_rmw_prefix(
                    old(self).bus_reads(),
                    old(self).bus_writes(),
                    final(self).bus_reads(),
                    final(self).bus_writes(),
                    Register::Ctrl1XL.spec_addr(),
                )
                ||| spec_rmw_appended(
                    old(self).bus_reads(),
                    old(self).bus_writes(),
                    final(self).bus_reads(),
                    final(self).bus_writes(),
                    Register::Ctrl1XL.spec_addr(),
                    1,
                    0x01,
                    0,
                )
                ||| (spec_rmw_appended(
                    old(self).bus_reads(),
                    old(self).bus_writes(),
                    final(self).bus_reads().drop_last(),
                    final(self).bus_writes(),
                    Register::Ctrl1XL.spec_addr(),
                    1,
                    0x01,
                    0,
                ) && spec_read_appended(
                    final(self).bus_reads().drop_last(),
                    final(self).bus_reads(),
                    Register::Ctrl8Xl.spec_addr(),
                    1,
                ))
            }),
            bandwidth is None ==> (r is Err ==> spec_rmw_prefix(
                old(self).bus_reads(),
                old(self).bus_writes(),
                final(self).bus_reads(),
                final(self).bus_writes(),
                Register::Ctrl1XL.spec_addr(),
            )),
            r matches Err(e) ==> e is CommunicationError,
    {
        match bandwidth {
            Some(cutoff) => {
                match self.write_bit(Register::Ctrl1XL, 1, 0) {
                    Ok(()) => {},
                    Err(e) => {
                        return Err(e);
                    },
                }
                let ghost mid = *self;
                match self.write_register_option(Register::Ctrl8Xl, cutoff) {
                    Ok(()) => {
                        proof {
                            assert(self.bus_reads().drop_last() =~= mid.bus_reads());
                            assert(self.bus_writes().drop_last() =~= mid.bus_writes());
                        }
                        Ok(())
                    },
                    Err(e) => {
                        proof {
                            if self.bus_reads() != mid.bus_reads() {
                                assert(self.bus_reads().drop_last() =~= mid.bus_reads());
                            }
                        }
                        Err(e)
                    },
                }
            },
            None => self.write_bit(Register::Ctrl1XL, 0, 0),
        }
    }

    /// The accelerometer full-scale range currently in force: the
    /// cached value when present, at no bus cost; otherwise one
    /// register read whose scale field is decoded and cached. The first
    /// call after construction or after a failed scale write therefore
    /// costs exactly one bus read; later calls cost none until the
    /// cache is invalidated again.
    pub fn read_accelerometer_scale(&mut self) -> (r: Result<
        AccelerometerScale,
        Error<T::BusError>,
    >)
        ensures
            final(self).gyro_cache() == old(self).gyro_cache(),
            final(self).bus_addr() == old(self).bus_addr(),
            final(self).bus_writes() == old(self).bus_writes(),
            spec_accel_resolution_step(
                old(self).accel_cache(),
                final(self).accel_cache(),
                old(self).bus_reads(),
                final(self).bus_reads(),
            ),
            old(self).accel_cache() matches Some(s) ==> r matches Ok(v) && v == s && *final(self)
                == *old(self),
            r matches Ok(v) ==> final(self).accel_cache() == Some(v),
            r is Err ==> final(self).accel_cache() == old(self).accel_cache(),
            r matches Err(e) ==> (e is CommunicationError ==> final(self).bus_reads() == old(
                self,
            ).bus_reads()),
            old(self).accel_cache() is None ==> (r matches Ok(v) ==> spec_read_appended(
                old(self).bus_reads(),
                final(self).bus_reads(),
                Register::Ctrl1XL.spec_addr(),
                1,
            ) && spec_decode_field::<AccelerometerScale>(final(self).bus_reads().last().1[0])
                == Some(v)),
            old(self).accel_cache() is None ==> (r matches Err(e) ==> (e is RegisterReadFailed
                ==> spec_read_appended(
                old(self).bus_reads(),
                final(self).bus_reads(),
                Register::Ctrl1XL.spec_addr(),
                1,
            ) && spec_decode_field::<AccelerometerScale>(final(self).bus_reads().last().1[0])
                is None)),
            r matches Err(e) ==> !(e is ChipDetectFailed),
    {
        match self.accelerometer_scale {
            Some(v) => Ok(v),
            None => {
                let byte = match self.read_register(Register::Ctrl1XL) {
                    Ok(b) => b,
                    Err(e) => {
                        return Err(e);
                    },
                };
                proof {
                    assert(self.bus_reads().drop_last() =~= old(self).bus_reads());
                }
                match AccelerometerScale::try_from(byte) {
                    Ok(scale) => {
                        self.accelerometer_scale = Some(scale);
                        Ok(scale)
                    },
                    Err(_) => Err(Error::RegisterReadFailed),
                }
            },
        }
    }

    /// The gyroscope full-scale range currently in force: the cached
    /// value when present, at no bus cost; otherwise one register read
    /// whose scale field is decoded and cached.
    pub fn read_gyroscope_scale(&mut self) -> (r: Result<GyroscopeFullScale, Error<T::BusError>>)
        ensures
            final(self).accel_cache() == old(self).accel_cache(),
            final(self).bus_addr() == old(self).bus_addr(),
            final(self).bus_writes() == old(self).bus_writes(),
            spec_gyro_resolution_step(
                old(self).gyro_cache(),
                final(self).gyro_cache(),
                old(self).bus_reads(),
                final(self).bus_reads(),
            ),
            old(self).gyro_cache() matches Some(s) ==> r matches Ok(v) && v == s && *final(self)
                == *old(self),
            r matches Ok(v) ==> final(self).gyro_cache() == Some(v),
            r is Err ==> final(self).gyro_cache() == old(self).gyro_cache(),
            r matches Err(e) ==> (e is CommunicationError ==> final(self).bus_reads() == old(
                self,
            ).bus_reads()),
            old(self).gyro_cache() is None ==> (r matches Ok(v) ==> spec_read_appended(
                old(self).bus_reads(),
                final(self).bus_reads(),
                Register::Ctrl2G.spec_addr(),
                1,
            ) && spec_decode_field::<GyroscopeFullScale>(final(self).bus_reads().last().1[0])
                == Some(v)),
            old(self).gyro_cache() is None ==> (r matches Err(e) ==> (e is RegisterReadFailed
                ==> spec_read_appended(
                old(self).bus_reads(),
                final(self).bus_reads(),
                Register::Ctrl2G.spec_addr(),
                1,
            ) && spec_decode_field::<GyroscopeFullScale>(final(self).bus_reads().last().1[0])
                is None)),
            r matches Err(e) ==> !(e is ChipDetectFailed),
    {
        match self.gyroscope_scale {
            Some(v) => Ok(v),
            None => {
                let byte = match self.read_register(Register::Ctrl2G) {
                    Ok(b) => b,
                    Err(e) => {
                        return Err(e);
                    },
                };
                proof {
                    assert(self.bus_reads().drop_last() =~= old(self).bus_reads());
                }
                match GyroscopeFullScale::try_from(byte) {
                    Ok(scale) => {
                        self.gyroscope_scale = Some(scale);
                        Ok(scale)
                    },
                    Err(_) => Err(Error::RegisterReadFailed),
                }
            },
        }
    }

    /// Read the three accelerometer axes, in micro-g: resolve the
    /// current range (cache, or one register read), then one 6-byte
    /// burst read from the accelerometer's first output register.
    pub fn read_accelerometer(&mut self) -> (r: Result<(i64, i64, i64), Error<T::BusError>>)
        ensures
            final(self).gyro_cache() == old(self).gyro_cache(),
            final(self).bus_addr() == old(self).bus_addr(),
            final(self).bus_writes() == old(self).bus_writes(),
            old(self).accel_cache() matches Some(s) ==> final(self).accel_cache() == Some(s),
            r matches Ok(v) ==> {
                let bytes = final(self).bus_reads().last().1;
                &&& final(self).bus_reads().last().0 == Register::OutXLA.spec_addr()
                &&& bytes.len() == 6
                &&& final(self).accel_cache() matches Some(s) && v.0 == convert::spec_accel_axis_ug(
                    bytes[0],
                    bytes[1],
                    s,
                ) && v.1 == convert::spec_accel_axis_ug(bytes[2], bytes[3], s) && v.2
                    == convert::spec_accel_axis_ug(bytes[4], bytes[5], s)
            },
            old(self).accel_cache() is Some ==> (r is Ok ==> spec_read_appended(
                old(self).bus_reads(),
                final(self).bus_reads(),
                Register::OutXLA.spec_addr(),
                6,
            )),
            r is Ok ==> spec_accel_resolution_step(
                old(self).accel_cache(),
                final(self).accel_cache(),
                old(self).bus_reads(),
                final(self).bus_reads().drop_last(),
            ) && spec_read_appended(
                final(self).bus_reads().drop_last(),
                final(self).bus_reads(),
                Register::OutXLA.spec_addr(),
                6,
            ),
            r is Err ==> spec_accel_resolution_step(
                old(self).accel_cache(),
                final(self).accel_cache(),
                old(self).bus_reads(),
                final(self).bus_reads(),
            ),
            r matches Err(e) ==> (e is RegisterReadFailed ==> old(self).accel_cache() is None
                && final(self).accel_cache() is None && spec_read_appended(
                old(self).bus_reads(),
                final(self).bus_reads(),
                Register::Ctrl1XL.spec_addr(),
                1,
            ) && spec_decode_field::<AccelerometerScale>(final(self).bus_reads().last().1[0]) is None),
            r matches Err(e) ==> !(e is ChipDetectFailed),
    {
        let scale = match self.read_accelerometer_scale() {
            Ok(s) => s,
            Err(e) => {
                return Err(e);
            },
        };
        let ghost mid = *self;
        let data = match self.read_registers(Register::OutXLA, 6) {
            Ok(d) => d,
            Err(e) => {
                return Err(e);
            },
        };
        proof {
            assert(self.bus_reads().drop_last() =~= mid.bus_reads());
        }
        Ok(convert::convert_accel_data(&data, 0, scale))
    }

    /// Read the three gyroscope axes, in micro-degrees per second:
    /// resolve the current range (cache, or one register read), then
    /// one 6-byte burst read from the gyroscope's first output
    /// register.
    pub fn read_gyro(&mut self) -> (r: Result<(i64, i64, i64), Error<T::BusError>>)
        ensures
            final(self).accel_cache() == old(self).accel_cache(),
            final(self).bus_addr() == old(self).bus_addr(),
            final(self).bus_writes() == old(self).bus_writes(),
            old(self).gyro_cache() matches Some(s) ==> final(self).gyro_cache() == Some(s),
            r matches Ok(v) ==> {
                let bytes = final(self).bus_reads().last().1;
                &&& final(self).bus_reads().last().0 == Register::OutXLG.spec_addr()
                &&& bytes.len() == 6
                &&& final(self).gyro_cache() matches Some(s) && v.0 == convert::spec_gyro_axis_udps(
                    bytes[0],
                    bytes[1],
                    s,
                ) && v.1 == convert::spec_gyro_axis_udps(bytes[2], bytes[3], s) && v.2
                    == convert::spec_gyro_axis_udps(bytes[4], bytes[5], s)
            },
            old(self).gyro_cache() is Some ==> (r is Ok ==> spec_read_appended(
                old(self).bus_reads(),
                final(self).bus_reads(),
                Register::OutXLG.spec_addr(),
                6,
            )),
            r is Ok ==> spec_gyro_resolution_step(
                old(self).gyro_cache(),
                final(self).gyro_cache(),
                old(self).bus_reads(),
                final(self).bus_reads().drop_last(),
            ) && spec_read_appended(
                final(self).bus_reads().drop_last(),
                final(self).bus_reads(),
                Register::OutXLG.spec_addr(),
                6,
            ),
            r is Err ==> spec_gyro_resolution_step(
                old(self).gyro_cache(),
                final(self).gyro_cache(),
                old(self).bus_reads(),
                final(self).bus_reads(),
            ),
            r matches Err(e) ==> (e is RegisterReadFailed ==> old(self).gyro_cache() is None
                && final(self).gyro_cache() is None && spec_read_appended(
                old(self).bus_reads(),
                final(self).bus_reads(),
                Register::Ctrl2G.spec_addr(),
                1,
            ) && spec_decode_field::<GyroscopeFullScale>(final(self).bus_reads().last().1[0]) is None),
            r matches Err(e) ==> !(e is ChipDetectFailed),
    {
        let scale = match self.read_gyroscope_scale() {
            Ok(s) => s,
            Err(e) => {
                return Err(e);
            },
        };
        let ghost mid = *self;
        let data = match self.read_registers(Register::OutXLG, 6) {
            Ok(d) => d,
            Err(e) => {
                return Err(e);
            },
        };
        proof {
            assert(self.bus_reads().drop_last() =~= mid.bus_reads());
        }
        Ok(convert::convert_gyro_data(&data, 0, scale))
    }

    /// Read all three sensing channels in one transaction: resolve both
    /// ranges, then one 14-byte burst read spanning the contiguous
    /// temperature, gyroscope and accelerometer output registers, sliced
    /// as 2 + 6 + 6 bytes. One transaction gives a temporally coherent
    /// snapshot; with both ranges already cached it is the only bus
    /// traffic of the call.
    pub fn read_all(&mut self) -> (r: Result<SensorData, Error<T::BusError>>)
        ensures
            final(self).bus_addr() == old(self).bus_addr(),
            final(self).bus_writes() == old(self).bus_writes(),
            old(self).accel_cache() matches Some(s) ==> final(self).accel_cache() == Some(s),
            old(self).gyro_cache() matches Some(s) ==> final(self).gyro_cache() == Some(s),
            r is Ok ==> final(self).accel_cache() is Some && final(self).gyro_cache() is Some,
            old(self).accel_cache() is Some && old(self).gyro_cache() is Some ==> (r is Ok
                ==> spec_read_appended(
                old(self).bus_reads(),
                final(self).bus_reads(),
                Register::OutTempL.spec_addr(),
                14,
            )),
            r matches Ok(d) ==> {
                let bytes = final(self).bus_reads().last().1;
                &&& final(self).bus_reads().last().0 == Register::OutTempL.spec_addr()
                &&& bytes.len() == 14
                &&& d.temp == convert::spec_temp_c_x256(bytes[0], bytes[1])
                &&& final(self).gyro_cache() matches Some(gs) && d.gyro_x
                    == convert::spec_gyro_axis_udps(bytes[2], bytes[3], gs) && d.gyro_y
                    == convert::spec_gyro_axis_udps(bytes[4], bytes[5], gs) && d.gyro_z
                    == convert::spec_gyro_axis_udps(bytes[6], bytes[7], gs)
                &&& final(self).accel_cache() matches Some(acs) && d.accel_x
                    == convert::spec_accel_axis_ug(bytes[8], bytes[9], acs) && d.accel_y
                    == convert::spec_accel_axis_ug(bytes[10], bytes[11], acs) && d.accel_z
                    == convert::spec_accel_axis_ug(bytes[12], bytes[13], acs)
            },
            r is Ok ==> exists|mid: Seq<(u8, Seq<u8>)>| {
                &&& #[trigger] spec_gyro_resolution_step(
                    old(self).gyro_cache(),
                    final(self).gyro_cache(),
                    old(self).bus_reads(),
                    mid,
                )
                &&& spec_accel_resolution_step(
                    old(self).accel_cache(),
                    final(self).accel_cache(),
                    mid,
                    final(self).bus_reads().drop_last(),
                )
                &&& spec_read_appended(
                    final(self).bus_reads().drop_last(),
                    final(self).bus_reads(),
                    Register::OutTempL.spec_addr(),
                    14,
                )
            },
            r is Err ==> exists|mid: Seq<(u8, Seq<u8>)>| {
                &&& #[trigger] spec_gyro_resolution_step(
                    old(self).gyro_cache(),
                    final(self).gyro_cache(),
                    old(self).bus_reads(),
                    mid,
                )
                &&& spec_accel_resolution_step(
                    old(self).accel_cache(),
                    final(self).accel_cache(),
                    mid,
                    final(self).bus_reads(),
                )
            },
            r matches Err(e) ==> !(e is ChipDetectFailed),
    {
        let gyro_scale = match self.read_gyroscope_scale() {
            Ok(s) => s,
            Err(e) => {
                proof {
                    assert(spec_gyro_resolution_step(
                        old(self).gyro_cache(),
                        self.gyro_cache(),
                        old(self).bus_reads(),
                        self.bus_reads(),
                    ));
                    assert(spec_accel_resolution_step(
                        old(self).accel_cache(),
                        self.accel_cache(),
                        self.bus_reads(),
                        self.bus_reads(),
                    ));
                }
                return Err(e);
            },
        };
        let ghost mid1 = *self;
        let accel_scale = match self.read_accelerometer_scale() {
            Ok(s) => s,
            Err(e) => {
                proof {
                    assert(spec_gyro_resolution_step(
                        old(self).gyro_cache(),
                        self.gyro_cache(),
                        old(self).bus_reads(),
                        mid1.bus_reads(),
                    ));
                    assert(spec_accel_resolution_step(
                        old(self).accel_cache(),
                        self.accel_cache(),
                        mid1.bus_reads(),
                        self.bus_reads(),
                    ));
                }
                return Err(e);
            },
        };
        let ghost mid = *self;
        let data = match self.read_registers(Register::OutTempL, 14) {
            Ok(d) => d,
            Err(e) => {
                proof {
                    assert(spec_gyro_resolution_step(
                        old(self).gyro_cache(),
                        self.gyro_cache(),
                        old(self).bus_reads(),
                        mid1.bus_reads(),
                    ));
                    assert(spec_accel_resolution_step(
                        old(self).accel_cache(),
                        self.accel_cache(),
                        mid1.bus_reads(),
                        self.bus_reads(),
                    ));
                }
                return Err(e);
            },
        };
        proof {
            assert(self.bus_reads().drop_last() =~= mid.bus_reads());
            assert(spec_gyro_resolution_step(
                old(self).gyro_cache(),
                self.gyro_cache(),
                old(self).bus_reads(),
                mid1.bus_reads(),
            ));
            assert(spec_accel_resolution_step(
                old(self).accel_cache(),
                self.accel_cache(),
                mid1.bus_reads(),
                self.bus_reads().drop_last(),
            ));
        }
        let temp = convert::convert_temp_data(&data, 0);
        let gyro = convert::convert_gyro_data(&data, 2, gyro_scale);
        let accel = convert::convert_accel_data(&data, 8, accel_scale);
        Ok(
            SensorData {
                temp,
                accel_x: accel.0,
                accel_y: accel.1,
                accel_z: accel.2,
                gyro_x: gyro.0,
                gyro_y: gyro.1,
                gyro_z: gyro.2,
            },
        )
    }


    /// Return the underlying transport handle, ending the session. No
    /// register is written: the device keeps its last configuration.
    pub fn release(self) -> (r: T)
        ensures
            r == self.transport(),
    {
        self.i2c
    }

    fn read_status(&mut self) -> (r: Result<u8, Error<T::BusError>>)
        ensures
            final(self).accel_cache() == old(self).accel_cache(),
            final(self).gyro_cache() == old(self).gyro_cache(),
            final(self).bus_addr() == old(self).bus_addr(),
            final(self).bus_writes() == old(self).bus_writes(),
            r matches Ok(b) ==> final(self).bus_reads() == old(self).bus_reads().push(
                (Register::StatusReg.spec_addr(), seq![b]),
            ),
            r is Err ==> final(self).bus_reads() == old(self).bus_reads(),
            r matches Err(e) ==> e is CommunicationError,
    {
        self.read_register(Register::StatusReg)
    }

    /// Read one byte from the given register.
    fn read_register(&mut self, register: Register) -> (r: Result<u8, Error<T::BusError>>)
        ensures
            final(self).accel_cache() == old(self).accel_cache(),
            final(self).gyro_cache() == old(self).gyro_cache(),
            final(self).bus_addr() == old(self).bus_addr(),
            final(self).bus_writes() == old(self).bus_writes(),
            r matches Ok(b) ==> final(self).bus_reads() == old(self).bus_reads().push(
                (register.spec_addr(), seq![b]),
            ),
            r is Err ==> final(self).bus_reads() == old(self).bus_reads(),
            r matches Err(e) ==> e is CommunicationError,
    {
        let reg = register.addr();
        match self.i2c.write_read(self.addr, reg, 1) {
            Ok(data) => {
                let b = data[0];
                proof {
                    assert(data@ =~= seq![b]);
                }
                Ok(b)
            },
            Err(e) => Err(Error::CommunicationError(e)),
        }
    }

    /// Burst-read `len` consecutive registers starting at `start_reg`.
    fn read_registers(&mut self, start_reg: Register, len: usize) -> (r: Result<
        Vec<u8>,
        Error<T::BusError>,
    >)
        ensures
            final(self).accel_cache() == old(self).accel_cache(),
            final(self).gyro_cache() == old(self).gyro_cache(),
            final(self).bus_addr() == old(self).bus_addr(),
            final(self).bus_writes() == old(self).bus_writes(),
            r matches Ok(v) ==> v@.len() == len && final(self).bus_reads() == old(
                self,
            ).bus_reads().push((start_reg.spec_addr(), v@)),
            r is Err ==> final(self).bus_reads() == old(self).bus_reads(),
            r matches Err(e) ==> e is CommunicationError,
    {
        let reg = start_reg.addr();
        match self.i2c.write_read(self.addr, reg, len) {
            Ok(data) => Ok(data),
            Err(e) => Err(Error::CommunicationError(e)),
        }
    }

    /// Write one byte to the given register.
    fn write_register(&mut self, register: Register, value: u8) -> (r: Result<
        (),
        Error<T::BusError>,
    >)
        ensures
            final(self).accel_cache() == old(self).accel_cache(),
            final(self).gyro_cache() == old(self).gyro_cache(),
            final(self).bus_addr() == old(self).bus_addr(),
            r is Ok ==> final(self).bus_writes() == old(self).bus_writes().push(
                (register.spec_addr(), value),
            ) && final(self).bus_reads() == old(self).bus_reads(),
            r is Err ==> final(self).bus_writes() == old(self).bus_writes()
                && final(self).bus_reads() == old(self).bus_reads(),
            r matches Err(e) ==> e is CommunicationError,
    {
        let reg = register.addr();
        match self.i2c.write(self.addr, reg, value) {
            Ok(()) => Ok(()),
            Err(e) => Err(Error::CommunicationError(e)),
        }
    }

    /// Read-modify-write of one register: only the bits under
    /// `mask << shift` change, to `new_value`'s low bits.
    fn write_bits(&mut self, register: Register, new_value: u8, mask: u8, shift: u8) -> (r: Result<
        (),
        Error<T::BusError>,
    >)
        requires
            shift < 8,
        ensures
            final(self).accel_cache() == old(self).accel_cache(),
            final(self).gyro_cache() == old(self).gyro_cache(),
            final(self).bus_addr() == old(self).bus_addr(),
            r is Ok ==> spec_rmw_appended(
                old(self).bus_reads(),
                old(self).bus_writes(),
                final(self).bus_reads(),
                final(self).bus_writes(),
                register.spec_addr(),
                new_value,
                mask,
                shift,
            ),
            r is Err ==> spec_rmw_prefix(
                old(self).bus_reads(),
                old(self).bus_writes(),
                final(self).bus_reads(),
                final(self).bus_writes(),
                register.spec_addr(),
            ),
            r matches Err(e) ==> e is CommunicationError,
    {
        let current = match self.read_register(register) {
            Ok(c) => c,
            Err(e) => {
                return Err(e);
            },
        };
        let modified = merge_bits(current, new_value, mask, shift);
        match self.write_register(register, modified) {
            Ok(()) => {
                proof {
                    assert(self.bus_reads().drop_last() =~= old(self).bus_reads());
                }
                Ok(())
            },
            Err(e) => {
                proof {
                    assert(self.bus_reads().drop_last() =~= old(self).bus_reads());
                }
                Err(e)
            },
        }
    }

    /// Read-modify-write of a single bit at position `shift`.
    fn write_bit(&mut self, register: Register, value: u8, shift: u8) -> (r: Result<
        (),
        Error<T::BusError>,
    >)
        requires
            shift < 8,
        ensures
            final(self).accel_cache() == old(self).accel_cache(),
            final(self).gyro_cache() == old(self).gyro_cache(),
            final(self).bus_addr() == old(self).bus_addr(),
            r is Ok ==> spec_rmw_appended(
                old(self).bus_reads(),
                old(self).bus_writes(),
                final(self).bus_reads(),
                final(self).bus_writes(),
                register.spec_addr(),
                value,
                0x01,
                shift,
            ),
            r is Err ==> spec_rmw_prefix(
                old(self).bus_reads(),
                old(self).bus_writes(),
                final(self).bus_reads(),
                final(self).bus_writes(),
                register.spec_addr(),
            ),
            r matches Err(e) ==> e is CommunicationError,
    {
        self.write_bits(register, value, 0x01, shift)
    }

    /// Read-modify-write of the whole bit-field a register option
    /// belongs to.
    fn write_register_option<RO: RegisterOption>(&mut self, register: Register, ro: RO) -> (r:
        Result<(), Error<T::BusError>>)
        ensures
            final(self).accel_cache() == old(self).accel_cache(),
            final(self).gyro_cache() == old(self).gyro_cache(),
            final(self).bus_addr() == old(self).bus_addr(),
            r is Ok ==> spec_rmw_appended(
                old(self).bus_reads(),
                old(self).bus_writes(),
                final(self).bus_reads(),
                final(self).bus_writes(),
                register.spec_addr(),
                ro.spec_value(),
                RO::spec_mask(),
                RO::spec_offset(),
            ),
            r is Err ==> spec_rmw_prefix(
                old(self).bus_reads(),
                old(self).bus_writes(),
                final(self).bus_reads(),
                final(self).bus_writes(),
                register.spec_addr(),
            ),
            r matches Err(e) ==> e is CommunicationError,
    {
        proof {
            RO::lemma_well_formed();
        }
        self.write_bits(register, ro.value(), RO::mask(), RO::bit_offset())
    }
}

} // verus!
