//! The device driver: owns the bus and delay capabilities, sequences the
//! configuration writes, acquires raw samples, and maintains the running
//! hard-iron calibration from which the heading vector is derived.

use vstd::prelude::*;

use crate::address::Address;
use crate::bus::Bus;
use crate::bus::BusEvent;
use crate::bus::Delay;
use crate::calib::axis_wf;
use crate::calib::lemma_axis_wf_update;
use crate::calib::upd_hi;
use crate::calib::upd_lo;
use crate::convert::centi_ut;
use crate::convert::i16_from_le;
use crate::convert::i16_le;
use crate::convert::lemma_centi_ut_bounds;
use crate::convert::CENTI_UT_PER_LSB;
use crate::LIS2MDL_CFG_REG_A;
use crate::LIS2MDL_CFG_REG_B;
use crate::LIS2MDL_CFG_REG_C;

verus! {

/// Identity register; holds the chip identifier.
pub const LIS2MDL_WHO_AM_I_REG: u8 = 0x4F;

/// Base register of the six data-output bytes, x low byte first.
pub const LIS2MDL_OUTX_L_REG: u8 = 0x68;

/// Errors a driver operation can surface.
#[derive(Debug)]
pub enum Error<E> {
    /// The bus transport failed; wraps the transport's own error.
    I2C(E),
}

/// Driver for the LIS2MDL three-axis magnetometer.
///
/// Owns one bus handle and one delay handle, the device address, the most
/// recent raw sample, and the running calibration extrema in
/// centi-microtesla. The ghost logs record every bus operation the driver
/// has issued successfully and every delay it has requested, in order.
pub struct Lis2mdl<I2C, DELAY> {
    i2c: I2C,
    address: u8,
    delay: DELAY,
    mag_x: i16,
    mag_y: i16,
    mag_z: i16,
    x_min: i32,
    x_max: i32,
    y_min: i32,
    y_max: i32,
    bus_ops: Ghost<Seq<BusEvent>>,
    delay_ops: Ghost<Seq<u32>>,
}

impl<I2C: Bus, DELAY: Delay> Lis2mdl<I2C, DELAY> {
    /// The bus operations the driver has issued successfully, in order.
    pub closed spec fn bus_log(&self) -> Seq<BusEvent> {
        self.bus_ops@
    }

    /// The delays the driver has requested, in nanoseconds, in order.
    pub closed spec fn delay_log(&self) -> Seq<u32> {
        self.delay_ops@
    }

    /// The bus handle the driver owns.
    pub closed spec fn bus(&self) -> I2C {
        self.i2c
    }

    /// The delay handle the driver owns.
    pub closed spec fn delay_provider(&self) -> DELAY {
        self.delay
    }

    /// The device address every transaction is directed to.
    pub closed spec fn addr(&self) -> u8 {
        self.address
    }

    /// Lower bound of the observed x window, in centi-microtesla.
    pub closed spec fn x_min_spec(&self) -> int {
        self.x_min as int
    }

    /// Upper bound of the observed x window, in centi-microtesla.
    pub closed spec fn x_max_spec(&self) -> int {
        self.x_max as int
    }

    /// Lower bound of the observed y window, in centi-microtesla.
    pub closed spec fn y_min_spec(&self) -> int {
        self.y_min as int
    }

    /// Upper bound of the observed y window, in centi-microtesla.
    pub closed spec fn y_max_spec(&self) -> int {
        self.y_max as int
    }

    /// Most recent raw x-axis reading; zero before the first read.
    pub closed spec fn mag_x(&self) -> i16 {
        self.mag_x
    }

    /// Most recent raw y-axis reading; zero before the first read.
    pub closed spec fn mag_y(&self) -> i16 {
        self.mag_y
    }

    /// Most recent raw z-axis reading; zero before the first read.
    pub closed spec fn mag_z(&self) -> i16 {
        self.mag_z
    }

    /// The current x reading converted to centi-microtesla.
    pub open spec fn xc(&self) -> int {
        centi_ut(self.mag_x() as int)
    }

    /// The current y reading converted to centi-microtesla.
    pub open spec fn yc(&self) -> int {
        centi_ut(self.mag_y() as int)
    }

    /// The current z reading converted to centi-microtesla.
    pub open spec fn zc(&self) -> int {
        centi_ut(self.mag_z() as int)
    }

    /// Well-formedness: both calibration windows are either still the
    /// sentinel pair or real windows within the converted range.
    pub open spec fn wf(&self) -> bool {
        axis_wf(self.x_min_spec(), self.x_max_spec()) && axis_wf(
            self.y_min_spec(),
            self.y_max_spec(),
        )
    }

    /// The raw sample of `b` is that of `a`.
    pub open spec fn same_sample(a: Self, b: Self) -> bool {
        b.mag_x() == a.mag_x() && b.mag_y() == a.mag_y() && b.mag_z() == a.mag_z()
    }

    /// The calibration extrema of `b` are those of `a`.
    pub open spec fn same_calibration(a: Self, b: Self) -> bool {
        b.x_min_spec() == a.x_min_spec() && b.x_max_spec() == a.x_max_spec() && b.y_min_spec()
            == a.y_min_spec() && b.y_max_spec() == a.y_max_spec()
    }

    /// Construct a driver. Performs no bus traffic: the logs are empty, the
    /// raw sample starts at zero and the calibration windows in their
    /// sentinel state.
    pub fn new(i2c: I2C, address: Address, delay: DELAY) -> (r: Self)
        ensures
            r.wf(),
            r.addr() == address@,
            r.bus() == i2c,
            r.delay_provider() == delay,
            r.bus_log() == Seq::<BusEvent>::empty(),
            r.delay_log() == Seq::<u32>::empty(),
            r.mag_x() == 0 && r.mag_y() == 0 && r.mag_z() == 0,
            r.x_min_spec() == i32::MAX && r.x_max_spec() == i32::MIN,
            r.y_min_spec() == i32::MAX && r.y_max_spec() == i32::MIN,
    {
        Lis2mdl {
            i2c,
            address: address.byte(),
            delay,
            mag_x: 0,
            mag_y: 0,
            mag_z: 0,
            x_min: i32::MAX,
            x_max: i32::MIN,
            y_min: i32::MAX,
            y_max: i32::MIN,
            bus_ops: Ghost(Seq::empty()),
            delay_ops: Ghost(Seq::empty()),
        }
    }

    /// Write `value` to register `reg` as one atomic transaction of
    /// `[reg, value]`; a transport failure propagates unchanged.
    pub fn set_register(&mut self, reg: u8, value: u8) -> (r: Result<(), Error<I2C::BusError>>)
        ensures
            Self::same_sample(*old(self), *final(self)),
            Self::same_calibration(*old(self), *final(self)),
            final(self).addr() == old(self).addr(),
            final(self).delay_log() == old(self).delay_log(),
            r is Ok ==> final(self).bus_log() == old(self).bus_log().push(
                BusEvent::Write { addr: old(self).addr(), data: seq![reg, value] },
            ),
            r is Err ==> final(self).bus_log() == old(self).bus_log(),
    {
        let cmd: [u8; 2] = [reg, value];
        match self.i2c.write(self.address, cmd.as_slice()) {
            Ok(()) => {
                self.bus_ops = Ghost(
                    self.bus_ops@.push(
                        BusEvent::Write { addr: self.address, data: seq![reg, value] },
                    ),
                );
                Ok(())
            },
            Err(e) => Err(Error::I2C(e)),
        }
    }

    /// Read one byte back from register `reg` with a combined
    /// write-then-read transaction; a transport failure propagates unchanged.
    pub fn get_register(&mut self, reg: u8) -> (r: Result<u8, Error<I2C::BusError>>)
        ensures
            Self::same_sample(*old(self), *final(self)),
            Self::same_calibration(*old(self), *final(self)),
            final(self).addr() == old(self).addr(),
            final(self).delay_log() == old(self).delay_log(),
            r matches Ok(b) ==> final(self).bus_log() == old(self).bus_log().push(
                BusEvent::WriteRead {
                    addr: old(self).addr(),
                    written: seq![reg],
                    returned: seq![b],
                },
            ),
            r is Err ==> final(self).bus_log() == old(self).bus_log(),
    {
        let cmd: [u8; 1] = [reg];
        match self.i2c.write_read(self.address, cmd.as_slice(), 1) {
            Ok(buf) => {
                let b = buf[0];
                proof {
                    assert(buf@ =~= seq![b]);
                }
                self.bus_ops = Ghost(
                    self.bus_ops@.push(
                        BusEvent::WriteRead {
                            addr: self.address,
                            written: seq![reg],
                            returned: buf@,
                        },
                    ),
                );
                Ok(b)
            },
            Err(e) => Err(Error::I2C(e)),
        }
    }

    /// Read the identity register. Returns the raw identity byte; comparing
    /// it against the expected chip identifier is the caller's concern.
    pub fn whoami(&mut self) -> (r: Result<u8, Error<I2C::BusError>>)
        ensures
            Self::same_sample(*old(self), *final(self)),
            Self::same_calibration(*old(self), *final(self)),
            final(self).addr() == old(self).addr(),
            final(self).delay_log() == old(self).delay_log(),
            r matches Ok(b) ==> final(self).bus_log() == old(self).bus_log().push(
                BusEvent::WriteRead {
                    addr: old(self).addr(),
                    written: seq![LIS2MDL_WHO_AM_I_REG],
                    returned: seq![b],
                },
            ),
            r is Err ==> final(self).bus_log() == old(self).bus_log(),
    {
        self.get_register(LIS2MDL_WHO_AM_I_REG)
    }

    /// After `k` of the four initialization steps succeeded, the bus log has
    /// grown by the first `k` configuration writes and the delay log by the
    /// first `k` delays; `k == 4` is a completed initialization.
    pub open spec fn start_step(pre: Self, post: Self, k: int) -> bool {
        post.bus_log() == pre.bus_log() + start_writes(pre.addr()).take(k) && post.delay_log()
            == pre.delay_log() + start_delays().take(k)
    }

    /// Bring the sensor into continuous-measurement mode: four configuration
    /// writes, each followed by a fixed delay. Aborts on the first failing
    /// write, without issuing the later writes or their delays; a partially
    /// configured device is not rolled back.
    pub fn start(&mut self) -> (r: Result<(), Error<I2C::BusError>>)
        ensures
            Self::same_sample(*old(self), *final(self)),
            Self::same_calibration(*old(self), *final(self)),
            final(self).addr() == old(self).addr(),
            r is Ok ==> Self::start_step(*old(self), *final(self), 4),
            r is Err ==> exists|k: int|
                0 <= k < 4 && #[trigger] Self::start_step(*old(self), *final(self), k),
    {
        // Force two-wire mode first: interface control with auto-increment off.
        if let Err(e) = self.set_register(LIS2MDL_CFG_REG_C, 0x00) {
            proof {
                assert(start_writes(old(self).addr()).take(0) =~= Seq::<BusEvent>::empty());
                assert(start_delays().take(0) =~= Seq::<u32>::empty());
                assert(self.bus_log() =~= old(self).bus_log() + Seq::<BusEvent>::empty());
                assert(self.delay_log() =~= old(self).delay_log() + Seq::<u32>::empty());
                assert(Self::start_step(*old(self), *self, 0));
            }
            return Err(e);
        }
        self.delay.delay_ns(5000);
        self.delay_ops = Ghost(self.delay_ops@.push(5000));
        proof {
            assert(self.bus_log() =~= old(self).bus_log() + start_writes(old(self).addr()).take(1));
            assert(self.delay_log() =~= old(self).delay_log() + start_delays().take(1));
        }
        // Enable register auto-increment and block-data-update.
        if let Err(e) = self.set_register(LIS2MDL_CFG_REG_C, 0x11) {
            proof {
                assert(Self::start_step(*old(self), *self, 1));
            }
            return Err(e);
        }
        self.delay.delay_ns(5000);
        self.delay_ops = Ghost(self.delay_ops@.push(5000));
        proof {
            assert(self.bus_log() =~= old(self).bus_log() + start_writes(old(self).addr()).take(2));
            assert(self.delay_log() =~= old(self).delay_log() + start_delays().take(2));
        }
        // Continuous measurement at the default output rate.
        if let Err(e) = self.set_register(LIS2MDL_CFG_REG_A, 0x00) {
            proof {
                assert(Self::start_step(*old(self), *self, 2));
            }
            return Err(e);
        }
        self.delay.delay_ns(5000);
        self.delay_ops = Ghost(self.delay_ops@.push(5000));
        proof {
            assert(self.bus_log() =~= old(self).bus_log() + start_writes(old(self).addr()).take(3));
            assert(self.delay_log() =~= old(self).delay_log() + start_delays().take(3));
        }
        // Default offset-cancellation behaviour.
        if let Err(e) = self.set_register(LIS2MDL_CFG_REG_B, 0x00) {
            proof {
                assert(Self::start_step(*old(self), *self, 3));
            }
            return Err(e);
        }
        self.delay.delay_ns(10000);
        self.delay_ops = Ghost(self.delay_ops@.push(10000));
        proof {
            assert(self.bus_log() =~= old(self).bus_log() + start_writes(old(self).addr()).take(4));
            assert(self.delay_log() =~= old(self).delay_log() + start_delays().take(4));
        }
        Ok(())
    }

    /// A successful sample acquisition: the bus log has grown by exactly one
    /// write-then-read of the six data-output bytes, and the raw sample is
    /// their little-endian decoding.
    pub open spec fn read_ok(pre: Self, post: Self) -> bool {
        &&& post.bus_log().len() == pre.bus_log().len() + 1
        &&& post.bus_log().drop_last() == pre.bus_log()
        &&& (post.bus_log().last() matches BusEvent::WriteRead { addr, written, returned }
            && addr == pre.addr()
            && written == seq![LIS2MDL_OUTX_L_REG]
            && returned.len() == 6
            && post.mag_x() as int == i16_le(returned[0], returned[1])
            && post.mag_y() as int == i16_le(returned[2], returned[3])
            && post.mag_z() as int == i16_le(returned[4], returned[5]))
    }

    /// Acquire a fresh raw sample: one write-then-read transaction of the six
    /// data-output bytes, decoded as three little-endian signed 16-bit axis
    /// values. The only operation that overwrites the raw sample; on a
    /// transport failure the previous sample is kept.
    pub fn read(&mut self) -> (r: Result<(), Error<I2C::BusError>>)
        ensures
            Self::same_calibration(*old(self), *final(self)),
            final(self).addr() == old(self).addr(),
            final(self).delay_log() == old(self).delay_log(),
            r is Err ==> Self::same_sample(*old(self), *final(self)) && final(self).bus_log()
                == old(self).bus_log(),
            r is Ok ==> Self::read_ok(*old(self), *final(self)),
    {
        let cmd: [u8; 1] = [LIS2MDL_OUTX_L_REG];
        match self.i2c.write_read(self.address, cmd.as_slice(), 6) {
            Ok(buf) => {
                self.mag_x = i16_from_le(buf[0], buf[1]);
                self.mag_y = i16_from_le(buf[2], buf[3]);
                self.mag_z = i16_from_le(buf[4], buf[5]);
                self.bus_ops = Ghost(
                    self.bus_ops@.push(
                        BusEvent::WriteRead {
                            addr: self.address,
                            written: seq![LIS2MDL_OUTX_L_REG],
                            returned: buf@,
                        },
                    ),
                );
                proof {
                    assert(self.bus_log().drop_last() =~= old(self).bus_log());
                }
                Ok(())
            },
            Err(e) => Err(Error::I2C(e)),
        }
    }

    /// The current sample converted to physical units: each axis in
    /// centi-microtesla, exactly 15 per raw LSB. Pure in the raw sample; no
    /// bus traffic and no effect on driver state.
    pub fn current_xyz(&self) -> (r: (i32, i32, i32))
        ensures
            r.0 as int == self.xc(),
            r.1 as int == self.yc(),
            r.2 as int == self.zc(),
    {
        (
            (self.mag_x as i32) * CENTI_UT_PER_LSB,
            (self.mag_y as i32) * CENTI_UT_PER_LSB,
            (self.mag_z as i32) * CENTI_UT_PER_LSB,
        )
    }

    /// One heading query against the current sample: widens the calibration
    /// windows to cover the converted (x, y) point, then returns the
    /// hard-iron-corrected vector, doubled to keep the arithmetic exact —
    /// `(2 (x - x_offset), 2 (y - y_offset))` in centi-microtesla, where each
    /// offset is the midpoint of its window. The heading angle is the
    /// four-quadrant arctangent of this vector; doubling does not change it.
    pub fn heading_vector(&mut self) -> (v: (i32, i32))
        requires
            old(self).wf(),
        ensures
            final(self).wf(),
            Self::same_sample(*old(self), *final(self)),
            final(self).addr() == old(self).addr(),
            final(self).bus_log() == old(self).bus_log(),
            final(self).delay_log() == old(self).delay_log(),
            final(self).x_min_spec() == upd_lo(old(self).x_min_spec(), old(self).xc()),
            final(self).x_max_spec() == upd_hi(old(self).x_max_spec(), old(self).xc()),
            final(self).y_min_spec() == upd_lo(old(self).y_min_spec(), old(self).yc()),
            final(self).y_max_spec() == upd_hi(old(self).y_max_spec(), old(self).yc()),
            final(self).x_min_spec() <= old(self).x_min_spec(),
            final(self).x_max_spec() >= old(self).x_max_spec(),
            final(self).y_min_spec() <= old(self).y_min_spec(),
            final(self).y_max_spec() >= old(self).y_max_spec(),
            v.0 as int == 2 * old(self).xc() - (final(self).x_max_spec()
                + final(self).x_min_spec()),
            v.1 as int == 2 * old(self).yc() - (final(self).y_max_spec()
                + final(self).y_min_spec()),
    {
        let x: i32 = (self.mag_x as i32) * CENTI_UT_PER_LSB;
        let y: i32 = (self.mag_y as i32) * CENTI_UT_PER_LSB;
        proof {
            lemma_centi_ut_bounds(self.mag_x() as int);
            lemma_centi_ut_bounds(self.mag_y() as int);
            lemma_axis_wf_update(self.x_min_spec(), self.x_max_spec(), self.xc());
            lemma_axis_wf_update(self.y_min_spec(), self.y_max_spec(), self.yc());
        }
        if x > self.x_max {
            self.x_max = x;
        }
        if x < self.x_min {
            self.x_min = x;
        }
        if y > self.y_max {
            self.y_max = y;
        }
        if y < self.y_min {
            self.y_min = y;
        }
        let vx: i32 = 2 * x - (self.x_max + self.x_min);
        let vy: i32 = 2 * y - (self.y_max + self.y_min);
        (vx, vy)
    }

    /// The most recent raw sample as (x, y, z).
    pub fn raw_sample(&self) -> (r: (i16, i16, i16))
        ensures
            r.0 == self.mag_x() && r.1 == self.mag_y() && r.2 == self.mag_z(),
    {
        (self.mag_x, self.mag_y, self.mag_z)
    }

    /// The calibration windows as (x_min, x_max, y_min, y_max), in
    /// centi-microtesla; the sentinel pair is (`i32::MAX`, `i32::MIN`).
    pub fn extrema(&self) -> (r: (i32, i32, i32, i32))
        ensures
            r.0 as int == self.x_min_spec() && r.1 as int == self.x_max_spec(),
            r.2 as int == self.y_min_spec() && r.3 as int == self.y_max_spec(),
    {
        (self.x_min, self.x_max, self.y_min, self.y_max)
    }

    /// The device address every transaction is directed to.
    pub fn address(&self) -> (r: u8)
        ensures
            r == self.addr(),
    {
        self.address
    }

    /// Consume the driver and give back its bus and delay handles.
    pub fn release(self) -> (r: (I2C, DELAY))
        ensures
            r.0 == self.bus(),
            r.1 == self.delay_provider(),
    {
        (self.i2c, self.delay)
    }
}

/// The four configuration writes a successful initialization issues, in
/// order: interface control to `0x00` and then `0x11`, mode control A to
/// `0x00`, mode control B to `0x00`.
pub open spec fn start_writes(addr: u8) -> Seq<BusEvent> {
    seq![
        BusEvent::Write { addr, data: seq![LIS2MDL_CFG_REG_C, 0x00u8] },
        BusEvent::Write { addr, data: seq![LIS2MDL_CFG_REG_C, 0x11u8] },
        BusEvent::Write { addr, data: seq![LIS2MDL_CFG_REG_A, 0x00u8] },
        BusEvent::Write { addr, data: seq![LIS2MDL_CFG_REG_B, 0x00u8] },
    ]
}

/// The delay after each initialization write, in nanoseconds, in order.
pub open spec fn start_delays() -> Seq<u32> {
    seq![5000u32, 5000u32, 5000u32, 10000u32]
}

} // verus!
