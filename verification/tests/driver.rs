use lis2mdl::Address;
use lis2mdl::Bus;
use lis2mdl::Delay;
use lis2mdl::Error;
use lis2mdl::Lis2mdl;
use lis2mdl::CENTI_UT_PER_LSB;
use lis2mdl::DEFAULT_DEVICE_ID;
use lis2mdl::LIS2MDL_CFG_REG_A;
use lis2mdl::LIS2MDL_CFG_REG_B;
use lis2mdl::LIS2MDL_CFG_REG_C;
use lis2mdl::LIS2MDL_OUTX_L_REG;
use lis2mdl::LIS2MDL_WHO_AM_I_REG;

use micromath::F32Ext;

/// A scripted bus: records every operation, answers each write-then-read
/// with the next canned response, and fails every operation once
/// `ok_budget` is spent.
struct MockBus {
    writes: Vec<(u8, Vec<u8>)>,
    transactions: Vec<(u8, Vec<u8>, usize)>,
    responses: Vec<Vec<u8>>,
    ok_budget: usize,
}

impl MockBus {
    fn new(responses: Vec<Vec<u8>>, ok_budget: usize) -> Self {
        MockBus { writes: Vec::new(), transactions: Vec::new(), responses, ok_budget }
    }
}

impl Bus for MockBus {
    type BusError = u8;

    fn write(&mut self, addr: u8, data: &[u8]) -> Result<(), u8> {
        if self.ok_budget == 0 {
            return Err(7);
        }
        self.ok_budget -= 1;
        self.writes.push((addr, data.to_vec()));
        Ok(())
    }

    fn write_read(&mut self, addr: u8, data: &[u8], read_len: usize) -> Result<Vec<u8>, u8> {
        if self.ok_budget == 0 {
            return Err(7);
        }
        self.ok_budget -= 1;
        self.transactions.push((addr, data.to_vec(), read_len));
        let response = self.responses.remove(0);
        assert_eq!(response.len(), read_len);
        Ok(response)
    }
}

/// Records the requested delays in order.
struct MockDelay {
    ns: Vec<u32>,
}

impl MockDelay {
    fn new() -> Self {
        MockDelay { ns: Vec::new() }
    }
}

impl Delay for MockDelay {
    fn delay_ns(&mut self, ns: u32) {
        self.ns.push(ns);
    }
}

fn driver_with(responses: Vec<Vec<u8>>, ok_budget: usize) -> Lis2mdl<MockBus, MockDelay> {
    Lis2mdl::new(MockBus::new(responses, ok_budget), Address::default(), MockDelay::new())
}

/// The heading in degrees in [0, 360) derived from a calibrated vector, as a
/// host application computes it from `heading_vector`.
fn heading_degrees(v: (i32, i32)) -> f32 {
    let h = (v.1 as f32).atan2(v.0 as f32) * 180.0 / core::f32::consts::PI;
    if h < 0.0 {
        h + 360.0
    } else {
        h
    }
}

#[test]
fn address_default_is_factory() {
    assert_eq!(DEFAULT_DEVICE_ID, 0x1E);
    assert_eq!(Address::default().byte(), 0x1E);
}

#[test]
fn address_seq_is_factory() {
    assert_eq!(Address::seq().byte(), 0x1E);
}

#[test]
fn address_from_byte() {
    assert_eq!(Address::from(0x42).byte(), 0x42);
}

#[test]
fn register_map() {
    assert_eq!(LIS2MDL_CFG_REG_A, 0x60);
    assert_eq!(LIS2MDL_CFG_REG_B, 0x61);
    assert_eq!(LIS2MDL_CFG_REG_C, 0x62);
    assert_eq!(LIS2MDL_WHO_AM_I_REG, 0x4F);
    assert_eq!(LIS2MDL_OUTX_L_REG, 0x68);
    assert_eq!(CENTI_UT_PER_LSB, 15);
}

#[test]
fn new_performs_no_bus_traffic() {
    let d = driver_with(Vec::new(), usize::MAX);
    assert_eq!(d.address(), 0x1E);
    assert_eq!(d.raw_sample(), (0, 0, 0));
    assert_eq!(d.extrema(), (i32::MAX, i32::MIN, i32::MAX, i32::MIN));
    let (bus, delay) = d.release();
    assert!(bus.writes.is_empty());
    assert!(bus.transactions.is_empty());
    assert!(delay.ns.is_empty());
}

#[test]
fn start_writes_exact_payloads() {
    let mut d = driver_with(Vec::new(), usize::MAX);
    assert!(d.start().is_ok());
    let (bus, delay) = d.release();
    assert_eq!(
        bus.writes,
        vec![
            (0x1E, vec![0x62, 0x00]),
            (0x1E, vec![0x62, 0x11]),
            (0x1E, vec![0x60, 0x00]),
            (0x1E, vec![0x61, 0x00]),
        ]
    );
    assert!(bus.transactions.is_empty());
    assert_eq!(delay.ns, vec![5000, 5000, 5000, 10000]);
}

#[test]
fn start_aborts_on_first_failure() {
    let mut d = driver_with(Vec::new(), 2);
    let r = d.start();
    assert!(matches!(r, Err(Error::I2C(7))));
    let (bus, delay) = d.release();
    assert_eq!(bus.writes, vec![(0x1E, vec![0x62, 0x00]), (0x1E, vec![0x62, 0x11])]);
    assert_eq!(delay.ns, vec![5000, 5000]);
}

#[test]
fn start_custom_address() {
    let mut d = Lis2mdl::new(
        MockBus::new(Vec::new(), usize::MAX),
        Address::from(0x19),
        MockDelay::new(),
    );
    assert!(d.start().is_ok());
    let (bus, _) = d.release();
    assert_eq!(bus.writes.len(), 4);
    assert!(bus.writes.iter().all(|w| w.0 == 0x19));
}

#[test]
fn whoami_returns_identity_byte() {
    let mut d = driver_with(vec![vec![0x40]], usize::MAX);
    let id = d.whoami().unwrap();
    assert_eq!(id, 0x40);
    let (bus, _) = d.release();
    assert_eq!(bus.transactions, vec![(0x1E, vec![0x4F], 1)]);
}

#[test]
fn get_register_reads_one_byte() {
    let mut d = driver_with(vec![vec![0xAB]], usize::MAX);
    assert_eq!(d.get_register(0x60).unwrap(), 0xAB);
    let (bus, _) = d.release();
    assert_eq!(bus.transactions, vec![(0x1E, vec![0x60], 1)]);
}

#[test]
fn get_register_propagates_failure() {
    let mut d = driver_with(vec![vec![0xAB]], 0);
    assert!(matches!(d.get_register(0x60), Err(Error::I2C(7))));
}

#[test]
fn set_register_writes_pair() {
    let mut d = driver_with(Vec::new(), usize::MAX);
    assert!(d.set_register(0x61, 0x20).is_ok());
    let (bus, _) = d.release();
    assert_eq!(bus.writes, vec![(0x1E, vec![0x61, 0x20])]);
}

#[test]
fn set_register_propagates_failure() {
    let mut d = driver_with(Vec::new(), 0);
    assert!(matches!(d.set_register(0x61, 0x20), Err(Error::I2C(7))));
}

#[test]
fn read_decodes_little_endian() {
    // x = -1000 (0xFC18), y = 100 (0x0064), z = -32768 (0x8000).
    let mut d = driver_with(vec![vec![0x18, 0xFC, 0x64, 0x00, 0x00, 0x80]], usize::MAX);
    assert!(d.read().is_ok());
    assert_eq!(d.raw_sample(), (-1000, 100, -32768));
    let (bus, _) = d.release();
    assert_eq!(bus.transactions, vec![(0x1E, vec![0x68], 6)]);
}

#[test]
fn read_failure_preserves_sample() {
    let mut d = driver_with(vec![vec![100, 0, 200, 0, 5, 0]], 1);
    assert!(d.read().is_ok());
    assert_eq!(d.raw_sample(), (100, 200, 5));
    // The bus budget is spent: the next transaction fails.
    assert!(matches!(d.read(), Err(Error::I2C(7))));
    assert_eq!(d.raw_sample(), (100, 200, 5));
}

#[test]
fn current_xyz_converts_each_axis() {
    let mut d = driver_with(vec![vec![100, 0, 200, 0, 0, 0]], usize::MAX);
    assert!(d.read().is_ok());
    let (x, y, z) = d.current_xyz();
    assert_eq!((x, y, z), (1500, 3000, 0));
    // In microtesla: (15.0, 30.0, 0.0), matching raw * 1.5 * 0.1 per axis.
    assert_eq!(x as f32 / 100.0, 100.0f32 * 1.5 * 0.1);
    assert_eq!(y as f32 / 100.0, 200.0f32 * 1.5 * 0.1);
    assert_eq!(x as f32 / 100.0, 15.0);
    assert_eq!(y as f32 / 100.0, 30.0);
    assert_eq!(z, 0);
}

#[test]
fn current_xyz_is_pure() {
    let mut d = driver_with(vec![vec![100, 0, 200, 0, 0, 0]], usize::MAX);
    assert!(d.read().is_ok());
    assert_eq!(d.current_xyz(), d.current_xyz());
    let (bus, _) = d.release();
    // Only the sample acquisition touched the bus.
    assert_eq!(bus.transactions.len(), 1);
}

#[test]
fn heading_convergence_on_static_input() {
    let mut d = driver_with(vec![vec![100, 0, 200, 0, 0, 0]], usize::MAX);
    assert!(d.read().is_ok());
    let v1 = d.heading_vector();
    // The windows converge to exactly the observed point after one call.
    assert_eq!(d.extrema(), (1500, 1500, 3000, 3000));
    // The point sits at the centre of its own window: the singular vector.
    assert_eq!(v1, (0, 0));
    let v2 = d.heading_vector();
    assert_eq!(d.extrema(), (1500, 1500, 3000, 3000));
    assert_eq!(v2, (0, 0));
}

#[test]
fn heading_extrema_monotone() {
    let responses = vec![
        vec![100, 0, 50, 0, 0, 0],
        vec![156, 255, 80, 0, 0, 0],  // x = -100, y = 80
        vec![10, 0, 206, 255, 0, 0],  // x = 10, y = -50
        vec![0, 0, 0, 0, 0, 0],
    ];
    let n = responses.len();
    let mut d = driver_with(responses, usize::MAX);
    let mut prev = (i32::MAX, i32::MIN, i32::MAX, i32::MIN);
    for _ in 0..n {
        assert!(d.read().is_ok());
        let _ = d.heading_vector();
        let e = d.extrema();
        assert!(e.0 <= prev.0);
        assert!(e.1 >= prev.1);
        assert!(e.2 <= prev.2);
        assert!(e.3 >= prev.3);
        prev = e;
    }
    assert_eq!(prev, (-1500, 1500, -750, 1200));
}

#[test]
fn heading_quadrant_sweep() {
    // Four points on the axes: raw 67 is 1005 centi-microtesla.
    let responses = vec![
        vec![67, 0, 0, 0, 0, 0],     // (x, y) = (67, 0)
        vec![189, 255, 0, 0, 0, 0],  // (x, y) = (-67, 0)
        vec![0, 0, 67, 0, 0, 0],     // (x, y) = (0, 67)
        vec![0, 0, 189, 255, 0, 0],  // (x, y) = (0, -67)
    ];
    let n = responses.len();
    let mut d = driver_with(responses, usize::MAX);
    let mut last = (0, 0);
    for _ in 0..n {
        assert!(d.read().is_ok());
        last = d.heading_vector();
    }
    assert_eq!(d.extrema(), (-1005, 1005, -1005, 1005));
    // Offsets are (0, 0); the final point (0, -1005) gives the vector
    // (0, -2010) and a heading of 270 degrees.
    assert_eq!(last, (0, -2010));
    let h = heading_degrees(last);
    assert!((h - 270.0).abs() < 0.01, "heading {}", h);
}

#[test]
fn heading_stays_in_range() {
    // A spread of samples; every non-singular vector must give a heading in
    // [0, 360) and never NaN.
    let responses = vec![
        vec![67, 0, 0, 0, 0, 0],
        vec![189, 255, 30, 0, 0, 0],
        vec![0, 0, 67, 0, 0, 0],
        vec![20, 0, 189, 255, 0, 0],
        vec![50, 0, 50, 0, 0, 0],
    ];
    let n = responses.len();
    let mut d = driver_with(responses, usize::MAX);
    for _ in 0..n {
        assert!(d.read().is_ok());
        let v = d.heading_vector();
        if v != (0, 0) {
            let h = heading_degrees(v);
            assert!(!h.is_nan());
            assert!((0.0..360.0).contains(&h), "heading {}", h);
        }
    }
}
