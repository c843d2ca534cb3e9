use std::cell::RefCell;
use std::rc::Rc;

use axs5106l::transform::transform_point;
use axs5106l::{Axs5106l, Coordinates, Rotation, TouchBus, TouchData};

#[derive(Default)]
struct BusLog {
    replies: Vec<Result<Vec<u8>, u8>>,
    reads: Vec<(u8, u8, usize)>,
    writes: Vec<(u8, Vec<u8>)>,
}

struct ScriptBus(Rc<RefCell<BusLog>>);

impl TouchBus for ScriptBus {
    type BusError = u8;

    fn bus_write_read(&mut self, addr: u8, reg: u8, len: usize) -> Result<Vec<u8>, u8> {
        let mut log = self.0.borrow_mut();
        log.reads.push((addr, reg, len));
        assert!(!log.replies.is_empty(), "unscripted bus read");
        match log.replies.remove(0) {
            Ok(mut v) => {
                v.resize(len, 0);
                Ok(v)
            }
            Err(e) => Err(e),
        }
    }

    fn bus_write(&mut self, addr: u8, bytes: &[u8]) -> Result<(), u8> {
        self.0.borrow_mut().writes.push((addr, bytes.to_vec()));
        Ok(())
    }
}

fn driver(rotation: Rotation) -> (Axs5106l<ScriptBus>, Rc<RefCell<BusLog>>) {
    let log = Rc::new(RefCell::new(BusLog::default()));
    let d = Axs5106l::new(ScriptBus(log.clone()), rotation, 172, 320);
    (d, log)
}

fn frame14(count: u8, points: &[(u16, u16)]) -> Vec<u8> {
    let mut f = vec![0u8; 14];
    f[1] = count;
    // Two whole 6-byte records fit after the header.
    for (i, &(x, y)) in points.iter().enumerate().take(2) {
        let base = 2 + i * 6;
        f[base] = (x >> 8) as u8;
        f[base + 1] = (x & 0xFF) as u8;
        f[base + 2] = (y >> 8) as u8;
        f[base + 3] = (y & 0xFF) as u8;
    }
    f
}

fn same_data(a: &TouchData, b: &TouchData) -> bool {
    a.touch_num == b.touch_num
        && (0..5).all(|i| a.coords[i].x == b.coords[i].x && a.coords[i].y == b.coords[i].y)
}

#[test]
fn new_driver_is_idle_and_empty() {
    let (d, log) = driver(Rotation::Rotate0);
    assert!(!d.has_interrupt());
    assert_eq!(d.touch_count(), 0);
    assert!(!d.has_touches());
    assert!(d.get_coordinates().is_none());
    assert!(log.borrow().reads.is_empty());
}

#[test]
fn init_probes_identity_register() {
    let (mut d, log) = driver(Rotation::Rotate0);
    log.borrow_mut().replies.push(Ok(vec![0x51, 0x06, 0x01]));
    assert!(d.init().is_ok());
    assert_eq!(log.borrow().reads.as_slice(), &[(0x63, 0x08, 3)]);
}

#[test]
fn init_propagates_bus_error() {
    let (mut d, log) = driver(Rotation::Rotate0);
    log.borrow_mut().replies.push(Err(7));
    assert_eq!(d.init(), Err(7));
}

#[test]
fn latch_follows_set_and_clear() {
    let (mut d, _log) = driver(Rotation::Rotate0);
    assert!(!d.has_interrupt());
    d.set_interrupt();
    assert!(d.has_interrupt());
    d.set_interrupt();
    assert!(d.has_interrupt());
    d.clear_interrupt();
    assert!(!d.has_interrupt());
    d.clear_interrupt();
    assert!(!d.has_interrupt());
}

#[test]
fn read_touch_consumes_latch() {
    let (mut d, log) = driver(Rotation::Rotate0);
    log.borrow_mut().replies.push(Ok(frame14(1, &[(5, 6)])));
    d.set_interrupt();
    assert!(d.read_touch().is_ok());
    assert!(!d.has_interrupt());
}

#[test]
fn idle_read_touch_is_a_noop() {
    let (mut d, log) = driver(Rotation::Rotate0);
    log.borrow_mut().replies.push(Ok(frame14(2, &[(291, 69), (30, 40)])));
    d.set_interrupt();
    assert!(d.read_touch().is_ok());
    let before = d.get_coordinates().unwrap();
    let reads_before = log.borrow().reads.len();

    // Latch is idle now: no transaction, stored data untouched.
    assert!(d.read_touch().is_ok());
    assert_eq!(log.borrow().reads.len(), reads_before);
    assert_eq!(d.touch_count(), 2);
    let after = d.get_coordinates().unwrap();
    assert!(same_data(&before, &after));
}

#[test]
fn coordinates_none_iff_count_zero() {
    for count in 0u8..=5 {
        let (mut d, log) = driver(Rotation::Rotate90);
        let points = vec![(100u16, 200u16); count as usize];
        log.borrow_mut().replies.push(Ok(frame14(count, &points)));
        d.set_interrupt();
        assert!(d.read_touch().is_ok());
        assert_eq!(d.get_coordinates().is_none(), count == 0);
        assert_eq!(d.has_touches(), count != 0);
    }
}

#[test]
fn rotate0_clamps_at_zero() {
    let (mut d, log) = driver(Rotation::Rotate0);
    log.borrow_mut().replies.push(Ok(vec![
        0, 1, 0x01, 0x23, 0x00, 0x45, 0, 0, 0, 0, 0, 0, 0, 0,
    ]));
    d.set_interrupt();
    assert!(d.read_touch().is_ok());
    let td = d.get_coordinates().unwrap();
    // width 172: 171 - 291 saturates to 0.
    assert_eq!(td.coords[0].x, 0);
    assert_eq!(td.coords[0].y, 69);
}

#[test]
fn rotate90_swaps_axes() {
    let (mut d, log) = driver(Rotation::Rotate90);
    log.borrow_mut().replies.push(Ok(vec![
        0, 1, 0x01, 0x23, 0x00, 0x45, 0, 0, 0, 0, 0, 0, 0, 0,
    ]));
    d.set_interrupt();
    assert!(d.read_touch().is_ok());
    let td = d.get_coordinates().unwrap();
    assert_eq!(td.coords[0].x, 69);
    assert_eq!(td.coords[0].y, 291);
}

#[test]
fn rotate180_mirrors_y() {
    let r = transform_point(Rotation::Rotate180, 172, 320, Coordinates { x: 291, y: 69 });
    assert_eq!(r.x, 291);
    assert_eq!(r.y, 250);
}

#[test]
fn rotate270_mirrors_both() {
    let r = transform_point(Rotation::Rotate270, 172, 320, Coordinates { x: 291, y: 69 });
    assert_eq!(r.x, 28);
    assert_eq!(r.y, 102);
}

#[test]
fn transform_copies_stale_entries() {
    let (mut d, log) = driver(Rotation::Rotate90);
    {
        let mut l = log.borrow_mut();
        l.replies.push(Ok(frame14(2, &[(291, 69), (100, 200)])));
        l.replies.push(Ok(frame14(1, &[(7, 8)])));
    }
    d.set_interrupt();
    assert!(d.read_touch().is_ok());
    d.set_interrupt();
    assert!(d.read_touch().is_ok());

    let td = d.get_coordinates().unwrap();
    assert_eq!(td.touch_num, 1);
    // The single active point is swapped.
    assert_eq!(td.coords[0].x, 8);
    assert_eq!(td.coords[0].y, 7);
    // The stale entry behind it is copied as it is, not remapped.
    assert_eq!(td.coords[1].x, 100);
    assert_eq!(td.coords[1].y, 200);
}

#[test]
fn count_above_capacity_transforms_all_entries() {
    let (mut d, log) = driver(Rotation::Rotate0);
    log.borrow_mut().replies.push(Ok(frame14(6, &[(10, 20), (30, 40)])));
    d.set_interrupt();
    assert!(d.read_touch().is_ok());
    assert_eq!(d.touch_count(), 6);
    let td = d.get_coordinates().unwrap();
    assert_eq!(td.touch_num, 6);
    assert_eq!(td.coords[0].x, 161);
    assert_eq!(td.coords[0].y, 20);
    assert_eq!(td.coords[1].x, 141);
    assert_eq!(td.coords[1].y, 40);
    // The three never-decoded entries still hold zero and are remapped too.
    for i in 2..5 {
        assert_eq!(td.coords[i].x, 171);
        assert_eq!(td.coords[i].y, 0);
    }
}

#[test]
fn coordinates_query_is_idempotent() {
    let (mut d, log) = driver(Rotation::Rotate270);
    log.borrow_mut().replies.push(Ok(frame14(2, &[(291, 69), (3, 4)])));
    d.set_interrupt();
    assert!(d.read_touch().is_ok());
    let first = d.get_coordinates().unwrap();
    let second = d.get_coordinates().unwrap();
    assert!(same_data(&first, &second));
    assert_eq!(d.touch_count(), 2);
}

#[test]
fn bus_error_leaves_data_and_clears_latch() {
    let (mut d, log) = driver(Rotation::Rotate0);
    {
        let mut l = log.borrow_mut();
        l.replies.push(Ok(frame14(1, &[(50, 60)])));
        l.replies.push(Err(9));
    }
    d.set_interrupt();
    assert!(d.read_touch().is_ok());
    let before = d.get_coordinates().unwrap();

    d.set_interrupt();
    assert_eq!(d.read_touch(), Err(9));
    assert!(!d.has_interrupt());
    assert_eq!(d.touch_count(), 1);
    let after = d.get_coordinates().unwrap();
    assert!(same_data(&before, &after));
}

#[test]
fn read_touch_uses_touch_data_register() {
    let (mut d, log) = driver(Rotation::Rotate0);
    log.borrow_mut().replies.push(Ok(frame14(0, &[])));
    d.set_interrupt();
    assert!(d.read_touch().is_ok());
    assert_eq!(log.borrow().reads.as_slice(), &[(0x63, 0x01, 14)]);
}

#[test]
fn write_frame_is_address_then_payload() {
    let buf = axs5106l::driver::build_write_frame(0x10, &[1, 2, 3]);
    assert_eq!(buf, vec![0x10, 1, 2, 3]);
    let empty = axs5106l::driver::build_write_frame(0x2A, &[]);
    assert_eq!(empty, vec![0x2A]);
}

#[test]
fn write_register_prefixes_register_address() {
    let (mut d, log) = driver(Rotation::Rotate0);
    assert!(d.write_register(0x10, &[1, 2, 3]).is_ok());
    let log = log.borrow();
    assert_eq!(log.writes.len(), 1);
    assert_eq!(log.writes[0].0, 0x63);
    assert_eq!(log.writes[0].1, vec![0x10, 1, 2, 3]);
}

#[test]
fn write_register_accepts_largest_payload() {
    let (mut d, log) = driver(Rotation::Rotate0);
    let payload = [0x5Au8; 32];
    assert!(d.write_register(0x20, &payload).is_ok());
    let log = log.borrow();
    assert_eq!(log.writes[0].1.len(), 33);
    assert_eq!(log.writes[0].1[0], 0x20);
    assert!(log.writes[0].1[1..].iter().all(|&b| b == 0x5A));
}
