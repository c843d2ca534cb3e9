//! The AXS5106L driver: register protocol, frame intake, interrupt latch,
//! and the rotation-corrected coordinate query.

use vstd::prelude::*;
use crate::bus::TouchBus;
use crate::touch::{cleared, frame_applied, TouchData, FRAME_LEN};
use crate::transform::{coordinates_result, transform_point, Rotation};

verus! {

/// Fixed 7-bit bus address of the controller.
pub const AXS5106L_ADDR: u8 = 0x63;

/// Identity register, read as a 3-byte liveness probe.
pub const AXS5106L_ID_REG: u8 = 0x08;

/// Touch-data register, read as one `FRAME_LEN`-byte frame.
pub const AXS5106L_TOUCH_DATA_REG: u8 = 0x01;

/// Largest payload a register write may carry beside the address byte.
pub const MAX_WRITE_PAYLOAD: usize = 32;

/// The exact buffer a register write hands to the bus: the register
/// address byte followed by the payload body.
pub open spec fn write_frame(reg: u8, payload: Seq<u8>) -> Seq<u8> {
    seq![reg] + payload
}

/// Build the buffer a register write sends.
pub fn build_write_frame(reg: u8, payload: &[u8]) -> (r: Vec<u8>)
    requires
        payload@.len() <= MAX_WRITE_PAYLOAD,
    ensures
        r@ == write_frame(reg, payload@),
{
    let mut buffer: Vec<u8> = Vec::new();
    buffer.push(reg);
    proof {
        assert(buffer@ =~= seq![reg] + payload@.take(0));
    }
    let mut i: usize = 0;
    while i < payload.len()
        invariant
            i <= payload@.len() <= MAX_WRITE_PAYLOAD,
            buffer@ == seq![reg] + payload@.take(i as int),
        decreases payload@.len() - i,
    {
        buffer.push(payload[i]);
        i = i + 1;
        proof {
            assert(buffer@ =~= seq![reg] + payload@.take(i as int));
        }
    }
    proof {
        assert(payload@.take(payload@.len() as int) =~= payload@);
    }
    buffer
}

/// AXS5106L touch controller driver.
///
/// Owns its bus for its whole lifetime.  The rotation and panel size are
/// fixed at construction; the stored touch data is replaced wholesale by
/// each successful frame read and never partially updated.
pub struct Axs5106l<B> {
    bus: B,
    width: u16,
    height: u16,
    rotation: Rotation,
    touch_data: TouchData,
    touch_int_flag: bool,
}

impl<B: TouchBus> Axs5106l<B> {
    /// The bus the driver owns.
    pub closed spec fn bus(&self) -> B {
        self.bus
    }

    /// The configured panel width in pixels.
    pub closed spec fn width(&self) -> u16 {
        self.width
    }

    /// The configured panel height in pixels.
    pub closed spec fn height(&self) -> u16 {
        self.height
    }

    /// The configured mounting rotation.
    pub closed spec fn rotation(&self) -> Rotation {
        self.rotation
    }

    /// The most recently decoded touch data.
    pub closed spec fn touch_data(&self) -> TouchData {
        self.touch_data
    }

    /// The interrupt latch: true while a touch event awaits decoding.
    pub closed spec fn int_flag(&self) -> bool {
        self.touch_int_flag
    }

    /// Holds when the construction-time configuration carries over.
    pub open spec fn setup_kept(pre: Self, post: Self) -> bool {
        &&& post.width() == pre.width()
        &&& post.height() == pre.height()
        &&& post.rotation() == pre.rotation()
    }

    /// Holds when everything but the bus carries over.
    pub open spec fn core_state_kept(pre: Self, post: Self) -> bool {
        &&& Self::setup_kept(pre, post)
        &&& post.touch_data() == pre.touch_data()
        &&& post.int_flag() == pre.int_flag()
    }

    /// Create a driver for a panel of the given size and mounting rotation.
    pub fn new(bus: B, rotation: Rotation, width: u16, height: u16) -> (r: Self)
        ensures
            r.bus() == bus,
            r.rotation() == rotation,
            r.width() == width,
            r.height() == height,
            cleared(r.touch_data()),
            !r.int_flag(),
    {
        Self {
            bus,
            width,
            height,
            rotation,
            touch_data: TouchData::default(),
            touch_int_flag: false,
        }
    }

    /// Issue a combined transaction: write the register address `reg`, then
    /// read `len` bytes back.  Errors come from the bus unchanged.
    pub fn read_register(&mut self, reg: u8, len: usize) -> (r: Result<Vec<u8>, B::BusError>)
        ensures
            Self::core_state_kept(*old(self), *final(self)),
            r matches Ok(v) ==> v@.len() == len,
    {
        self.bus.bus_write_read(AXS5106L_ADDR, reg, len)
    }

    /// Write `payload` to the register `reg` as one transaction.  The bus
    /// is handed exactly `write_frame(reg, payload@)` — the register
    /// address byte followed by the payload body, `build_write_frame`'s
    /// proved result — and its errors come back unchanged.
    pub fn write_register(&mut self, reg: u8, payload: &[u8]) -> (r: Result<(), B::BusError>)
        requires
            payload@.len() <= MAX_WRITE_PAYLOAD,
        ensures
            Self::core_state_kept(*old(self), *final(self)),
    {
        let buffer = build_write_frame(reg, payload);
        self.bus.bus_write(AXS5106L_ADDR, buffer.as_slice())
    }

    /// Probe the identity register to verify the chip answers.
    ///
    /// The probe's 3-byte answer is read but not held against an expected
    /// identity: any answer is accepted, only a transport failure is
    /// reported.
    pub fn init(&mut self) -> (r: Result<(), B::BusError>)
        ensures
            Self::core_state_kept(*old(self), *final(self)),
    {
        match self.read_register(AXS5106L_ID_REG, 3) {
            Ok(_data) => Ok(()),
            Err(e) => Err(e),
        }
    }

    /// Arm the interrupt latch; idempotent when already armed.
    ///
    /// Safe to call from an interrupt context: no blocking, no I/O, no
    /// allocation.
    pub fn set_interrupt(&mut self)
        ensures
            final(self).int_flag(),
            final(self).touch_data() == old(self).touch_data(),
            final(self).bus() == old(self).bus(),
            Self::setup_kept(*old(self), *final(self)),
    {
        self.touch_int_flag = true;
    }

    /// Force the interrupt latch back to idle, whatever its state.
    pub fn clear_interrupt(&mut self)
        ensures
            !final(self).int_flag(),
            final(self).touch_data() == old(self).touch_data(),
            final(self).bus() == old(self).bus(),
            Self::setup_kept(*old(self), *final(self)),
    {
        self.touch_int_flag = false;
    }

    /// Whether a touch event is pending decode.
    pub fn has_interrupt(&self) -> (r: bool)
        ensures
            r == self.int_flag(),
    {
        self.touch_int_flag
    }

    /// Consume the latch and decode one frame from the controller.
    ///
    /// With the latch idle this is a true no-op: no bus access, no state
    /// change, and a successful return.  Otherwise the latch is cleared
    /// before the transaction is issued — an edge arriving during the
    /// transaction does not re-arm it and must be seen by a later polling
    /// pass (a known drop window) — and the stored touch data is replaced
    /// by the decoded frame.  A transport error is surfaced unchanged and
    /// leaves the touch data untouched; the latch stays cleared regardless.
    pub fn read_touch(&mut self) -> (r: Result<(), B::BusError>)
        ensures
            !final(self).int_flag(),
            Self::setup_kept(*old(self), *final(self)),
            !old(self).int_flag() ==> r is Ok && *final(self) == *old(self),
            old(self).int_flag() && r is Err ==> final(self).touch_data() == old(self).touch_data(),
            old(self).int_flag() && r is Ok ==> exists|f: Seq<u8>|
                f.len() == FRAME_LEN && frame_applied(
                    old(self).touch_data(),
                    f,
                    final(self).touch_data(),
                ),
    {
        if !self.touch_int_flag {
            return Ok(());
        }
        self.touch_int_flag = false;

        match self.read_register(AXS5106L_TOUCH_DATA_REG, FRAME_LEN) {
            Ok(frame) => {
                self.touch_data.apply_frame(frame.as_slice());
                proof {
                    let f = frame@;
                    assert(f.len() == FRAME_LEN && frame_applied(
                        old(self).touch_data(),
                        f,
                        self.touch_data,
                    ));
                }
                Ok(())
            },
            Err(e) => Err(e),
        }
    }

    /// Return a rotation-corrected copy of the stored touch data, or
    /// nothing exactly when no touches are active.
    ///
    /// The stored data is not changed, so repeated queries without an
    /// intervening frame read yield identical results.  Entries beyond the
    /// clamped count are copied as they are and carry no meaning.
    pub fn get_coordinates(&self) -> (r: Option<TouchData>)
        ensures
            coordinates_result(self.touch_data(), self.rotation(), self.width(), self.height(), r),
            r is None <==> self.touch_data().touch_num == 0,
    {
        if self.touch_data.touch_num == 0 {
            return None;
        }

        let mut transformed = self.touch_data;
        let count = self.touch_data.touch_num;
        let n: usize = if (count as usize) < crate::touch::MAX_TOUCH_POINTS {
            count as usize
        } else {
            crate::touch::MAX_TOUCH_POINTS
        };
        let mut i: usize = 0;
        while i < n
            invariant
                i <= n,
                n == crate::transform::active_points(self.touch_data().touch_num),
                transformed.touch_num == self.touch_data().touch_num,
                forall|j: int|
                    0 <= j < i ==> transformed.coords@[j] == crate::transform::transformed_point(
                        self.rotation(),
                        self.width(),
                        self.height(),
                        self.touch_data().coords@[j],
                    ),
                forall|j: int|
                    i <= j < crate::touch::MAX_TOUCH_POINTS ==> transformed.coords@[j]
                        == self.touch_data().coords@[j],
            decreases n - i,
        {
            let c = self.touch_data.coords[i];
            transformed.coords[i] = transform_point(self.rotation, self.width, self.height, c);
            i = i + 1;
        }
        Some(transformed)
    }

    /// The touch count exactly as the sensor last reported it.
    pub fn touch_count(&self) -> (r: u8)
        ensures
            r == self.touch_data().touch_num,
    {
        self.touch_data.touch_num
    }

    /// Whether the last decoded frame reported any touches.
    pub fn has_touches(&self) -> (r: bool)
        ensures
            r == (self.touch_data().touch_num > 0),
    {
        self.touch_data.touch_num > 0
    }
}

} // verus!
