//! Touch data model and raw-frame decoding.
//!
//! A frame is the fixed-size block read from the touch-data register:
//! a status byte, a count byte, and one 6-byte record per touch point.
//! Each record carries a 12-bit x and a 12-bit y value (high nibble first,
//! then a low byte); the trailing two bytes of a record are not decoded.

use vstd::prelude::*;

verus! {

/// Maximum number of touch points the driver stores.
pub const MAX_TOUCH_POINTS: usize = 5;

/// Length in bytes of the block read from the touch-data register.
pub const FRAME_LEN: usize = 14;

/// One touch point, in sensor or display coordinates.
#[derive(Clone, Copy)]
pub struct Coordinates {
    pub x: u16,
    pub y: u16,
}

/// The most recently decoded touch frame.
///
/// Entries of `coords` at index `>= touch_num` are stale: they keep the last
/// value written and carry no meaning.  `touch_num` is stored exactly as the
/// sensor reported it and may exceed `MAX_TOUCH_POINTS`; only the decoding
/// loop clamps its own iteration bound.
#[derive(Clone, Copy)]
pub struct TouchData {
    pub coords: [Coordinates; 5],
    pub touch_num: u8,
}

impl Default for Coordinates {
    /// The origin point.
    fn default() -> (r: Self)
        ensures
            r == (Coordinates { x: 0, y: 0 }),
    {
        Coordinates { x: 0, y: 0 }
    }
}

/// Holds when every stored point is at the origin and no touches are active.
pub open spec fn cleared(td: TouchData) -> bool {
    &&& td.touch_num == 0
    &&& forall|i: int|
        0 <= i < MAX_TOUCH_POINTS ==> td.coords@[i] == (Coordinates { x: 0, y: 0 })
}

impl Default for TouchData {
    /// No touches, all points at the origin.
    fn default() -> (r: Self)
        ensures
            cleared(r),
    {
        let coords: [Coordinates; 5] = [Coordinates { x: 0, y: 0 }; 5];
        TouchData { coords, touch_num: 0 }
    }
}

/// The 12-bit value held by a record's high-nibble byte and low byte.
pub open spec fn decoded_axis(hi: u8, lo: u8) -> u16 {
    (((hi & 0x0F) as u16) << 8) | (lo as u16)
}

/// The `i`-th point recorded in a frame.
pub open spec fn frame_point(frame: Seq<u8>, i: int) -> Coordinates {
    Coordinates {
        x: decoded_axis(frame[2 + 6 * i], frame[3 + 6 * i]),
        y: decoded_axis(frame[4 + 6 * i], frame[5 + 6 * i]),
    }
}

/// Raw sensor axes are 12-bit: whatever bytes a frame holds, a decoded
/// point never exceeds 4095 on either axis.
pub proof fn lemma_frame_point_is_12_bit(frame: Seq<u8>, i: int)
    ensures
        frame_point(frame, i).x < 4096,
        frame_point(frame, i).y < 4096,
{
    let hi_x = frame[2 + 6 * i];
    let lo_x = frame[3 + 6 * i];
    let hi_y = frame[4 + 6 * i];
    let lo_y = frame[5 + 6 * i];
    assert((((hi_x & 0x0F) as u16) << 8) | (lo_x as u16) < 4096) by (bit_vector);
    assert((((hi_y & 0x0F) as u16) << 8) | (lo_y as u16) < 4096) by (bit_vector);
}

/// How many whole 6-byte point records a frame of `frame_len` bytes holds
/// after its two header bytes.
pub open spec fn fitting_points(frame_len: int) -> int {
    if frame_len >= 2 {
        (frame_len - 2) / 6
    } else {
        0
    }
}

/// How many points the decoder writes for a reported `count`: the count,
/// clamped both to the stored capacity and to the records the frame holds.
pub open spec fn decoded_points(count: u8, frame_len: int) -> int {
    let cap = if count < MAX_TOUCH_POINTS { count as int } else { MAX_TOUCH_POINTS as int };
    let fit = fitting_points(frame_len);
    if cap < fit {
        cap
    } else {
        fit
    }
}

/// Relates touch state before and after decoding a frame: the raw count byte
/// is stored unclamped, the first `decoded_points` entries hold the frame's
/// records, and every other entry keeps its previous (stale) value.
pub open spec fn frame_applied(prev: TouchData, frame: Seq<u8>, cur: TouchData) -> bool {
    &&& cur.touch_num == frame[1]
    &&& forall|i: int|
        0 <= i < decoded_points(frame[1], frame.len() as int) ==> cur.coords@[i] == frame_point(
            frame,
            i,
        )
    &&& forall|i: int|
        decoded_points(frame[1], frame.len() as int) <= i < MAX_TOUCH_POINTS ==> cur.coords@[i]
            == prev.coords@[i]
}

impl TouchData {
    /// Decode a raw frame in place.
    ///
    /// The count byte is stored exactly as reported, with no bounds check;
    /// when it is zero, or exceeds what fits, the remaining entries are left
    /// untouched rather than cleared.
    pub fn apply_frame(&mut self, frame: &[u8])
        requires
            frame@.len() >= 2,
        ensures
            frame_applied(*old(self), frame@, *final(self)),
            forall|i: int|
                0 <= i < decoded_points(frame@[1], frame@.len() as int)
                    ==> final(self).coords@[i].x < 4096 && final(self).coords@[i].y < 4096,
    {
        let count = frame[1];
        self.touch_num = count;
        let cap: usize = if (count as usize) < MAX_TOUCH_POINTS {
            count as usize
        } else {
            MAX_TOUCH_POINTS
        };
        let fit: usize = (frame.len() - 2) / 6;
        let n: usize = if cap < fit {
            cap
        } else {
            fit
        };
        proof {
            assert(6 * ((frame@.len() - 2) as int / 6) <= (frame@.len() - 2) as int)
                by (nonlinear_arith);
        }
        let mut i: usize = 0;
        while i < n
            invariant
                i <= n,
                n <= MAX_TOUCH_POINTS,
                n <= fitting_points(frame@.len() as int),
                frame@.len() >= 2,
                6 * fitting_points(frame@.len() as int) <= frame@.len() - 2,
                n == decoded_points(frame@[1], frame@.len() as int),
                self.touch_num == frame@[1],
                forall|j: int| 0 <= j < i ==> self.coords@[j] == frame_point(frame@, j),
                forall|j: int|
                    i <= j < MAX_TOUCH_POINTS ==> self.coords@[j] == old(self).coords@[j],
            decreases n - i,
        {
            let base = 2 + i * 6;
            let x = (((frame[base] & 0x0F) as u16) << 8) | (frame[base + 1] as u16);
            let y = (((frame[base + 2] & 0x0F) as u16) << 8) | (frame[base + 3] as u16);
            self.coords[i] = Coordinates { x, y };
            i = i + 1;
        }
        proof {
            assert forall|j: int|
                0 <= j < decoded_points(frame@[1], frame@.len() as int) implies self.coords@[j].x
                < 4096 && self.coords@[j].y < 4096 by {
                lemma_frame_point_is_12_bit(frame@, j);
            }
        }
    }
}

} // verus!
