//! Rotation-dependent remapping from sensor space to display space.
//!
//! The four arms below are a fixed table, not a derived rotation matrix: for
//! the 90-degree and 270-degree mountings the sensor panel's native axes are
//! swapped relative to the framebuffer, so width and height cross between
//! the arms.  All subtraction saturates at zero.

use vstd::prelude::*;
use crate::touch::{Coordinates, TouchData, MAX_TOUCH_POINTS};

verus! {

/// The physical mounting rotation of the display, fixed at construction.
#[derive(Clone, Copy)]
pub enum Rotation {
    Rotate0,
    Rotate90,
    Rotate180,
    Rotate270,
}

/// Where one raw sensor point lands in display space under `rotation`, on a
/// panel of the given width and height.
pub open spec fn transformed_point(
    rotation: Rotation,
    width: u16,
    height: u16,
    c: Coordinates,
) -> Coordinates {
    match rotation {
        Rotation::Rotate0 => Coordinates {
            x: width.saturating_sub(1).saturating_sub(c.x),
            y: c.y,
        },
        Rotation::Rotate90 => Coordinates { x: c.y, y: c.x },
        Rotation::Rotate180 => Coordinates {
            x: c.x,
            y: height.saturating_sub(1).saturating_sub(c.y),
        },
        Rotation::Rotate270 => Coordinates {
            x: height.saturating_sub(1).saturating_sub(c.x),
            y: width.saturating_sub(1).saturating_sub(c.y),
        },
    }
}

/// Map one raw sensor point into display space.
pub fn transform_point(rotation: Rotation, width: u16, height: u16, c: Coordinates) -> (r:
    Coordinates)
    ensures
        r == transformed_point(rotation, width, height, c),
{
    match rotation {
        Rotation::Rotate0 => Coordinates {
            x: width.saturating_sub(1).saturating_sub(c.x),
            y: c.y,
        },
        Rotation::Rotate90 => Coordinates { x: c.y, y: c.x },
        Rotation::Rotate180 => Coordinates {
            x: c.x,
            y: height.saturating_sub(1).saturating_sub(c.y),
        },
        Rotation::Rotate270 => Coordinates {
            x: height.saturating_sub(1).saturating_sub(c.x),
            y: width.saturating_sub(1).saturating_sub(c.y),
        },
    }
}

/// How many entries the transform rewrites: the reported count clamped to
/// the stored capacity.
pub open spec fn active_points(count: u8) -> int {
    if count < MAX_TOUCH_POINTS {
        count as int
    } else {
        MAX_TOUCH_POINTS as int
    }
}

/// Relates stored touch data to its transformed copy: the count carries
/// over, each active entry is remapped, and stale entries beyond the clamped
/// count are copied as they are.
pub open spec fn transformed_data(
    td: TouchData,
    rotation: Rotation,
    width: u16,
    height: u16,
    out: TouchData,
) -> bool {
    &&& out.touch_num == td.touch_num
    &&& forall|i: int|
        0 <= i < active_points(td.touch_num) ==> out.coords@[i] == transformed_point(
            rotation,
            width,
            height,
            td.coords@[i],
        )
    &&& forall|i: int|
        active_points(td.touch_num) <= i < MAX_TOUCH_POINTS ==> out.coords@[i] == td.coords@[i]
}

/// What a coordinate query yields from stored touch data: nothing exactly
/// when no touches are active, otherwise a transformed copy.
pub open spec fn coordinates_result(
    td: TouchData,
    rotation: Rotation,
    width: u16,
    height: u16,
    r: Option<TouchData>,
) -> bool {
    match r {
        Option::None => td.touch_num == 0,
        Option::Some(out) => td.touch_num != 0 && transformed_data(td, rotation, width, height, out),
    }
}

/// A coordinate query is a pure function of the stored state: any two
/// results allowed for the same state, rotation and panel size are equal.
/// Querying twice without an intervening decode therefore yields identical
/// results.
pub proof fn lemma_coordinates_result_unique(
    td: TouchData,
    rotation: Rotation,
    width: u16,
    height: u16,
    r1: Option<TouchData>,
    r2: Option<TouchData>,
)
    requires
        coordinates_result(td, rotation, width, height, r1),
        coordinates_result(td, rotation, width, height, r2),
    ensures
        r1 == r2,
{
    broadcast use vstd::array::group_array_axioms;

    match (r1, r2) {
        (Option::Some(a), Option::Some(b)) => {
            assert(a.coords =~= b.coords);
            assert(a == b);
        },
        _ => {},
    }
}

} // verus!
