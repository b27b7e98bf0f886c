//! The space mapper: takes a physical position to the bounded coordinate
//! space the rendering layer consumes.
//!
//! The mapping is the pure, stateless per-axis division
//! `render = position / RADIUS_TO_TRANSLATION_RATIO`: positions in
//! nano-meters come out as render-space milli-units, so the divisor is
//! [`RENDER_DIVISOR_NANO`].  No clamping or bounds checking is performed;
//! callers keep physical distances within the ranges the registry demands.

use crate::body::SolarSystemObjectData;
use crate::numeric::tdiv;
use crate::RENDER_DIVISOR_NANO;
use vstd::prelude::*;

verus! {

/// Render-space milli-units of one axis of a nano-meter position.
pub open spec fn render_axis(p: int) -> int {
    tdiv(p, RENDER_DIVISOR_NANO as int)
}

/// A render-space position, in milli-units per axis.
#[derive(Clone, Copy, Debug, PartialEq, Eq, Structural)]
pub struct RenderCoordinates {
    pub x: i128,
    pub y: i128,
    pub z: i128,
}

/// One axis of the scale mapping.  The result is a pure function of the
/// position alone: `render_axis(p)`, with no hidden state.
pub fn render_coordinate(p: i128) -> (r: i128)
    requires
        p > i128::MIN,
    ensures
        r == render_axis(p as int),
{
    if p >= 0 {
        ((p as u128) / RENDER_DIVISOR_NANO) as i128
    } else {
        -((((-p) as u128) / RENDER_DIVISOR_NANO) as i128)
    }
}

/// The render-space position of a body's current physical position.
pub fn render_position(obj: &SolarSystemObjectData) -> (rc: RenderCoordinates)
    requires
        obj.position_x > i128::MIN,
        obj.position_y > i128::MIN,
        obj.position_z > i128::MIN,
    ensures
        rc.x == render_axis(obj.position_x as int),
        rc.y == render_axis(obj.position_y as int),
        rc.z == render_axis(obj.position_z as int),
{
    RenderCoordinates {
        x: render_coordinate(obj.position_x),
        y: render_coordinate(obj.position_y),
        z: render_coordinate(obj.position_z),
    }
}

} // verus!
