//! Fixed-point scene units and angles.
//!
//! All geometry in this crate is measured in micro-units: one scene unit is
//! `MICRO_PER_UNIT` micro-units. Angles are measured in microdegrees. Both
//! choices make every constant of the clock (hand lengths, tick sizes, the
//! degree steps of the three hands) an exact integer, so contracts can state
//! results exactly. The unverified shell divides by `MICRO_PER_UNIT` when it
//! hands values to the graphics API.

use vstd::arithmetic::div_mod::lemma_mod_multiples_vanish;
use vstd::prelude::*;

verus! {

/// Micro-units in one scene unit.
pub const MICRO_PER_UNIT: i64 = 1_000_000;

/// Microdegrees in a full turn.
pub const FULL_TURN_MICRO_DEG: u64 = 360_000_000;

/// A point, direction or color with micro-unit components.
#[derive(Clone, Copy, Debug, PartialEq, Eq, Structural)]
pub struct MicroVec3 {
    pub x: i64,
    pub y: i64,
    pub z: i64,
}

impl MicroVec3 {
    pub fn new(x: i64, y: i64, z: i64) -> (v: MicroVec3)
        ensures
            v == (MicroVec3 { x, y, z }),
    {
        MicroVec3 { x, y, z }
    }
}

/// A plane point with micro-unit components, used for texture coordinates.
#[derive(Clone, Copy, Debug, PartialEq, Eq, Structural)]
pub struct MicroVec2 {
    pub x: i64,
    pub y: i64,
}

impl MicroVec2 {
    pub fn new(x: i64, y: i64) -> (v: MicroVec2)
        ensures
            v == (MicroVec2 { x, y }),
    {
        MicroVec2 { x, y }
    }
}

/// A part's placement, kept as the three factors of its transform matrix.
///
/// The matrix is the rotation about Z times the translation times the
/// scale, in that order, so local geometry is scaled first, then moved,
/// then swung about the origin — translating before rotating is what makes
/// a translated part sweep around the clock center as the angle changes,
/// instead of spinning in place. `rotation_micro_deg` is the angle handed
/// to the rotation, positive counterclockwise in screen space.
#[derive(Clone, Copy, Debug, PartialEq, Eq, Structural)]
pub struct Transform {
    pub rotation_micro_deg: i64,
    pub translation: MicroVec3,
    pub scale: MicroVec3,
}

/// An angle reduced to less than one turn.
pub open spec fn normalized_micro_deg(deg: int) -> int {
    deg % (FULL_TURN_MICRO_DEG as int)
}

/// Reduces an angle in microdegrees to less than one turn.
pub fn normalize_micro_deg(deg: u64) -> (r: u64)
    ensures
        r == normalized_micro_deg(deg as int),
        r < FULL_TURN_MICRO_DEG,
{
    deg % FULL_TURN_MICRO_DEG
}

/// Adding a full turn to an angle does not change its reduced value.
pub proof fn lemma_full_turn_preserves_angle(deg: int)
    ensures
        normalized_micro_deg(deg + FULL_TURN_MICRO_DEG) == normalized_micro_deg(deg),
{
    lemma_mod_multiples_vanish(1, deg, FULL_TURN_MICRO_DEG as int);
}

} // verus!
