//! Integer vector geometry for the dungeon's world space.
//!
//! Positions and translations are triples of integers in a fixed-point unit
//! chosen by the caller. One cell edge spans two half-steps, so full-step
//! moves along an axis and half-step moves toward a cell face are both exact.

use vstd::prelude::*;

verus! {

/// A point or translation in world space, in half-step units.
///
/// The axes follow the rendering convention of the host: `x` grows to the
/// right, `y` grows upward, and the forward view axis is `-z`.
#[derive(Clone, Copy, Debug, PartialEq, Eq, Structural)]
pub struct Vec3i {
    pub x: i64,
    pub y: i64,
    pub z: i64,
}

/// A named translation relative to the current view axes.
///
/// `Forward`/`Backward` and `ShiftLeft`/`ShiftRight` are full-step moves
/// along one axis. `Up`, `Down`, `Left` and `Right` are the half-step
/// offsets that carry a cell's center onto one of its faces: they move half
/// a step toward the face and half a step along `+z`, mirroring how a cube's
/// faces are generated from its center.
#[derive(Clone, Copy, Debug, PartialEq, Eq, Structural)]
pub enum MoveDirection {
    Forward,
    Backward,
    Up,
    Down,
    Left,
    Right,
    ShiftLeft,
    ShiftRight,
}

/// The exact translation `move_by` performs, componentwise over the
/// unbounded integers; `h` is the half-step size.
pub open spec fn spec_move_by(p: Vec3i, d: MoveDirection, h: int) -> (int, int, int) {
    match d {
        MoveDirection::Forward => (p.x as int, p.y as int, p.z - 2 * h),
        MoveDirection::Backward => (p.x as int, p.y as int, p.z + 2 * h),
        MoveDirection::Up => (p.x as int, p.y + h, p.z + h),
        MoveDirection::Down => (p.x as int, p.y - h, p.z + h),
        MoveDirection::Left => (p.x - h, p.y as int, p.z + h),
        MoveDirection::Right => (p.x + h, p.y as int, p.z + h),
        MoveDirection::ShiftLeft => (p.x - 2 * h, p.y as int, p.z as int),
        MoveDirection::ShiftRight => (p.x + 2 * h, p.y as int, p.z as int),
    }
}

/// A spec-level vector from unbounded components; meaningful when each
/// component is representable.
pub open spec fn vec3_of(t: (int, int, int)) -> Vec3i {
    Vec3i { x: t.0 as i64, y: t.1 as i64, z: t.2 as i64 }
}

/// True when `v` is representable as an `i64`.
pub open spec fn in_i64(v: int) -> bool {
    i64::MIN <= v <= i64::MAX
}

/// True when the translation of `p` by `d` stays representable, so the
/// machine arithmetic of `move_by` cannot overflow.
pub open spec fn move_in_range(p: Vec3i, d: MoveDirection, h: int) -> bool {
    in_i64(spec_move_by(p, d, h).0) && in_i64(spec_move_by(p, d, h).1) && in_i64(
        spec_move_by(p, d, h).2,
    )
}

impl Vec3i {
    /// The origin of world space.
    pub fn zero() -> (r: Vec3i)
        ensures
            r == (Vec3i { x: 0i64, y: 0i64, z: 0i64 }),
    {
        Vec3i { x: 0, y: 0, z: 0 }
    }

    /// Translates `self` by the named direction at the given half-step size.
    ///
    /// A full-step direction moves by `2 * half_step` along one axis; a face
    /// offset moves by `half_step` on each of its two axes. The result is
    /// exactly `spec_move_by(self, d, half_step)`.
    pub fn move_by(self, d: MoveDirection, half_step: i64) -> (r: Vec3i)
        requires
            move_in_range(self, d, half_step as int),
        ensures
            r.x == spec_move_by(self, d, half_step as int).0,
            r.y == spec_move_by(self, d, half_step as int).1,
            r.z == spec_move_by(self, d, half_step as int).2,
    {
        let h = half_step;
        match d {
            // A full step is taken as two half steps: each intermediate value
            // lies between the start and the end, so it stays in range.
            MoveDirection::Forward => Vec3i { x: self.x, y: self.y, z: self.z - h - h },
            MoveDirection::Backward => Vec3i { x: self.x, y: self.y, z: self.z + h + h },
            MoveDirection::Up => Vec3i { x: self.x, y: self.y + h, z: self.z + h },
            MoveDirection::Down => Vec3i { x: self.x, y: self.y - h, z: self.z + h },
            MoveDirection::Left => Vec3i { x: self.x - h, y: self.y, z: self.z + h },
            MoveDirection::Right => Vec3i { x: self.x + h, y: self.y, z: self.z + h },
            MoveDirection::ShiftLeft => Vec3i { x: self.x - h - h, y: self.y, z: self.z },
            MoveDirection::ShiftRight => Vec3i { x: self.x + h + h, y: self.y, z: self.z },
        }
    }
}

} // verus!
