//! Materialization of wall slots into oriented, positioned surfaces.
//!
//! One `(cell center, wall slot)` pair becomes a [`Placement`] — world
//! position, rotation and material class — plus a [`Layout`] tag recording
//! the surface's visibility depth. Absent slots produce nothing: missing
//! walls are holes in the topology, not hidden geometry.

use vstd::prelude::*;
use vstd::arithmetic::div_mod::lemma_div_multiples_vanish_fancy;
use vstd::arithmetic::div_mod::lemma_fundamental_div_mod;

use crate::geometry::MoveDirection;
use crate::geometry::Vec3i;
use crate::geometry::move_in_range;
use crate::geometry::vec3_of;
use crate::geometry::spec_move_by;
use crate::labyrinth::Cell;
use crate::labyrinth::GRID_CELLS;
use crate::labyrinth::Labyrinth;
use crate::labyrinth::Position;
use crate::labyrinth::coord_at;
use crate::labyrinth::slot_at;

verus! {

/// The material class of a materialized surface.
#[derive(Clone, Copy, Debug, PartialEq, Eq, Structural)]
pub enum MaterialClass {
    Wall,
    Floor,
    Ceiling,
}

/// The rotation of a materialized surface. Wall slots only ever face one of
/// the six axis-aligned directions, so a rotation is always a quarter- or
/// half-turn about a single axis, never an arbitrary angle.
#[derive(Clone, Copy, Debug, PartialEq, Eq, Structural)]
pub enum SurfaceRotation {
    /// No rotation: the surface faces `+z`.
    Identity,
    /// A quarter turn (+90 degrees) about the vertical `y` axis.
    QuarterTurnY,
    /// A quarter turn backwards (-90 degrees) about the vertical `y` axis.
    NegQuarterTurnY,
    /// A half turn (180 degrees) about the vertical `y` axis.
    HalfTurnY,
    /// A quarter turn (+90 degrees) about the `x` axis.
    QuarterTurnX,
    /// A quarter turn backwards (-90 degrees) about the `x` axis.
    NegQuarterTurnX,
}

/// The resolved position, rotation and material for one surface.
#[derive(Clone, Copy, Debug, PartialEq, Eq, Structural)]
pub struct Placement {
    pub position: Vec3i,
    pub rotation: SurfaceRotation,
    pub material: MaterialClass,
}

/// The visibility-bookkeeping tag attached to a materialized surface:
/// how many cells forward of the world origin its room lies, and which
/// wall slot it fills.
#[derive(Clone, Copy, Debug, PartialEq, Eq, Structural)]
pub struct Layout {
    pub depth: u64,
    pub position: Position,
}

/// A request to materialize one surface: the cell center it belongs to, the
/// offset direction of its face (none for the forward-facing wall), and the
/// slot it fills.
#[derive(Clone, Copy, Debug, PartialEq, Eq, Structural)]
pub struct SpawnSurfaceCommand {
    pub position: Vec3i,
    pub direction: Option<MoveDirection>,
    pub position_id: Position,
}

/// The offset direction of each wall slot: the forward-facing wall sits at
/// the cell center, every other slot is half a step toward its face.
pub open spec fn spec_slot_direction(p: Position) -> Option<MoveDirection> {
    match p {
        Position::Center => None,
        Position::Right => Some(MoveDirection::Right),
        Position::Left => Some(MoveDirection::Left),
        Position::Back => Some(MoveDirection::Backward),
        Position::Floor => Some(MoveDirection::Down),
        Position::Ceiling => Some(MoveDirection::Up),
    }
}

/// Evaluates the slot-to-direction table.
pub fn slot_direction(p: Position) -> (d: Option<MoveDirection>)
    ensures
        d == spec_slot_direction(p),
{
    match p {
        Position::Center => None,
        Position::Right => Some(MoveDirection::Right),
        Position::Left => Some(MoveDirection::Left),
        Position::Back => Some(MoveDirection::Backward),
        Position::Floor => Some(MoveDirection::Down),
        Position::Ceiling => Some(MoveDirection::Up),
    }
}

/// The rotation a surface receives for its offset direction. No other
/// slot/rotation combination is valid.
pub open spec fn spec_surface_rotation(d: Option<MoveDirection>) -> SurfaceRotation {
    match d {
        Some(MoveDirection::Right) => SurfaceRotation::NegQuarterTurnY,
        Some(MoveDirection::Left) => SurfaceRotation::QuarterTurnY,
        Some(MoveDirection::Up) => SurfaceRotation::QuarterTurnX,
        Some(MoveDirection::Down) => SurfaceRotation::NegQuarterTurnX,
        Some(MoveDirection::Backward) => SurfaceRotation::HalfTurnY,
        _ => SurfaceRotation::Identity,
    }
}

/// The material class a surface receives for its offset direction: the
/// ceiling and floor have materials of their own, all other slots are walls.
pub open spec fn spec_surface_material(d: Option<MoveDirection>) -> MaterialClass {
    match d {
        Some(MoveDirection::Up) => MaterialClass::Ceiling,
        Some(MoveDirection::Down) => MaterialClass::Floor,
        _ => MaterialClass::Wall,
    }
}

/// The world position of a surface: the cell center itself for the
/// forward-facing wall, otherwise the center offset by the slot's direction.
pub open spec fn spec_surface_position(c: Vec3i, d: Option<MoveDirection>, h: int) -> (int, int, int) {
    match d {
        None => (c.x as int, c.y as int, c.z as int),
        Some(dir) => spec_move_by(c, dir, h),
    }
}

/// The visibility depth of a surface at forward coordinate `z`: `-z / size`
/// rounded to the nearest integer (halves rounded up) and clamped to zero.
/// Surfaces at or behind the world origin have depth 0.
pub open spec fn spec_depth(z: int, size: int) -> int
    recommends
        size >= 1,
{
    if z >= 0 {
        0
    } else {
        (2 * -z + size) / (2 * size)
    }
}

/// Computes the visibility depth of a surface.
pub fn depth_of(z: i64, size: i64) -> (d: u64)
    requires
        1 <= size,
        z > i64::MIN,
    ensures
        d == spec_depth(z as int, size as int),
{
    if z >= 0 {
        0
    } else {
        let n = (-z) as u64;
        let s = size as u64;
        let q = n / s;
        let r = n % s;
        proof {
            let ni = n as int;
            let si = s as int;
            let qi = ni / si;
            let ri = ni % si;
            lemma_fundamental_div_mod(ni, si);
            if 2 * ri >= si {
                assert(2 * si * (qi + 1) + (2 * ri - si) == 2 * ni + si) by (nonlinear_arith)
                    requires
                        ni == si * qi + ri,
                ;
                lemma_div_multiples_vanish_fancy(qi + 1, 2 * ri - si, 2 * si);
            } else {
                assert(2 * si * qi + (2 * ri + si) == 2 * ni + si) by (nonlinear_arith)
                    requires
                        ni == si * qi + ri,
                ;
                lemma_div_multiples_vanish_fancy(qi, 2 * ri + si, 2 * si);
            }
        }
        if s - r <= r {
            q + 1
        } else {
            q
        }
    }
}

/// The command `materialize` issues for a cell center and a slot.
pub open spec fn spec_materialize_cmd(c: Vec3i, slot: Position) -> SpawnSurfaceCommand {
    SpawnSurfaceCommand { position: c, direction: spec_slot_direction(slot), position_id: slot }
}

/// The placement and layout tag a command resolves to.
pub open spec fn spec_apply(cmd: SpawnSurfaceCommand, h: int) -> (Placement, Layout) {
    let pos = spec_surface_position(cmd.position, cmd.direction, h);
    (
        Placement {
            position: vec3_of(pos),
            rotation: spec_surface_rotation(cmd.direction),
            material: spec_surface_material(cmd.direction),
        },
        Layout { depth: spec_depth(pos.2, 2 * h) as u64, position: cmd.position_id },
    )
}

/// True when resolving `cmd` at half-step `h` stays within machine limits:
/// the offset position is representable and the depth arithmetic cannot
/// overflow.
pub open spec fn apply_in_range(cmd: SpawnSurfaceCommand, h: int) -> bool {
    let pos = spec_surface_position(cmd.position, cmd.direction, h);
    &&& 1 <= h
    &&& 2 * h <= i64::MAX
    &&& match cmd.direction {
        Some(d) => move_in_range(cmd.position, d, h),
        None => true,
    }
    &&& pos.2 > i64::MIN
}

impl SpawnSurfaceCommand {
    /// Resolves the command into a placement and its layout tag.
    ///
    /// The position is the stored cell center offset by the stored direction
    /// (if any); the rotation and material follow the direction tables; the
    /// depth is derived from the resulting forward coordinate.
    pub fn apply(&self, half_size: i64) -> (r: (Placement, Layout))
        requires
            apply_in_range(*self, half_size as int),
        ensures
            r == spec_apply(*self, half_size as int),
    {
        let position = match self.direction {
            None => self.position,
            Some(d) => self.position.move_by(d, half_size),
        };
        let rotation = match self.direction {
            Some(MoveDirection::Right) => SurfaceRotation::NegQuarterTurnY,
            Some(MoveDirection::Left) => SurfaceRotation::QuarterTurnY,
            Some(MoveDirection::Up) => SurfaceRotation::QuarterTurnX,
            Some(MoveDirection::Down) => SurfaceRotation::NegQuarterTurnX,
            Some(MoveDirection::Backward) => SurfaceRotation::HalfTurnY,
            _ => SurfaceRotation::Identity,
        };
        let material = match self.direction {
            Some(MoveDirection::Up) => MaterialClass::Ceiling,
            Some(MoveDirection::Down) => MaterialClass::Floor,
            _ => MaterialClass::Wall,
        };
        let depth = depth_of(position.z, half_size + half_size);
        (Placement { position, rotation, material }, Layout { depth, position: self.position_id })
    }
}

/// Materializes one `(cell center, wall slot)` pair: the placement for the
/// slot's face and the layout tag for later visibility bookkeeping.
pub fn materialize(cell_center: Vec3i, slot: Position, half_size: i64) -> (r: (Placement, Layout))
    requires
        apply_in_range(spec_materialize_cmd(cell_center, slot), half_size as int),
    ensures
        r == spec_apply(spec_materialize_cmd(cell_center, slot), half_size as int),
{
    let cmd = SpawnSurfaceCommand {
        position: cell_center,
        direction: slot_direction(slot),
        position_id: slot,
    };
    cmd.apply(half_size)
}

/// The surfaces of one room, in slot-storage order: one placement per
/// present wall, nothing for absent ones, taking the first `n` slots.
pub open spec fn spec_room_surfaces_upto(center: Vec3i, cell: Cell, h: int, n: int) -> Seq<
    (Placement, Layout),
>
    decreases n,
{
    if n <= 0 {
        Seq::empty()
    } else {
        let rest = spec_room_surfaces_upto(center, cell, h, n - 1);
        if cell.walls@[n - 1].1 {
            rest.push(spec_apply(spec_materialize_cmd(center, cell.walls@[n - 1].0), h))
        } else {
            rest
        }
    }
}

/// The surfaces of one room: one placement per present wall slot.
pub open spec fn spec_room_surfaces(center: Vec3i, cell: Cell, h: int) -> Seq<(Placement, Layout)> {
    spec_room_surfaces_upto(center, cell, h, 6)
}

/// True when every slot of the cell can be materialized from `center`
/// within machine limits.
pub open spec fn room_in_range(center: Vec3i, cell: Cell, h: int) -> bool {
    forall|i: int|
        0 <= i < 6 ==> apply_in_range(
            spec_materialize_cmd(center, (#[trigger] cell.walls@[i]).0),
            h,
        )
}

/// The largest half-step size `labyrinth_surfaces` accepts; it keeps every
/// room center and face offset of the enumerated grid representable.
pub const MAX_GRID_HALF_STEP: i64 = 0x40_0000_0000_0000;

/// The center of the room at grid coordinate `(x, z)`: the grid row at
/// `z == 0` sits one cell forward of the world origin, rows grow forward
/// (toward `-z`) and columns grow to the right.
pub open spec fn spec_room_center(x: int, z: int, h: int) -> (int, int, int) {
    (2 * h * x, 0, -2 * h - 2 * h * z)
}

/// The surfaces of the first `n` rooms of a built topology, in storage
/// order: the concatenation of each room's surfaces around its center.
pub open spec fn spec_labyrinth_surfaces_upto(lab: Labyrinth, h: int, n: int) -> Seq<
    (Placement, Layout),
>
    decreases n,
{
    if n <= 0 {
        Seq::empty()
    } else {
        let (x, z) = coord_at(n - 1);
        spec_labyrinth_surfaces_upto(lab, h, n - 1) + spec_room_surfaces(
            vec3_of(spec_room_center(x, z, h)),
            lab.cells@[n - 1].1,
            h,
        )
    }
}

/// All surfaces of a built topology: one placement per present wall of
/// every room, rooms in storage order.
pub open spec fn spec_labyrinth_surfaces(lab: Labyrinth, h: int) -> Seq<(Placement, Layout)> {
    spec_labyrinth_surfaces_upto(lab, h, GRID_CELLS as int)
}

/// Materializes the whole topology in one deterministic burst: every present
/// wall of every room becomes exactly one placement, ready to hand to the
/// render collaborator. Runs once at level load.
pub fn labyrinth_surfaces(lab: &Labyrinth, half_size: i64) -> (r: Vec<(Placement, Layout)>)
    requires
        lab.wf(),
        1 <= half_size <= MAX_GRID_HALF_STEP,
    ensures
        r@ == spec_labyrinth_surfaces(*lab, half_size as int),
{
    let mut r: Vec<(Placement, Layout)> = Vec::new();
    let n = lab.cells.len();
    for i in 0..n
        invariant
            lab.wf(),
            n == GRID_CELLS,
            1 <= half_size <= MAX_GRID_HALF_STEP,
            r@ == spec_labyrinth_surfaces_upto(*lab, half_size as int, i as int),
    {
        let ((x, z), cell) = lab.cells[i];
        proof {
            assert((x as int, z as int) == coord_at(i as int));
            assert(0 <= i as int % 3 < 3 && 0 <= i as int / 3 <= 2) by (nonlinear_arith)
                requires
                    0 <= i < 9,
            ;
            assert(0 <= half_size as int * (z as int) <= 2 * half_size as int && -(half_size as int)
                <= half_size as int * (x as int) <= half_size as int) by (nonlinear_arith)
                requires
                    1 <= half_size as int && -1 <= x as int <= 1 && 0 <= z as int <= 2,
            ;
        }
        let base = Vec3i { x: 0, y: 0, z: -(half_size + half_size) };
        let center = base.move_by(MoveDirection::Forward, half_size * (z as i64)).move_by(
            MoveDirection::ShiftRight,
            half_size * (x as i64),
        );
        proof {
            let h = half_size as int;
            let (xs, zs) = coord_at(i as int);
            assert(2 * (h * xs) == 2 * h * xs && 2 * (h * zs) == 2 * h * zs) by (nonlinear_arith);
            assert(center == vec3_of(spec_room_center(xs, zs, h)));
            assert forall|si: int| 0 <= si < 6 implies apply_in_range(
                spec_materialize_cmd(center, (#[trigger] cell.walls@[si]).0),
                h,
            ) by {
                assert(cell.walls@[si].0 == slot_at(si));
            }
        }
        let mut room = room_surfaces(center, &cell, half_size);
        r.append(&mut room);
    }
    r
}

/// Materializes every present wall of one room, in slot-storage order.
/// Absent slots produce no placement at all.
pub fn room_surfaces(center: Vec3i, cell: &Cell, half_size: i64) -> (r: Vec<(Placement, Layout)>)
    requires
        room_in_range(center, *cell, half_size as int),
    ensures
        r@ == spec_room_surfaces(center, *cell, half_size as int),
{
    let mut r: Vec<(Placement, Layout)> = Vec::new();
    for i in 0..6usize
        invariant
            room_in_range(center, *cell, half_size as int),
            r@ == spec_room_surfaces_upto(center, *cell, half_size as int, i as int),
    {
        let (slot, present) = cell.walls[i];
        if present {
            r.push(materialize(center, slot, half_size));
        }
    }
    r
}

} // verus!
