//! The compass-direction navigation state machine.
//!
//! The viewpoint holds a facing — one of the four compass directions — and a
//! world position. Discrete turn events step the facing exactly one place
//! around the cycle and turn the orientation a quarter turn in the same
//! step, so facing and orientation never desynchronize; discrete move events
//! translate the position one full cell along the facing's view axis, so
//! movement is always axis-aligned. No collision or bounds check is
//! performed here: absent walls are holes by design.

use vstd::prelude::*;

use crate::geometry::MoveDirection;
use crate::geometry::Vec3i;
use crate::geometry::move_in_range;
use crate::geometry::spec_move_by;
use crate::geometry::vec3_of;

verus! {

/// The viewpoint's compass facing.
#[derive(Clone, Copy, Debug, Default, PartialEq, Eq, Structural)]
pub enum CameraDirection {
    #[default]
    North,
    East,
    South,
    West,
}

/// A discrete navigation input edge: one key press, already de-duplicated by
/// the input collaborator so that holding a key does not repeat the edge.
#[derive(Clone, Copy, Debug, PartialEq, Eq, Structural)]
pub enum NavEvent {
    MoveForward,
    MoveBackward,
    TurnLeft,
    TurnRight,
}

/// The compass unit vector of a facing, on the ground plane: north is `+z`,
/// east is `+x`.
pub open spec fn spec_uvec(f: CameraDirection) -> Vec3i {
    match f {
        CameraDirection::North => Vec3i { x: 0, y: 0, z: 1 },
        CameraDirection::East => Vec3i { x: 1, y: 0, z: 0 },
        CameraDirection::South => Vec3i { x: 0, y: 0, z: -1i64 },
        CameraDirection::West => Vec3i { x: -1i64, y: 0, z: 0 },
    }
}

/// The facing one turn-left step away: the cycle North, West, South, East.
pub open spec fn spec_turn_left(f: CameraDirection) -> CameraDirection {
    match f {
        CameraDirection::North => CameraDirection::West,
        CameraDirection::West => CameraDirection::South,
        CameraDirection::South => CameraDirection::East,
        CameraDirection::East => CameraDirection::North,
    }
}

/// The facing one turn-right step away: the reverse cycle.
pub open spec fn spec_turn_right(f: CameraDirection) -> CameraDirection {
    match f {
        CameraDirection::North => CameraDirection::East,
        CameraDirection::East => CameraDirection::South,
        CameraDirection::South => CameraDirection::West,
        CameraDirection::West => CameraDirection::North,
    }
}

/// The orientation a facing corresponds to, counted in quarter turns about
/// the vertical axis, counterclockwise from North.
pub open spec fn spec_yaw(f: CameraDirection) -> int {
    match f {
        CameraDirection::North => 0,
        CameraDirection::West => 1,
        CameraDirection::South => 2,
        CameraDirection::East => 3,
    }
}

/// The full-step translation a forward move performs for a facing: one cell
/// along the view axis. Looking north the view axis is `-z`, so a forward
/// move steps opposite the compass vector; looking east it steps along it.
pub open spec fn spec_forward_dir(f: CameraDirection) -> MoveDirection {
    match f {
        CameraDirection::North => MoveDirection::Forward,
        CameraDirection::East => MoveDirection::ShiftRight,
        CameraDirection::South => MoveDirection::Backward,
        CameraDirection::West => MoveDirection::ShiftLeft,
    }
}

/// The translation a backward move performs: the negation of the forward
/// step.
pub open spec fn spec_backward_dir(f: CameraDirection) -> MoveDirection {
    match f {
        CameraDirection::North => MoveDirection::Backward,
        CameraDirection::East => MoveDirection::ShiftLeft,
        CameraDirection::South => MoveDirection::Forward,
        CameraDirection::West => MoveDirection::ShiftRight,
    }
}

impl CameraDirection {
    /// The compass unit vector of this facing.
    pub fn uvec(&self) -> (v: Vec3i)
        ensures
            v == spec_uvec(*self),
    {
        match self {
            CameraDirection::North => Vec3i { x: 0, y: 0, z: 1 },
            CameraDirection::East => Vec3i { x: 1, y: 0, z: 0 },
            CameraDirection::South => Vec3i { x: 0, y: 0, z: -1 },
            CameraDirection::West => Vec3i { x: -1, y: 0, z: 0 },
        }
    }

    /// One turn-left step around the compass cycle.
    pub fn turn_left(&self) -> (f: CameraDirection)
        ensures
            f == spec_turn_left(*self),
    {
        match self {
            CameraDirection::North => CameraDirection::West,
            CameraDirection::West => CameraDirection::South,
            CameraDirection::South => CameraDirection::East,
            CameraDirection::East => CameraDirection::North,
        }
    }

    /// One turn-right step around the compass cycle.
    pub fn turn_right(&self) -> (f: CameraDirection)
        ensures
            f == spec_turn_right(*self),
    {
        match self {
            CameraDirection::North => CameraDirection::East,
            CameraDirection::East => CameraDirection::South,
            CameraDirection::South => CameraDirection::West,
            CameraDirection::West => CameraDirection::North,
        }
    }
}

/// The navigation state of the player's viewpoint: its world position, its
/// compass facing, and its accumulated orientation in quarter turns.
#[derive(Clone, Copy, Debug, PartialEq, Eq, Structural)]
pub struct NavigationState {
    pub position: Vec3i,
    pub facing: CameraDirection,
    pub yaw_quarter_turns: u8,
}

/// The state after one input edge: turns step the facing one place around
/// the cycle and the orientation one quarter turn the same way; moves
/// translate the position one full cell (two half-steps `h`) along the view
/// axis and leave facing and orientation alone.
pub open spec fn spec_apply(s: NavigationState, e: NavEvent, h: int) -> NavigationState {
    match e {
        NavEvent::MoveForward => NavigationState {
            position: vec3_of(spec_move_by(s.position, spec_forward_dir(s.facing), h)),
            ..s
        },
        NavEvent::MoveBackward => NavigationState {
            position: vec3_of(
                spec_move_by(s.position, spec_backward_dir(s.facing), h),
            ),
            ..s
        },
        NavEvent::TurnLeft => NavigationState {
            facing: spec_turn_left(s.facing),
            yaw_quarter_turns: (spec_yaw(spec_turn_left(s.facing)) as u8),
            ..s
        },
        NavEvent::TurnRight => NavigationState {
            facing: spec_turn_right(s.facing),
            yaw_quarter_turns: (spec_yaw(spec_turn_right(s.facing)) as u8),
            ..s
        },
    }
}

/// True when the translation of a move event stays representable; turn
/// events are always in range.
pub open spec fn event_in_range(s: NavigationState, e: NavEvent, h: int) -> bool {
    match e {
        NavEvent::MoveForward => move_in_range(s.position, spec_forward_dir(s.facing), h),
        NavEvent::MoveBackward => move_in_range(s.position, spec_backward_dir(s.facing), h),
        NavEvent::TurnLeft => true,
        NavEvent::TurnRight => true,
    }
}

impl NavigationState {
    /// Facing and orientation agree: the stored quarter-turn count is
    /// exactly the facing's angle from North.
    pub open spec fn wf(self) -> bool {
        self.yaw_quarter_turns == spec_yaw(self.facing)
    }

    /// The initial state: at the world origin, facing North, unrotated.
    pub fn start() -> (s: NavigationState)
        ensures
            s.wf(),
            s.position == (Vec3i { x: 0i64, y: 0i64, z: 0i64 }),
            s.facing == CameraDirection::North,
    {
        NavigationState {
            position: Vec3i { x: 0, y: 0, z: 0 },
            facing: CameraDirection::North,
            yaw_quarter_turns: 0,
        }
    }

    /// Consumes one input edge; `half_step` is half the cell size, so a move
    /// covers exactly one cell. Each edge produces at most one state change,
    /// and facing and orientation change together or not at all.
    pub fn apply(&mut self, event: NavEvent, half_step: i64)
        requires
            old(self).wf(),
            event_in_range(*old(self), event, half_step as int),
        ensures
            *final(self) == spec_apply(*old(self), event, half_step as int),
            final(self).wf(),
    {
        match event {
            NavEvent::MoveForward => {
                let d = match self.facing {
                    CameraDirection::North => MoveDirection::Forward,
                    CameraDirection::East => MoveDirection::ShiftRight,
                    CameraDirection::South => MoveDirection::Backward,
                    CameraDirection::West => MoveDirection::ShiftLeft,
                };
                self.position = self.position.move_by(d, half_step);
            },
            NavEvent::MoveBackward => {
                let d = match self.facing {
                    CameraDirection::North => MoveDirection::Backward,
                    CameraDirection::East => MoveDirection::ShiftLeft,
                    CameraDirection::South => MoveDirection::Forward,
                    CameraDirection::West => MoveDirection::ShiftRight,
                };
                self.position = self.position.move_by(d, half_step);
            },
            NavEvent::TurnLeft => {
                self.facing = self.facing.turn_left();
                self.yaw_quarter_turns = (self.yaw_quarter_turns + 1) % 4;
            },
            NavEvent::TurnRight => {
                self.facing = self.facing.turn_right();
                self.yaw_quarter_turns = (self.yaw_quarter_turns + 3) % 4;
            },
        }
    }
}

/// Law: four turn-left edges are the identity — the facing walks the whole
/// cycle back to its start, the orientation accumulates a full turn back to
/// its original quarter-turn count, and the position never moves.
pub proof fn lemma_four_left_turns_identity(s: NavigationState, h: int)
    requires
        s.wf(),
    ensures
        spec_apply(
            spec_apply(
                spec_apply(spec_apply(s, NavEvent::TurnLeft, h), NavEvent::TurnLeft, h),
                NavEvent::TurnLeft,
                h,
            ),
            NavEvent::TurnLeft,
            h,
        ) == s,
{
}

} // verus!
