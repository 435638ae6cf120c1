//! Grid topology: which walls exist between the cells of the dungeon.
//!
//! A fixed, deterministic adjacency rule maps every coordinate of the
//! enumerated grid range (x in [-1, 1], z in [0, 2]) to the set of walls its
//! cell carries. The [`Labyrinth`] is built once from that rule, holds
//! exactly one [`Cell`] per coordinate, and is immutable afterwards; a lookup
//! outside the range reports the cell as absent rather than inventing walls.

use vstd::prelude::*;

verus! {

/// One of the six fixed wall slots of a cell.
///
/// `Center` faces forward along the view-entry axis, `Back` faces the
/// direction of entry, `Left` and `Right` are the remaining vertical faces,
/// and `Ceiling`/`Floor` close the cell vertically.
#[derive(Clone, Copy, Debug, Hash, PartialEq, Eq, Structural)]
pub enum Position {
    Center,
    Right,
    Floor,
    Left,
    Ceiling,
    Back,
}

/// The four swappable wall decisions of the adjacency rule for one cell;
/// ceiling and floor are always present and are not part of the rule.
#[derive(Clone, Copy, Debug, PartialEq, Eq, Structural)]
pub struct WallFlags {
    pub left: bool,
    pub right: bool,
    pub front: bool,
    pub back: bool,
}

/// The reference adjacency rule, as a function of the cell coordinate.
///
/// It carves a ring corridor: the outer boundary of the 3x3 block is walled,
/// and the middle cell of the middle row is walled off on all four sides.
pub open spec fn spec_rule(x: int, z: int) -> WallFlags {
    WallFlags {
        left: x == -1 || (x == 1 && z == 1),
        right: x == 1 || (x == -1 && z == 1),
        front: z == 2 || (x == 0 && z == 0),
        back: z == 0 || (x == 0 && z == 2),
    }
}

/// Evaluates the reference rule on a concrete coordinate.
pub fn reference_rule(x: i32, z: i32) -> (f: WallFlags)
    ensures
        f == spec_rule(x as int, z as int),
{
    WallFlags {
        left: x == -1 || (x == 1 && z == 1),
        right: x == 1 || (x == -1 && z == 1),
        front: z == 2 || (x == 0 && z == 0),
        back: z == 0 || (x == 0 && z == 2),
    }
}

/// Whether slot `p` is present in a cell whose rule decisions are `f`:
/// the four vertical faces follow the rule, ceiling and floor always exist.
pub open spec fn slot_present(f: WallFlags, p: Position) -> bool {
    match p {
        Position::Center => f.front,
        Position::Left => f.left,
        Position::Right => f.right,
        Position::Back => f.back,
        Position::Ceiling => true,
        Position::Floor => true,
    }
}

/// The canonical order in which a cell stores its six slots.
pub open spec fn slot_at(i: int) -> Position {
    if i == 0 {
        Position::Center
    } else if i == 1 {
        Position::Left
    } else if i == 2 {
        Position::Right
    } else if i == 3 {
        Position::Back
    } else if i == 4 {
        Position::Ceiling
    } else {
        Position::Floor
    }
}

/// The index of slot `p` in the canonical order.
pub open spec fn slot_index(p: Position) -> int {
    match p {
        Position::Center => 0,
        Position::Left => 1,
        Position::Right => 2,
        Position::Back => 3,
        Position::Ceiling => 4,
        Position::Floor => 5,
    }
}

/// One grid unit of the dungeon: a presence flag for each of the six slots.
#[derive(Clone, Copy, Debug, PartialEq, Eq)]
pub struct Cell {
    pub walls: [(Position, bool); 6],
}

impl Cell {
    /// Well-formed cells list every slot exactly once, in canonical order.
    pub open spec fn wf(self) -> bool {
        forall|i: int| 0 <= i < 6 ==> (#[trigger] self.walls@[i]).0 == slot_at(i)
    }

    /// Whether the wall in slot `p` is present.
    pub open spec fn present(self, p: Position) -> bool {
        self.walls@[slot_index(p)].1
    }

    /// Whether the wall in slot `p` is present, as executable code.
    pub fn has_wall(&self, p: Position) -> (b: bool)
        ensures
            b == self.present(p),
    {
        match p {
            Position::Center => self.walls[0].1,
            Position::Left => self.walls[1].1,
            Position::Right => self.walls[2].1,
            Position::Back => self.walls[3].1,
            Position::Ceiling => self.walls[4].1,
            Position::Floor => self.walls[5].1,
        }
    }

    /// Builds the cell whose four vertical faces follow the rule decisions
    /// `f` and whose ceiling and floor are always present.
    pub fn from_flags(f: WallFlags) -> (c: Cell)
        ensures
            c.wf(),
            forall|p: Position| #[trigger] c.present(p) == slot_present(f, p),
    {
        let c = Cell {
            walls: [
                (Position::Center, f.front),
                (Position::Left, f.left),
                (Position::Right, f.right),
                (Position::Back, f.back),
                (Position::Ceiling, true),
                (Position::Floor, true),
            ],
        };
        assert forall|p: Position| #[trigger] c.present(p) == slot_present(f, p) by {
            assert(c.walls@[slot_index(p)].1 == slot_present(f, p));
        }
        c
    }
}

/// True when `(x, z)` lies in the enumerated grid range of the topology.
pub open spec fn in_grid(x: int, z: int) -> bool {
    -1 <= x <= 1 && 0 <= z <= 2
}

/// The number of cells in the enumerated range.
pub const GRID_CELLS: usize = 9;

/// The coordinate stored at index `i` of the built topology: the grid is
/// enumerated row by row, `z` outermost, `x` from -1 to 1.
pub open spec fn coord_at(i: int) -> (int, int) {
    (i % 3 - 1, i / 3)
}

/// The index at which coordinate `(x, z)` is stored.
pub open spec fn coord_index(x: int, z: int) -> int {
    z * 3 + x + 1
}

/// The grid topology: one cell per coordinate of the enumerated range,
/// each fully determined by the adjacency rule. Immutable once built.
pub struct Labyrinth {
    pub cells: Vec<((i32, i32), Cell)>,
}

impl Labyrinth {
    /// The invariant of a built topology: the table enumerates the grid
    /// range in canonical order and every cell agrees with the rule.
    pub open spec fn wf(self) -> bool {
        &&& self.cells@.len() == GRID_CELLS
        &&& forall|i: int|
            0 <= i < GRID_CELLS ==> {
                let ((x, z), c) = #[trigger] self.cells@[i];
                &&& (x as int, z as int) == coord_at(i)
                &&& c.wf()
                &&& forall|p: Position| #[trigger] c.present(p) == slot_present(
                    spec_rule(x as int, z as int),
                    p,
                )
            }
    }

    /// Builds the topology from the reference rule: every coordinate of the
    /// enumerated range is visited exactly once and one cell inserted for it.
    pub fn build() -> (l: Labyrinth)
        ensures
            l.wf(),
    {
        let mut cells: Vec<((i32, i32), Cell)> = Vec::new();
        for i in 0..GRID_CELLS
            invariant
                cells@.len() == i,
                forall|j: int|
                    0 <= j < i ==> {
                        let ((x, z), c) = #[trigger] cells@[j];
                        &&& (x as int, z as int) == coord_at(j)
                        &&& c.wf()
                        &&& forall|p: Position| #[trigger] c.present(p) == slot_present(
                            spec_rule(x as int, z as int),
                            p,
                        )
                    },
        {
            let x = (i % 3) as i32 - 1;
            let z = (i / 3) as i32;
            let cell = Cell::from_flags(reference_rule(x, z));
            cells.push(((x, z), cell));
        }
        Labyrinth { cells }
    }

    /// Looks the coordinate up in the topology.
    ///
    /// Inside the enumerated range the cell is returned and agrees with the
    /// rule; outside it the cell is reported absent, never defaulted.
    pub fn lookup(&self, x: i32, z: i32) -> (r: Option<&Cell>)
        requires
            self.wf(),
        ensures
            match r {
                Some(c) => {
                    &&& in_grid(x as int, z as int)
                    &&& c.wf()
                    &&& forall|p: Position| #[trigger] c.present(p) == slot_present(
                        spec_rule(x as int, z as int),
                        p,
                    )
                },
                None => !in_grid(x as int, z as int),
            },
    {
        if -1 <= x && x <= 1 && 0 <= z && z <= 2 {
            let idx = (z * 3 + x + 1) as usize;
            assert(coord_at(idx as int) == (x as int, z as int)) by {
                assert((z * 3 + x + 1) % 3 == x + 1 && (z * 3 + x + 1) / 3 == z as int)
                    by (nonlinear_arith)
                    requires
                        -1 <= x <= 1 && 0 <= z as int <= 2,
                ;
            }
            Some(&self.cells[idx].1)
        } else {
            None
        }
    }
}

/// Law: the built topology covers the enumerated grid range exactly — every
/// in-range coordinate is stored at exactly one index (no omissions, no
/// duplicates), and each of its cells carries exactly one presence flag per
/// slot (each slot name appears at exactly one of the six wall entries).
pub proof fn lemma_topology_exactly_one(l: Labyrinth)
    requires
        l.wf(),
    ensures
        forall|x: int, z: int|
            in_grid(x, z) ==> {
                &&& 0 <= coord_index(x, z) < GRID_CELLS
                &&& (#[trigger] l.cells@[coord_index(x, z)]).0.0 == x
                &&& l.cells@[coord_index(x, z)].0.1 == z
            },
        forall|i: int, j: int|
            0 <= i < GRID_CELLS && 0 <= j < GRID_CELLS && (#[trigger] l.cells@[i]).0 == (
            #[trigger] l.cells@[j]).0 ==> i == j,
        forall|i: int, si: int, sj: int|
            0 <= i < GRID_CELLS && 0 <= si < 6 && 0 <= sj < 6 && (#[trigger] l.cells@[i].1.walls@[si]).0
                == (#[trigger] l.cells@[i].1.walls@[sj]).0 ==> si == sj,
{
    assert forall|x: int, z: int| in_grid(x, z) implies {
        &&& 0 <= coord_index(x, z) < GRID_CELLS
        &&& (#[trigger] l.cells@[coord_index(x, z)]).0.0 == x
        &&& l.cells@[coord_index(x, z)].0.1 == z
    } by {
        let i = coord_index(x, z);
        assert(i % 3 == x + 1 && i / 3 == z) by (nonlinear_arith)
            requires
                i == z * 3 + x + 1 && -1 <= x <= 1 && 0 <= z <= 2,
        ;
    }
    assert forall|i: int, j: int|
        0 <= i < GRID_CELLS && 0 <= j < GRID_CELLS && (#[trigger] l.cells@[i]).0 == (
        #[trigger] l.cells@[j]).0 implies i == j by {
        assert(coord_at(i) == coord_at(j));
        assert(i == 3 * (i / 3) + i % 3 && j == 3 * (j / 3) + j % 3) by (nonlinear_arith)
            requires
                0 <= i < 9 && 0 <= j < 9,
        ;
    }
    assert forall|i: int, si: int, sj: int|
        0 <= i < GRID_CELLS && 0 <= si < 6 && 0 <= sj < 6 && (#[trigger] l.cells@[i].1.walls@[si]).0
            == (#[trigger] l.cells@[i].1.walls@[sj]).0 implies si == sj by {
        let c = l.cells@[i].1;
        assert(c.walls@[si].0 == slot_at(si) && c.walls@[sj].0 == slot_at(sj));
    }
}

} // verus!
