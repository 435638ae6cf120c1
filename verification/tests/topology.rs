use dungeon_core::labyrinth::{Labyrinth, Position, reference_rule};

/// The wall decisions of the reference rule for every coordinate of the
/// grid, row by row: (x, z, left, right, front, back).
const EXPECTED: [(i32, i32, bool, bool, bool, bool); 9] = [
    (-1, 0, true, false, false, true),
    (0, 0, false, false, true, true),
    (1, 0, false, true, false, true),
    (-1, 1, true, true, false, false),
    (0, 1, false, false, false, false),
    (1, 1, true, true, false, false),
    (-1, 2, true, false, true, false),
    (0, 2, false, false, true, true),
    (1, 2, false, true, true, false),
];

#[test]
fn build_covers_grid_exactly_once() {
    let lab = Labyrinth::build();
    assert_eq!(lab.cells.len(), 9);
    for (i, (x, z, ..)) in EXPECTED.iter().enumerate() {
        assert_eq!(lab.cells[i].0, (*x, *z));
    }
    // No coordinate appears twice.
    for i in 0..9 {
        for j in 0..9 {
            if i != j {
                assert_ne!(lab.cells[i].0, lab.cells[j].0);
            }
        }
    }
}

#[test]
fn cells_list_each_slot_exactly_once() {
    let lab = Labyrinth::build();
    let order = [
        Position::Center,
        Position::Left,
        Position::Right,
        Position::Back,
        Position::Ceiling,
        Position::Floor,
    ];
    for (_, cell) in &lab.cells {
        for (k, slot) in order.iter().enumerate() {
            assert_eq!(cell.walls[k].0, *slot);
        }
    }
}

#[test]
fn cells_follow_reference_rule() {
    let lab = Labyrinth::build();
    for (i, (x, z, left, right, front, back)) in EXPECTED.iter().enumerate() {
        let cell = &lab.cells[i].1;
        assert_eq!(cell.has_wall(Position::Left), *left, "left at ({x},{z})");
        assert_eq!(cell.has_wall(Position::Right), *right, "right at ({x},{z})");
        assert_eq!(cell.has_wall(Position::Center), *front, "front at ({x},{z})");
        assert_eq!(cell.has_wall(Position::Back), *back, "back at ({x},{z})");
        assert!(cell.has_wall(Position::Ceiling), "ceiling at ({x},{z})");
        assert!(cell.has_wall(Position::Floor), "floor at ({x},{z})");
    }
}

#[test]
fn origin_cell_has_front_and_back() {
    // At (0,0) both forward-facing walls are present at once: front because
    // x == 0 && z == 0, back because z == 0.
    let lab = Labyrinth::build();
    let cell = lab.lookup(0, 0).expect("origin cell present");
    assert!(cell.has_wall(Position::Center));
    assert!(cell.has_wall(Position::Back));
}

#[test]
fn west_entry_cell_has_four_walls() {
    // (-1, 0): left because x == -1, back because z == 0, plus ceiling and
    // floor — exactly 4 of the 6 slots.
    let lab = Labyrinth::build();
    let cell = lab.lookup(-1, 0).expect("cell present");
    assert!(cell.has_wall(Position::Left));
    assert!(!cell.has_wall(Position::Right));
    assert!(!cell.has_wall(Position::Center));
    assert!(cell.has_wall(Position::Back));
    let present = cell.walls.iter().filter(|(_, p)| *p).count();
    assert_eq!(present, 4);
}

#[test]
fn lookup_outside_range_is_absent() {
    let lab = Labyrinth::build();
    assert!(lab.lookup(2, 0).is_none());
    assert!(lab.lookup(-2, 1).is_none());
    assert!(lab.lookup(0, 3).is_none());
    assert!(lab.lookup(0, -1).is_none());
    assert!(lab.lookup(i32::MAX, i32::MIN).is_none());
}

#[test]
fn rule_matches_expected_table() {
    for (x, z, left, right, front, back) in EXPECTED {
        let f = reference_rule(x, z);
        assert_eq!((f.left, f.right, f.front, f.back), (left, right, front, back));
    }
}
