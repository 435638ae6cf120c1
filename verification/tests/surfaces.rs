use dungeon_core::geometry::{MoveDirection, Vec3i};
use dungeon_core::labyrinth::{Labyrinth, Position};
use dungeon_core::surface::{
    MaterialClass, SpawnSurfaceCommand, SurfaceRotation, depth_of, labyrinth_surfaces, materialize,
    room_surfaces, slot_direction,
};

#[test]
fn slot_direction_table() {
    assert_eq!(slot_direction(Position::Center), None);
    assert_eq!(slot_direction(Position::Right), Some(MoveDirection::Right));
    assert_eq!(slot_direction(Position::Left), Some(MoveDirection::Left));
    assert_eq!(slot_direction(Position::Back), Some(MoveDirection::Backward));
    assert_eq!(slot_direction(Position::Floor), Some(MoveDirection::Down));
    assert_eq!(slot_direction(Position::Ceiling), Some(MoveDirection::Up));
}

#[test]
fn center_wall_faces_forward_at_cell_center() {
    let center = Vec3i { x: 0, y: 0, z: -2 };
    let (placement, layout) = materialize(center, Position::Center, 1);
    assert_eq!(placement.position, center);
    assert_eq!(placement.rotation, SurfaceRotation::Identity);
    assert_eq!(placement.material, MaterialClass::Wall);
    assert_eq!(layout.depth, 1);
    assert_eq!(layout.position, Position::Center);
}

#[test]
fn rotations_per_slot() {
    let center = Vec3i { x: 0, y: 0, z: -2 };
    let (right, _) = materialize(center, Position::Right, 1);
    let (left, _) = materialize(center, Position::Left, 1);
    let (back, _) = materialize(center, Position::Back, 1);
    let (ceiling, _) = materialize(center, Position::Ceiling, 1);
    let (floor, _) = materialize(center, Position::Floor, 1);
    assert_eq!(right.rotation, SurfaceRotation::NegQuarterTurnY);
    assert_eq!(left.rotation, SurfaceRotation::QuarterTurnY);
    assert_eq!(back.rotation, SurfaceRotation::HalfTurnY);
    assert_eq!(ceiling.rotation, SurfaceRotation::QuarterTurnX);
    assert_eq!(floor.rotation, SurfaceRotation::NegQuarterTurnX);
}

#[test]
fn materials_per_slot() {
    let center = Vec3i { x: 0, y: 0, z: -2 };
    for slot in [Position::Center, Position::Right, Position::Left, Position::Back] {
        let (p, _) = materialize(center, slot, 1);
        assert_eq!(p.material, MaterialClass::Wall);
    }
    let (c, _) = materialize(center, Position::Ceiling, 1);
    let (f, _) = materialize(center, Position::Floor, 1);
    assert_eq!(c.material, MaterialClass::Ceiling);
    assert_eq!(f.material, MaterialClass::Floor);
}

#[test]
fn face_offsets_from_center() {
    // Half-step 3: faces sit half a step toward their axis and half a step
    // along +z; the back wall sits one full step along +z.
    let center = Vec3i { x: 0, y: 0, z: -6 };
    let (right, _) = materialize(center, Position::Right, 3);
    assert_eq!(right.position, Vec3i { x: 3, y: 0, z: -3 });
    let (left, _) = materialize(center, Position::Left, 3);
    assert_eq!(left.position, Vec3i { x: -3, y: 0, z: -3 });
    let (ceiling, _) = materialize(center, Position::Ceiling, 3);
    assert_eq!(ceiling.position, Vec3i { x: 0, y: 3, z: -3 });
    let (floor, _) = materialize(center, Position::Floor, 3);
    assert_eq!(floor.position, Vec3i { x: 0, y: -3, z: -3 });
    let (back, _) = materialize(center, Position::Back, 3);
    assert_eq!(back.position, Vec3i { x: 0, y: 0, z: 0 });
}

#[test]
fn depth_rounds_to_nearest_half_up() {
    assert_eq!(depth_of(0, 2), 0);
    assert_eq!(depth_of(5, 2), 0); // behind the origin: clamped
    assert_eq!(depth_of(-1, 2), 1); // 0.5 rounds up
    assert_eq!(depth_of(-2, 2), 1);
    assert_eq!(depth_of(-3, 2), 2); // 1.5 rounds up
    assert_eq!(depth_of(-4, 2), 2);
    assert_eq!(depth_of(-2, 5), 0); // 0.4 rounds down
    assert_eq!(depth_of(-3, 5), 1); // 0.6 rounds up
}

#[test]
fn command_apply_matches_materialize() {
    let cmd = SpawnSurfaceCommand {
        position: Vec3i { x: 2, y: 0, z: -4 },
        direction: Some(MoveDirection::Up),
        position_id: Position::Ceiling,
    };
    assert_eq!(cmd.apply(2), materialize(Vec3i { x: 2, y: 0, z: -4 }, Position::Ceiling, 2));
}

#[test]
fn absent_walls_produce_no_surface() {
    // Cell (0,1) has no vertical walls at all: only ceiling and floor are
    // materialized.
    let lab = Labyrinth::build();
    let cell = *lab.lookup(0, 1).expect("cell present");
    let surfaces = room_surfaces(Vec3i { x: 0, y: 0, z: -4 }, &cell, 1);
    assert_eq!(surfaces.len(), 2);
    assert_eq!(surfaces[0].1.position, Position::Ceiling);
    assert_eq!(surfaces[1].1.position, Position::Floor);
}

#[test]
fn room_surfaces_of_walled_cell() {
    // Cell (-1,0) carries left, back, ceiling and floor.
    let lab = Labyrinth::build();
    let cell = *lab.lookup(-1, 0).expect("cell present");
    let surfaces = room_surfaces(Vec3i { x: -2, y: 0, z: -2 }, &cell, 1);
    assert_eq!(surfaces.len(), 4);
    let slots: Vec<Position> = surfaces.iter().map(|(_, l)| l.position).collect();
    assert_eq!(slots, vec![Position::Left, Position::Back, Position::Ceiling, Position::Floor]);
}

#[test]
fn whole_labyrinth_materializes_every_present_wall() {
    // 18 ceilings and floors plus 16 vertical walls across the nine rooms.
    let lab = Labyrinth::build();
    let surfaces = labyrinth_surfaces(&lab, 1);
    assert_eq!(surfaces.len(), 34);
    let walls = surfaces.iter().filter(|(p, _)| p.material == MaterialClass::Wall).count();
    let ceilings = surfaces.iter().filter(|(p, _)| p.material == MaterialClass::Ceiling).count();
    let floors = surfaces.iter().filter(|(p, _)| p.material == MaterialClass::Floor).count();
    assert_eq!((walls, ceilings, floors), (16, 9, 9));
}

#[test]
fn first_room_surfaces_sit_one_cell_forward() {
    let lab = Labyrinth::build();
    let surfaces = labyrinth_surfaces(&lab, 1);
    // The first room is (-1, 0), centered at (-2, 0, -2) for half-step 1;
    // its first surface is the left wall, offset to (-3, 0, -1).
    let (placement, layout) = surfaces[0];
    assert_eq!(layout.position, Position::Left);
    assert_eq!(placement.position, Vec3i { x: -3, y: 0, z: -1 });
    assert_eq!(placement.rotation, SurfaceRotation::QuarterTurnY);
    assert_eq!(layout.depth, 1);
}
