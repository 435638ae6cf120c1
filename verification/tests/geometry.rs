use dungeon_core::geometry::{MoveDirection, Vec3i};

#[test]
fn full_steps_move_one_axis() {
    let p = Vec3i { x: 1, y: 2, z: 3 };
    assert_eq!(p.move_by(MoveDirection::Forward, 5), Vec3i { x: 1, y: 2, z: -7 });
    assert_eq!(p.move_by(MoveDirection::Backward, 5), Vec3i { x: 1, y: 2, z: 13 });
    assert_eq!(p.move_by(MoveDirection::ShiftLeft, 5), Vec3i { x: -9, y: 2, z: 3 });
    assert_eq!(p.move_by(MoveDirection::ShiftRight, 5), Vec3i { x: 11, y: 2, z: 3 });
}

#[test]
fn face_offsets_move_half_steps() {
    let p = Vec3i { x: 0, y: 0, z: 0 };
    assert_eq!(p.move_by(MoveDirection::Up, 4), Vec3i { x: 0, y: 4, z: 4 });
    assert_eq!(p.move_by(MoveDirection::Down, 4), Vec3i { x: 0, y: -4, z: 4 });
    assert_eq!(p.move_by(MoveDirection::Left, 4), Vec3i { x: -4, y: 0, z: 4 });
    assert_eq!(p.move_by(MoveDirection::Right, 4), Vec3i { x: 4, y: 0, z: 4 });
}

#[test]
fn negative_half_steps_reverse_the_move() {
    let p = Vec3i { x: 0, y: 0, z: 0 };
    assert_eq!(p.move_by(MoveDirection::Forward, -2), Vec3i { x: 0, y: 0, z: 4 });
    assert_eq!(p.move_by(MoveDirection::ShiftRight, -2), Vec3i { x: -4, y: 0, z: 0 });
}

#[test]
fn zero_vector_is_origin() {
    assert_eq!(Vec3i::zero(), Vec3i { x: 0, y: 0, z: 0 });
}
