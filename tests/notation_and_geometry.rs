use cube_solver::geometry::{
    cube_belongs_to_layer, grid_index, inverse_orientation, is_rotation, snap_dir,
    snap_rotation_to_axis_aligned, snap_vec3_to_grid, world_to_local_indices, Cell, Dir, Orient,
    Vec3,
};
use cube_solver::notation::{
    get_inverse_notation, parse_extended_move_notation, parse_move_notation, Axis, CubeFace, LayerFace,
    LayerMoveType, MoveType,
};

fn v(x: i64, y: i64, z: i64) -> Vec3 {
    Vec3 { x, y, z }
}

#[test]
fn parses_face_moves() {
    assert_eq!(parse_move_notation("R"), Some((CubeFace::Right, MoveType::Clockwise)));
    assert_eq!(parse_move_notation("R'"), Some((CubeFace::Right, MoveType::CounterClockwise)));
    assert_eq!(parse_move_notation("U2"), Some((CubeFace::Up, MoveType::Double)));
    assert_eq!(parse_move_notation("B"), Some((CubeFace::Back, MoveType::Clockwise)));
    assert_eq!(parse_move_notation("M"), None);
    assert_eq!(parse_move_notation(""), None);
}

#[test]
fn parses_slice_moves() {
    assert_eq!(
        parse_extended_move_notation("M2"),
        Some((LayerFace::MiddleX, LayerMoveType::Double))
    );
    assert_eq!(
        parse_extended_move_notation("E'"),
        Some((LayerFace::MiddleY, LayerMoveType::CounterClockwise))
    );
    assert_eq!(
        parse_extended_move_notation("S"),
        Some((LayerFace::MiddleZ, LayerMoveType::Clockwise))
    );
    assert_eq!(
        parse_extended_move_notation("D'"),
        Some((LayerFace::Down, LayerMoveType::CounterClockwise))
    );
}

#[test]
fn rejects_malformed_notation() {
    assert_eq!(parse_extended_move_notation(""), None);
    assert_eq!(parse_extended_move_notation("X"), None);
    assert_eq!(parse_extended_move_notation("R3"), None);
    assert_eq!(parse_extended_move_notation("R''"), None);
    assert_eq!(parse_extended_move_notation("R2'"), None);
    assert_eq!(parse_extended_move_notation("r"), None);
    assert_eq!(parse_extended_move_notation("Ré"), None);
}

#[test]
fn inverse_notation_swaps_prime() {
    assert_eq!(get_inverse_notation("R"), "R'");
    assert_eq!(get_inverse_notation("R'"), "R");
    assert_eq!(get_inverse_notation("U2"), "U2");
    assert_eq!(get_inverse_notation("M"), "M'");
    assert_eq!(get_inverse_notation(""), "");
}

#[test]
fn slice_attributes() {
    assert_eq!(LayerFace::Right.rotation_axis(), Axis::X);
    assert_eq!(LayerFace::MiddleY.rotation_axis(), Axis::Y);
    assert_eq!(LayerFace::Back.rotation_axis(), Axis::Z);
    assert_eq!(LayerFace::Right.rotation_direction(), -1);
    assert_eq!(LayerFace::Left.rotation_direction(), 1);
    assert_eq!(LayerFace::MiddleZ.rotation_direction(), -1);
    assert_eq!(LayerFace::Up.layer_index(), 1);
    assert_eq!(LayerFace::MiddleX.layer_index(), 0);
    assert_eq!(LayerFace::Down.layer_index(), -1);
    assert_eq!(LayerMoveType::Double.quarter_turns(), 2);
    assert_eq!(LayerMoveType::CounterClockwise.quarter_turns(), -1);
    assert_eq!(LayerFace::from_cube_face(CubeFace::Front), LayerFace::Front);
    assert_eq!(LayerMoveType::from_move_type(MoveType::Double), LayerMoveType::Double);
}

#[test]
fn grid_rounding_and_clamping() {
    assert_eq!(grid_index(0), 0);
    assert_eq!(grid_index(999), 0);
    assert_eq!(grid_index(1000), 1);
    assert_eq!(grid_index(-1000), -1);
    assert_eq!(grid_index(-999), 0);
    assert_eq!(grid_index(7000), 1);
    assert_eq!(grid_index(-7000), -1);
}

#[test]
fn snaps_drifted_positions_to_the_lattice() {
    assert_eq!(snap_vec3_to_grid(v(1987, -2013, 12)), v(2000, -2000, 0));
    assert_eq!(snap_vec3_to_grid(v(5000, 999, -1000)), v(2000, 0, -2000));
    assert_eq!(world_to_local_indices(v(1987, -2013, 12)), Cell { x: 1, y: -1, z: 0 });
}

#[test]
fn slice_membership_uses_tolerance_band() {
    assert!(cube_belongs_to_layer(v(2000, 0, 0), LayerFace::Right));
    assert!(cube_belongs_to_layer(v(1201, 0, 0), LayerFace::Right));
    assert!(!cube_belongs_to_layer(v(1200, 0, 0), LayerFace::Right));
    assert!(cube_belongs_to_layer(v(1799, 0, 0), LayerFace::MiddleX));
    assert!(!cube_belongs_to_layer(v(1800, 0, 0), LayerFace::MiddleX));
    assert!(cube_belongs_to_layer(v(0, -2000, 0), LayerFace::Down));
    assert!(!cube_belongs_to_layer(v(0, 0, 2000), LayerFace::Back));
    assert!(cube_belongs_to_layer(v(0, 0, -2000), LayerFace::Back));
}

#[test]
fn snaps_rotations_to_axis_aligned_bases() {
    assert_eq!(snap_dir(v(-10, 3000, 2)), Dir::PosY);
    // A quarter turn about z with some drift.
    let r = snap_rotation_to_axis_aligned(v(40, 2990, -15), v(-2995, 30, 8));
    assert_eq!(r, Orient { x: Dir::PosY, y: Dir::NegX, z: Dir::PosZ });
    // Degenerate: both axes snap to x; y is replaced by +z.
    let d = snap_rotation_to_axis_aligned(v(3000, 0, 0), v(2000, 100, 0));
    assert_eq!(d, Orient { x: Dir::PosX, y: Dir::PosZ, z: Dir::NegY });
    assert!(is_rotation(d));
    assert!(!is_rotation(Orient { x: Dir::PosX, y: Dir::PosY, z: Dir::NegZ }));
}

#[test]
fn inverse_of_a_rotation() {
    let o = Orient { x: Dir::PosY, y: Dir::NegX, z: Dir::PosZ };
    assert_eq!(inverse_orientation(o), Orient { x: Dir::NegY, y: Dir::PosX, z: Dir::PosZ });
}
