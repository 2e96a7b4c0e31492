use cube_solver::cube::{
    handle_extended_move_commands, layer_rotation_system, prepare_layer_rotation, Cube,
    LayerRotationCompletedEvent, MoveError, Owner, Piece,
};
use cube_solver::facelets::{
    calculate_facelet_index, calculate_position_in_face_from_indices,
    determine_face_orientation_from_main_position, remap_facelets_by_centers, FaceColor,
    Orientation,
};
use cube_solver::geometry::{Cell, Dir, Orient, Vec3};
use cube_solver::notation::{get_inverse_notation, LayerFace, LayerMoveType};

const SOLVED: &str = "UUUUUUUUURRRRRRRRRFFFFFFFFFDDDDDDDDDLLLLLLLLLBBBBBBBBB";

fn pieces(c: &Cube) -> Vec<Piece> {
    (0..c.piece_count()).map(|i| c.piece(i)).collect()
}

/// Colours each sticker by the face it points to at baseline, with palette
/// indices chosen per face.
fn color_by_rest_face(c: &mut Cube, palette: [u8; 6]) {
    for i in 0..c.sticker_count() {
        let k = match c.sticker(i).dir {
            Dir::PosY => palette[0],
            Dir::PosX => palette[1],
            Dir::PosZ => palette[2],
            Dir::NegY => palette[3],
            Dir::NegX => palette[4],
            Dir::NegZ => palette[5],
        };
        assert!(c.assign_color(i, Some(k)));
    }
}

fn run_move(c: &mut Cube, notation: &str) -> LayerRotationCompletedEvent {
    assert!(handle_extended_move_commands(c, notation).is_ok());
    let mut done = None;
    for _ in 0..100 {
        done = c.tick(100);
        if done.is_some() {
            break;
        }
    }
    done.expect("the turn completes")
}

#[test]
fn baseline_assembly() {
    let c = Cube::new();
    assert_eq!(c.piece_count(), 26);
    assert_eq!(c.sticker_count(), 54);
    assert!(!c.is_busy());
    for p in pieces(&c) {
        assert_eq!(p.owner, Owner::Root);
    }
    // An uncoloured assembly reads all blank.
    assert_eq!(c.map_entities_to_facelets(), " ".repeat(54));
}

#[test]
fn canonical_solved_mapping() {
    let mut c = Cube::new();
    color_by_rest_face(&mut c, [0, 2, 5, 1, 3, 4]);
    assert_eq!(c.map_entities_to_facelets(), SOLVED);
    // Any distinct colours per face read the same after relabelling.
    let mut d = Cube::new();
    color_by_rest_face(&mut d, [4, 1, 0, 5, 2, 3]);
    assert_eq!(d.map_entities_to_facelets(), SOLVED);
    let mut e = Cube::new();
    e.color_as_solved();
    assert_eq!(e.map_entities_to_facelets(), SOLVED);
}

#[test]
fn partial_colouring_leaves_blanks() {
    let mut c = Cube::new();
    assert!(c.assign_color(0, Some(3)));
    let s = c.map_entities_to_facelets();
    assert_eq!(s.chars().filter(|&ch| ch == ' ').count(), 53);
    assert!(!c.assign_color(0, Some(6)));
    assert!(!c.assign_color(54, Some(1)));
    assert!(c.assign_color(0, None));
    assert_eq!(c.map_entities_to_facelets(), " ".repeat(54));
}

#[test]
fn face_moves_match_the_solver_convention() {
    for m in ["R", "L", "U", "D", "F", "B", "R'", "U2", "F'", "B2"] {
        let mut c = Cube::new();
        color_by_rest_face(&mut c, [0, 2, 5, 1, 3, 4]);
        run_move(&mut c, m);
        let expected = min2phase::from_moves(&m.to_string()).unwrap();
        assert_eq!(c.map_entities_to_facelets(), expected, "move {}", m);
    }
}

#[test]
fn move_then_inverse_restores_every_piece() {
    for base in ["R", "L", "U", "D", "F", "B", "M", "E", "S"] {
        for m in [base.to_string(), format!("{}'", base)] {
            let mut c = Cube::new();
            color_by_rest_face(&mut c, [0, 2, 5, 1, 3, 4]);
            let before = pieces(&c);
            let cells: Vec<Cell> = (0..c.piece_count()).map(|i| c.piece_cell(i)).collect();
            let ev = run_move(&mut c, &m);
            assert_ne!(pieces(&c), before);
            run_move(&mut c, &get_inverse_notation(&m));
            assert_eq!(pieces(&c), before, "move {}", m);
            let after: Vec<Cell> = (0..c.piece_count()).map(|i| c.piece_cell(i)).collect();
            assert_eq!(after, cells);
            assert_eq!(c.map_entities_to_facelets(), SOLVED);
            let _ = ev;
        }
    }
}

#[test]
fn completion_event_names_the_move() {
    let mut c = Cube::new();
    let ev = run_move(&mut c, "M2");
    assert_eq!(ev.layer_face, LayerFace::MiddleX);
    assert_eq!(ev.move_type, LayerMoveType::Double);
    assert!(!c.is_busy());
}

#[test]
fn single_flight_discards_requests_mid_turn() {
    let mut c = Cube::new();
    color_by_rest_face(&mut c, [0, 2, 5, 1, 3, 4]);
    assert_eq!(handle_extended_move_commands(&mut c, "R"), Ok((LayerFace::Right, LayerMoveType::Clockwise)));
    assert!(c.tick(300).is_none());
    let active = c.active();
    let snapshot = pieces(&c);
    assert_eq!(handle_extended_move_commands(&mut c, "U"), Err(MoveError::Busy));
    assert_eq!(handle_extended_move_commands(&mut c, "R"), Err(MoveError::Busy));
    assert_eq!(handle_extended_move_commands(&mut c, "X"), Err(MoveError::Busy));
    assert_eq!(c.active(), active);
    assert_eq!(pieces(&c), snapshot);
    assert!(c.tick(399).is_none());
    let done = c.tick(1).expect("completes at the duration");
    assert_eq!(done.layer_face, LayerFace::Right);
    assert!(!c.is_busy());
    assert_eq!(handle_extended_move_commands(&mut c, "U").map(|r| r.0), Ok(LayerFace::Up));
}

#[test]
fn malformed_move_changes_nothing() {
    let mut c = Cube::new();
    assert_eq!(handle_extended_move_commands(&mut c, "Q"), Err(MoveError::InvalidNotation));
    assert!(!c.is_busy());
}

#[test]
fn turn_timing() {
    let mut c = Cube::new();
    handle_extended_move_commands(&mut c, "U2").unwrap();
    let a = c.active().unwrap();
    assert_eq!(a.duration, 1200);
    assert_eq!(a.target_quarters, -2);
    assert!(c.tick(1199).is_none());
    assert!(c.tick(1).is_some());
    handle_extended_move_commands(&mut c, "L'").unwrap();
    let a = c.active().unwrap();
    assert_eq!(a.duration, 700);
    assert_eq!(a.target_quarters, -1);
}

#[test]
fn prepare_reparents_slice_members_only() {
    let mut c = Cube::new();
    handle_extended_move_commands(&mut c, "F").unwrap();
    prepare_layer_rotation(&mut c);
    let on_pivot = pieces(&c).iter().filter(|p| p.owner == Owner::Pivot(LayerFace::Front)).count();
    assert_eq!(on_pivot, 9);
    // Not prepared twice; the animate step alone finishes it.
    prepare_layer_rotation(&mut c);
    assert!(layer_rotation_system(&mut c, 700).is_some());
    assert!(pieces(&c).iter().all(|p| p.owner == Owner::Root));
}

#[test]
fn reorientation_keeps_the_state() {
    let mut c = Cube::new();
    color_by_rest_face(&mut c, [0, 2, 5, 1, 3, 4]);
    run_move(&mut c, "R");
    run_move(&mut c, "U'");
    run_move(&mut c, "M");
    let before = c.map_entities_to_facelets();
    assert!(c.set_orientation(Orient { x: Dir::PosY, y: Dir::NegX, z: Dir::PosZ }));
    assert_eq!(c.map_entities_to_facelets(), before);
    assert!(c.set_orientation(Orient { x: Dir::NegZ, y: Dir::PosX, z: Dir::NegY }));
    assert_eq!(c.map_entities_to_facelets(), before);
    assert!(!c.set_orientation(Orient { x: Dir::PosX, y: Dir::PosX, z: Dir::PosZ }));
}

#[test]
fn middle_turn_moves_centres_and_relabels() {
    let mut c = Cube::new();
    color_by_rest_face(&mut c, [0, 2, 5, 1, 3, 4]);
    run_move(&mut c, "M");
    let s = c.map_entities_to_facelets();
    // Centres always read their own labels after relabelling.
    let chars: Vec<char> = s.chars().collect();
    assert_eq!([chars[4], chars[13], chars[22], chars[31], chars[40], chars[49]], ['U', 'R', 'F', 'D', 'L', 'B']);
    assert_ne!(s, SOLVED);
}

#[test]
fn facelet_index_rules() {
    let o = determine_face_orientation_from_main_position(Vec3 { x: 2936, y: 2000, z: 2000 });
    assert_eq!(o, Orientation::Right);
    assert_eq!(determine_face_orientation_from_main_position(Vec3 { x: 0, y: 0, z: -2936 }), Orientation::Back);
    assert_eq!(calculate_position_in_face_from_indices(Cell { x: -1, y: 1, z: 1 }, Orientation::Front), 0);
    assert_eq!(calculate_position_in_face_from_indices(Cell { x: 1, y: -1, z: 1 }, Orientation::Front), 8);
    assert_eq!(calculate_position_in_face_from_indices(Cell { x: 1, y: 1, z: -1 }, Orientation::Back), 0);
    assert_eq!(calculate_position_in_face_from_indices(Cell { x: 1, y: 0, z: 1 }, Orientation::Right), 3);
    assert_eq!(calculate_position_in_face_from_indices(Cell { x: -1, y: 1, z: -1 }, Orientation::Up), 0);
    assert_eq!(calculate_position_in_face_from_indices(Cell { x: -1, y: -1, z: 1 }, Orientation::Down), 0);
    assert_eq!(calculate_position_in_face_from_indices(Cell { x: -1, y: 0, z: 0 }, Orientation::Left), 4);
    // The up-front-right corner's right sticker is R1.
    assert_eq!(calculate_facelet_index(Vec3 { x: 2936, y: 2000, z: 2000 }, Vec3 { x: 2000, y: 2000, z: 2000 }), 9);
    assert_eq!(Orientation::Down.facelet_offset(), 27);
    assert_eq!(Orientation::Up.as_str(), "Top");
}

#[test]
fn colours_and_labels() {
    assert_eq!(FaceColor::from_index(0).to_facelet_char(), 'U');
    assert_eq!(FaceColor::from_index(1).to_facelet_char(), 'D');
    assert_eq!(FaceColor::from_index(5), FaceColor::Green);
    assert_eq!(FaceColor::Orange.to_facelet_char(), 'L');
}

#[test]
fn centre_relabelling() {
    // Colours named by other labels: each is renamed after its centre.
    let raw: String = [
        "RRRRRRRRR", "UUUUUUUUU", "FFFFFFFFF", "DDDDDDDDD", "LLLLLLLLL", "BBBBBBBBB",
    ]
    .concat();
    assert_eq!(remap_facelets_by_centers(&raw), SOLVED);
    // Blanks pass through; a string of another length is kept as it is.
    let mut blanky: Vec<char> = raw.chars().collect();
    blanky[0] = ' ';
    let blanky: String = blanky.into_iter().collect();
    assert_eq!(remap_facelets_by_centers(&blanky).chars().next(), Some(' '));
    assert_eq!(remap_facelets_by_centers("RU"), "RU");
}

#[test]
fn revision_changes_with_colours_and_turns() {
    let mut c = Cube::new();
    let r0 = c.revision();
    assert!(c.set_orientation(Orient { x: Dir::PosZ, y: Dir::PosY, z: Dir::NegX }));
    assert_eq!(c.revision(), r0);
    assert!(c.assign_color(5, Some(1)));
    let r1 = c.revision();
    assert_ne!(r1, r0);
    assert!(!c.assign_color(500, Some(1)));
    assert_eq!(c.revision(), r1);
    handle_extended_move_commands(&mut c, "E").unwrap();
    assert!(c.tick(10).is_none());
    assert_eq!(c.revision(), r1);
    assert!(c.tick(690).is_some());
    assert_ne!(c.revision(), r1);
}
