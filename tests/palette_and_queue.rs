use cube_solver::cube::{get_layer_cubes, handle_rst_button, Cube, CubeMoveTarget, LayerRotationAnimation};
use cube_solver::geometry::{Dir, Orient};
use cube_solver::geometry::{get_position_in_layer, Vec3};
use cube_solver::notation::{CubeFace, LayerFace, LayerMoveType};
use cube_solver::palette::{handle_fix_button, ColorManager, RecolorOutcome};
use cube_solver::queue::{
    drive_move_queue, handle_backspace_button, handle_move_completion, handle_move_selection,
    handle_navigation_next_button_clicks, handle_navigation_prev_button_clicks,
    handle_clr_button, handle_solve_button_clicks, MoveQueue,
};
use cube_solver::validation::CubeSolverResource;

#[test]
fn palette_counts_up_to_the_limit() {
    let mut m = ColorManager::new();
    assert_eq!(m.get_selected_color(), Some(0));
    for i in 0..8 {
        assert_eq!(m.apply_color_to_face(2, None), Ok(false), "use {}", i);
    }
    assert_eq!(m.apply_color_to_face(2, None), Ok(true));
    assert!(m.is_at_limit(2));
    assert!(!m.can_use_color(2));
    assert_eq!(
        m.apply_color_to_face(2, None),
        Err("Cannot apply color 2 - limit reached (9/9)".to_string())
    );
    assert_eq!(m.get_usage_info(2), "9/9");
    // Recolouring a red sticker blue gives one red back.
    assert_eq!(m.apply_color_to_face(4, Some(2)), Ok(false));
    assert_eq!(m.get_count(2), 8);
    assert_eq!(m.get_count(4), 1);
    assert_eq!(m.apply_color_to_face(6, None), Err("Invalid color index: 6".to_string()));
    assert_eq!(m.get_count(6), 0);
}

#[test]
fn palette_selection_and_return() {
    let mut m = ColorManager::new();
    assert_eq!(m.try_select_color(5), Ok(()));
    assert_eq!(m.get_selected_color(), Some(5));
    assert_eq!(m.try_select_color(7), Err("Invalid color index: 7".to_string()));
    assert_eq!(m.get_selected_color(), Some(5));
    m.decrement_color(3);
    assert_eq!(m.get_count(3), 0);
    m.apply_color_to_face(3, None).unwrap();
    m.decrement_color(3);
    assert_eq!(m.get_count(3), 0);
    m.apply_color_to_face(1, None).unwrap();
    m.clear_counts();
    assert_eq!(m.get_count(1), 0);
}

fn queue_of(moves: &[&str]) -> MoveQueue {
    let mut q = MoveQueue::new();
    for m in moves {
        assert!(handle_move_selection(&mut q, m));
    }
    q
}

#[test]
fn queue_accepts_valid_moves_only() {
    let mut q = queue_of(&["R", "U'"]);
    assert!(!handle_move_selection(&mut q, "Q2"));
    assert_eq!(q.pending, vec!["R", "U'"]);
    assert_eq!(handle_backspace_button(&mut q), Some("U'".to_string()));
    assert_eq!(q.pending, vec!["R"]);
    q.clear();
    assert!(q.pending.is_empty());
    assert_eq!(handle_backspace_button(&mut q), None);
}

#[test]
fn drive_plays_in_order() {
    let mut q = queue_of(&["R", "U", "F2"]);
    assert_eq!(drive_move_queue(&mut q, false), Some("R".to_string()));
    assert_eq!(drive_move_queue(&mut q, false), None);
    assert_eq!(drive_move_queue(&mut q, true), Some("U".to_string()));
    handle_move_completion(&mut q);
    assert_eq!(drive_move_queue(&mut q, false), Some("F2".to_string()));
    assert_eq!(drive_move_queue(&mut q, true), None);
    assert_eq!(q.current, None);
}

#[test]
fn navigation_steps_forward_and_back() {
    let mut q = queue_of(&["R", "U2"]);
    assert_eq!(handle_navigation_next_button_clicks(&mut q), Some("R".to_string()));
    assert_eq!(q.highlight_index, Some(1));
    // Busy: nothing happens.
    assert_eq!(handle_navigation_next_button_clicks(&mut q), None);
    handle_move_completion(&mut q);
    assert_eq!(handle_navigation_next_button_clicks(&mut q), Some("U2".to_string()));
    handle_move_completion(&mut q);
    assert_eq!(handle_navigation_next_button_clicks(&mut q), None);
    assert_eq!(handle_navigation_prev_button_clicks(&mut q), Some("U2".to_string()));
    handle_move_completion(&mut q);
    assert_eq!(handle_navigation_prev_button_clicks(&mut q), Some("R'".to_string()));
    handle_move_completion(&mut q);
    assert_eq!(q.highlight_index, Some(0));
    assert_eq!(handle_navigation_prev_button_clicks(&mut q), None);
    let mut fresh = queue_of(&["F"]);
    assert_eq!(handle_navigation_prev_button_clicks(&mut fresh), None);
    assert_eq!(fresh.highlight_index, Some(1));
    // Backspace pulls a highlight past the end back to the end.
    assert_eq!(handle_backspace_button(&mut fresh), Some("F".to_string()));
    assert_eq!(fresh.highlight_index, Some(0));
}

#[test]
fn solve_request_loads_the_solution() {
    let mut solver = CubeSolverResource::new();
    let mut q = MoveQueue::new();
    assert!(!handle_solve_button_clicks(&mut solver, &mut q));
    solver.update_from_entities(min2phase::from_moves(&"R".to_string()).unwrap());
    assert!(handle_solve_button_clicks(&mut solver, &mut q));
    assert_eq!(q.pending.len(), 1);
    assert!(q.pending[0].starts_with('R'));
    assert_eq!(q.highlight_index, Some(0));
    assert!(solver.is_solving());
}

#[test]
fn animation_helpers() {
    let a = LayerRotationAnimation::new(LayerFace::Left, LayerMoveType::Clockwise);
    assert_eq!(a.target_quarters, 1);
    assert_eq!(a.duration, 700);
    assert!(!a.is_complete());
    assert_eq!(a.progress(), (0, 700));
    let b = LayerRotationAnimation { elapsed: 900, ..a };
    assert!(b.is_complete());
    assert_eq!(b.progress(), (700, 700));
    let c = LayerRotationAnimation::new(LayerFace::MiddleY, LayerMoveType::Double);
    assert_eq!((c.target_quarters, c.duration), (-2, 1200));
}

#[test]
fn layer_lookup_and_positions() {
    let c = Cube::new();
    for f in [LayerFace::Right, LayerFace::MiddleX, LayerFace::Down, LayerFace::MiddleZ] {
        let members = get_layer_cubes(&c, f);
        let expected = if matches!(f, LayerFace::MiddleX | LayerFace::MiddleZ) { 8 } else { 9 };
        assert_eq!(members.len(), expected, "{:?}", f);
    }
    let p = Vec3 { x: 1, y: 2, z: 3 };
    assert_eq!(get_position_in_layer(p, LayerFace::Front), (1, 2));
    assert_eq!(get_position_in_layer(p, LayerFace::Left), (3, 2));
    assert_eq!(get_position_in_layer(p, LayerFace::MiddleY), (1, 3));
    assert_eq!(CubeMoveTarget::determine_face_from_position(&Vec3 { x: 2000, y: 2000, z: 0 }), CubeFace::Right);
    assert_eq!(CubeMoveTarget::determine_face_from_position(&Vec3 { x: 0, y: -2000, z: 2000 }), CubeFace::Down);
    assert_eq!(CubeMoveTarget::determine_face_from_position(&Vec3 { x: 0, y: 0, z: -2000 }), CubeFace::Back);
}

#[test]
fn recolouring_selected_stickers() {
    let mut cube = Cube::new();
    let mut m = ColorManager::new();
    m.try_select_color(3).unwrap();
    assert!(matches!(m.apply_color_to_selected_face(&mut cube, 0), RecolorOutcome::Colored(false)));
    assert_eq!(cube.sticker(0).color, Some(3));
    assert_eq!(m.get_count(3), 1);
    // The same colour again clears the sticker.
    assert!(matches!(m.apply_color_to_selected_face(&mut cube, 0), RecolorOutcome::Cleared));
    assert_eq!(cube.sticker(0).color, None);
    assert_eq!(m.get_count(3), 0);
    // A different colour replaces the old one and gives it back.
    m.apply_color_to_selected_face(&mut cube, 1);
    m.try_select_color(4).unwrap();
    assert!(matches!(m.apply_color_to_selected_face(&mut cube, 1), RecolorOutcome::Colored(false)));
    assert_eq!((m.get_count(3), m.get_count(4)), (0, 1));
    // At the limit the colour is refused.
    for i in 2..10 {
        m.apply_color_to_selected_face(&mut cube, i);
    }
    assert_eq!(m.get_count(4), 9);
    assert!(matches!(m.apply_color_to_selected_face(&mut cube, 20), RecolorOutcome::Refused(_)));
    assert_eq!(cube.sticker(20).color, None);
    assert!(matches!(m.apply_color_to_selected_face(&mut cube, 99), RecolorOutcome::Unchanged));
    cube.clear_colors();
    assert!((0..cube.sticker_count()).all(|i| cube.sticker(i).color.is_none()));
}

#[test]
fn fix_clear_and_reset_buttons() {
    let mut cube = Cube::new();
    let mut palette = ColorManager::new();
    let mut solver = CubeSolverResource::new();
    let mut queue = MoveQueue::new();
    handle_fix_button(&mut cube, &mut palette);
    for c in 0..6 {
        assert_eq!(palette.get_count(c), 9);
    }
    assert_eq!(cube.map_entities_to_facelets(), "UUUUUUUUURRRRRRRRRFFFFFFFFFDDDDDDDDDLLLLLLLLLBBBBBBBBB");
    assert!(cube.set_orientation(Orient { x: Dir::NegX, y: Dir::PosY, z: Dir::NegZ }));
    handle_rst_button(&mut cube);
    assert_eq!(cube.orientation(), Orient { x: Dir::PosX, y: Dir::PosY, z: Dir::PosZ });
    handle_move_selection(&mut queue, "R");
    solver.update_from_entities(cube.map_entities_to_facelets());
    handle_clr_button(&mut cube, &mut palette, &mut solver, &mut queue);
    assert_eq!(cube.map_entities_to_facelets(), " ".repeat(54));
    assert_eq!(palette.get_count(0), 0);
    assert_eq!(solver.facelets(), None);
    assert!(queue.pending.is_empty());
}

#[test]
fn solve_request_on_unsolvable_state_fails_and_keeps_queue() {
    let mut solver = CubeSolverResource::new();
    let mut q = MoveQueue::new();
    handle_move_selection(&mut q, "U");
    let flipped = {
        let mut v: Vec<char> = "UUUUUUUUURRRRRRRRRFFFFFFFFFDDDDDDDDDLLLLLLLLLBBBBBBBBB".chars().collect();
        v[7] = 'F';
        v[19] = 'U';
        v.into_iter().collect::<String>()
    };
    solver.update_from_entities(flipped.clone());
    assert!(!handle_solve_button_clicks(&mut solver, &mut q));
    assert_eq!(solver.facelets(), Some(flipped.as_str()));
    assert!(!solver.is_valid());
    assert_eq!(q.pending, vec!["U"]);
}
