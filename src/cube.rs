//! The assembly: 26 pieces in a flat arena, each owned by the root or by one of
//! the nine slice pivots, the stickers on their outer faces, and the one slice
//! turn that may be in progress.
//!
//! A pivot rests at the identity relative to the root, and the angle of a turn
//! in progress is presentation only, so a piece's pose relative to its pivot is
//! also its pose relative to the root until the turn completes; then the turn
//! is baked into the poses of the pivot's pieces, which return to the root.

use vstd::prelude::*;
use crate::facelets::{
    FaceColor, calculate_facelet_index, canonical, color_char, distinct_centers, relabelled, facelet_index_spec, remap_chars,
    string_of,
};
use crate::geometry::{
    Cell, Dir, Orient, Vec3, apply, cell_center, cell_ok, compose, cube_belongs_to_layer,
    identity, image_dir, in_layer, lemma_inverse_apply, snap_rotation_to_axis_aligned,
    snap_spec, snap_vec3_to_grid, snapped_orient, GRID_STEP,
};
use crate::notation::{
    Axis, CubeFace, LayerFace, LayerMoveType, inverse_of, lemma_inverse_notation_parses, opposite,
    parse_extended_move_notation, parse_layer_move,
};

verus! {

/// Distance from a piece's centre to its stickers, in fixed-point units.
pub const STICKER_OFFSET: i64 = 936;

/// Most stickers an assembly holds: six on each of 27 cells.
pub const MAX_STICKERS: usize = 162;

/// Duration of a quarter turn, in milliseconds.
pub const QUARTER_TURN_MS: u64 = 700;

/// Duration of a half turn, in milliseconds (slower, to stay legible).
pub const HALF_TURN_MS: u64 = 1200;

/// A position and an orientation relative to an owner.
#[derive(Clone, Copy, Debug, PartialEq, Eq, Hash, Structural)]
pub struct Pose {
    pub pos: Vec3,
    pub rot: Orient,
}

/// Who owns a piece: the root assembly or a slice pivot.
#[derive(Clone, Copy, Debug, PartialEq, Eq, Hash, Structural)]
pub enum Owner {
    Root,
    Pivot(LayerFace),
}

/// A piece: its pose relative to its owner, and the owner.
#[derive(Clone, Copy, Debug, PartialEq, Eq, Hash, Structural)]
pub struct Piece {
    pub pose: Pose,
    pub owner: Owner,
}

/// A sticker: the piece it sits on, the local direction it faces, and its
/// palette colour (`0..6`) if one was assigned.
#[derive(Clone, Copy, Debug, PartialEq, Eq, Hash, Structural)]
pub struct Sticker {
    pub piece: usize,
    pub dir: Dir,
    pub color: Option<u8>,
}

/// The turn in progress on one pivot.
#[derive(Clone, Copy, Debug, PartialEq, Eq, Hash, Structural)]
pub struct LayerRotationAnimation {
    pub face: LayerFace,
    pub move_type: LayerMoveType,
    /// Signed quarter turns about the slice's positive axis.
    pub target_quarters: i8,
    /// Milliseconds.
    pub duration: u64,
    /// Milliseconds.
    pub elapsed: u64,
    /// Whether the pivot's pieces were reparented for this turn.
    pub prepared: bool,
}

/// Emitted when a turn completes.
#[derive(Clone, Copy, Debug, PartialEq, Eq, Hash, Structural)]
pub struct LayerRotationCompletedEvent {
    pub layer_face: LayerFace,
    pub move_type: LayerMoveType,
}

/// Why a move request was not started.
#[derive(Clone, Copy, Debug, PartialEq, Eq, Hash, Structural)]
pub enum MoveError {
    /// The notation is malformed; nothing changed.
    InvalidNotation,
    /// A turn is in progress; the request is discarded, not queued.
    Busy,
}

/// The mathematical content of a `Cube`.
pub struct CubeModel {
    pub root: Orient,
    pub pieces: Seq<Piece>,
    pub stickers: Seq<Sticker>,
    pub active: Option<LayerRotationAnimation>,
    /// Changes whenever a colour changes or a turn completes.
    pub revision: u64,
}

/// The assembly and its turn state.
pub struct Cube {
    root: Orient,
    pieces: Vec<Piece>,
    stickers: Vec<Sticker>,
    active: Option<LayerRotationAnimation>,
    revision: u64,
}

impl View for Cube {
    type V = CubeModel;

    closed spec fn view(&self) -> CubeModel {
        CubeModel {
            root: self.root,
            pieces: self.pieces@,
            stickers: self.stickers@,
            active: self.active,
            revision: self.revision,
        }
    }
}

/// The revision after `r`: one more, wrapping to zero at the end.
pub open spec fn next_revision(r: u64) -> u64 {
    if r == u64::MAX {
        0
    } else {
        (r + 1) as u64
    }
}

fn bump(r: u64) -> (n: u64)
    ensures
        n == next_revision(r),
{
    if r == u64::MAX {
        0
    } else {
        r + 1
    }
}

// ---------------------------------------------------------------------------
// Turns as rotations

/// `q` right-handed quarter turns about an axis.
pub open spec fn turn_orient(a: Axis, q: int) -> Orient {
    turn_table(a, q % 4)
}

/// Signed quarter turns of a move about its slice's positive axis.
pub open spec fn total_quarters(face: LayerFace, kind: LayerMoveType) -> int {
    if face.direction_spec() == 1 {
        kind.quarters_spec()
    } else {
        -kind.quarters_spec()
    }
}

pub open spec fn duration_of(kind: LayerMoveType) -> u64 {
    match kind {
        LayerMoveType::Double => HALF_TURN_MS,
        _ => QUARTER_TURN_MS,
    }
}

// ---------------------------------------------------------------------------
// The phases of a turn, piece by piece

/// The pose relative to the root that preparation starts from: a piece left
/// on this pivot by an earlier turn is snapped to the grid first.
pub open spec fn pose_for_prepare(p: Piece, face: LayerFace) -> Pose {
    if p.owner == Owner::Pivot(face) {
        Pose { pos: snap_spec(p.pose.pos), rot: p.pose.rot }
    } else {
        p.pose
    }
}

/// Preparation of one piece for a turn of `face`: a member of the slice goes
/// to the pivot with its pose kept exactly; any other piece goes to the root
/// with its position snapped to the grid.
pub open spec fn prepare_piece(p: Piece, face: LayerFace) -> Piece {
    let rel = pose_for_prepare(p, face);
    if in_layer(rel.pos, face) {
        Piece { pose: rel, owner: Owner::Pivot(face) }
    } else {
        Piece { pose: Pose { pos: snap_spec(rel.pos), rot: rel.rot }, owner: Owner::Root }
    }
}

/// Completion of a turn of `q` quarters for one piece: a piece of the pivot
/// takes the turn into its pose, snapped, and returns to the root; any other
/// piece is left alone.
pub open spec fn finalize_piece(p: Piece, face: LayerFace, q: int) -> Piece {
    if p.owner == Owner::Pivot(face) {
        let t = turn_orient(face.axis_spec(), q);
        Piece {
            pose: Pose { pos: snap_spec(t.apply_spec(p.pose.pos)), rot: t.compose(p.pose.rot) },
            owner: Owner::Root,
        }
    } else {
        p
    }
}

pub open spec fn prepare_all(pieces: Seq<Piece>, face: LayerFace) -> Seq<Piece> {
    pieces.map_values(|p: Piece| prepare_piece(p, face))
}

pub open spec fn finalize_all(pieces: Seq<Piece>, face: LayerFace, q: int) -> Seq<Piece> {
    pieces.map_values(|p: Piece| finalize_piece(p, face, q))
}

/// The pieces after a whole move: preparation, then completion.
pub open spec fn complete_move(pieces: Seq<Piece>, face: LayerFace, kind: LayerMoveType) -> Seq<Piece> {
    finalize_all(prepare_all(pieces, face), face, total_quarters(face, kind))
}

// ---------------------------------------------------------------------------
// Well-formedness

/// A point of the lattice: snapping leaves it in place.
pub open spec fn on_lattice(v: Vec3) -> bool {
    snap_spec(v) == v
}

pub open spec fn piece_ok(p: Piece) -> bool {
    on_lattice(p.pose.pos) && p.pose.rot.wf()
}

impl CubeModel {
    /// During a prepared turn only that turn's pivot owns pieces; otherwise a
    /// pivot may still hold pieces left from an earlier turn (stale children),
    /// which the next preparation of that pivot snaps and returns to the root.
    pub open spec fn owner_ok(self, o: Owner) -> bool {
        match o {
            Owner::Root => true,
            Owner::Pivot(f) => !(self.active matches Some(a) && a.prepared && a.face != f),
        }
    }

    pub open spec fn wf(self) -> bool {
        &&& self.root.wf()
        &&& self.stickers.len() <= MAX_STICKERS
        &&& forall|i: int|
            0 <= i < self.pieces.len() ==> piece_ok(#[trigger] self.pieces[i]) && self.owner_ok(
                self.pieces[i].owner,
            )
        &&& forall|i: int|
            0 <= i < self.stickers.len() ==> (#[trigger] self.stickers[i]).piece
                < self.pieces.len() && (self.stickers[i].color matches Some(c) ==> c < 6)
        &&& self.active matches Some(a) ==> {
            &&& a.target_quarters == total_quarters(a.face, a.move_type)
            &&& a.duration == duration_of(a.move_type)
            &&& a.elapsed < a.duration
        }
    }
}

// ---------------------------------------------------------------------------
// Lemmas on turns

/// The rotation of `r` (in `0..4`) right-handed quarter turns about an axis.
pub open spec fn turn_table(a: Axis, r: int) -> Orient {
    match a {
        Axis::X => if r == 0 {
            identity()
        } else if r == 1 {
            Orient { x: Dir::PosX, y: Dir::PosZ, z: Dir::NegY }
        } else if r == 2 {
            Orient { x: Dir::PosX, y: Dir::NegY, z: Dir::NegZ }
        } else {
            Orient { x: Dir::PosX, y: Dir::NegZ, z: Dir::PosY }
        },
        Axis::Y => if r == 0 {
            identity()
        } else if r == 1 {
            Orient { x: Dir::NegZ, y: Dir::PosY, z: Dir::PosX }
        } else if r == 2 {
            Orient { x: Dir::NegX, y: Dir::PosY, z: Dir::NegZ }
        } else {
            Orient { x: Dir::PosZ, y: Dir::PosY, z: Dir::NegX }
        },
        Axis::Z => if r == 0 {
            identity()
        } else if r == 1 {
            Orient { x: Dir::PosY, y: Dir::NegX, z: Dir::PosZ }
        } else if r == 2 {
            Orient { x: Dir::NegX, y: Dir::NegY, z: Dir::PosZ }
        } else {
            Orient { x: Dir::NegY, y: Dir::PosX, z: Dir::PosZ }
        },
    }
}

proof fn lemma_turn_table(a: Axis, q: int)
    ensures
        turn_orient(a, q) == turn_table(a, q % 4),
        turn_orient(a, q).wf(),
{
}

/// A turn followed by the opposite turn about the same axis is the identity.
proof fn lemma_turn_back(a: Axis, q: int, d: Dir)
    ensures
        turn_orient(a, -q).image(turn_orient(a, q).image(d)) == d,
{
    lemma_turn_table(a, q);
    lemma_turn_table(a, -q);
    assert((-q) % 4 == (4 - q % 4) % 4);
}

/// Turning a proper rotation gives a proper rotation.
proof fn lemma_turn_compose_wf(a: Axis, q: int, o: Orient)
    requires
        o.wf(),
    ensures
        turn_orient(a, q).compose(o).wf(),
{
    lemma_turn_table(a, q);
}

pub open spec fn lattice_coord(v: int) -> bool {
    v == -GRID_STEP || v == 0 || v == GRID_STEP
}

proof fn lemma_on_lattice(v: Vec3)
    ensures
        on_lattice(v) <==> lattice_coord(v.x as int) && lattice_coord(v.y as int) && lattice_coord(
            v.z as int,
        ),
{
    reveal(crate::geometry::grid_index_spec);
    let (x, y, z) = (v.x as int, v.y as int, v.z as int);
    if x >= 1000 {
        assert(crate::geometry::round_div(x, 2000) >= 1);
    } else if x <= -1000 {
        assert(crate::geometry::round_div(x, 2000) <= -1);
    } else {
        assert(crate::geometry::round_div(x, 2000) == 0);
    }
    if y >= 1000 {
        assert(crate::geometry::round_div(y, 2000) >= 1);
    } else if y <= -1000 {
        assert(crate::geometry::round_div(y, 2000) <= -1);
    } else {
        assert(crate::geometry::round_div(y, 2000) == 0);
    }
    if z >= 1000 {
        assert(crate::geometry::round_div(z, 2000) >= 1);
    } else if z <= -1000 {
        assert(crate::geometry::round_div(z, 2000) <= -1);
    } else {
        assert(crate::geometry::round_div(z, 2000) == 0);
    }
}

/// A turn keeps a lattice point on the lattice, and keeps its coordinate on
/// the turn's axis.
proof fn lemma_turn_lattice(a: Axis, q: int, v: Vec3)
    requires
        on_lattice(v),
    ensures
        on_lattice(turn_orient(a, q).apply_spec(v)),
        turn_orient(a, q).apply_spec(v).comp(a) == v.comp(a),
        v.in_range(),
{
    lemma_turn_table(a, q);
    lemma_on_lattice(v);
    lemma_on_lattice(turn_orient(a, q).apply_spec(v));
}

proof fn lemma_turn_back_point(a: Axis, q: int, v: Vec3)
    requires
        on_lattice(v),
    ensures
        turn_orient(a, -q).apply_spec(turn_orient(a, q).apply_spec(v)) == v,
{
    lemma_turn_table(a, q);
    lemma_turn_table(a, -q);
    lemma_on_lattice(v);
    assert((-q) % 4 == (4 - q % 4) % 4);
}

/// A quarter turn and the turn of the opposite kind on the same slice are
/// quarter turns by opposite amounts about the same axis, and together they
/// rotate by nothing.
pub proof fn lemma_opposite_quarter_turns_cancel(f: LayerFace, k: LayerMoveType)
    requires
        k != LayerMoveType::Double,
    ensures
        new_animation(f, opposite(k)).target_quarters == -new_animation(f, k).target_quarters,
        new_animation(f, k).target_quarters == 1 || new_animation(f, k).target_quarters == -1,
        turn_orient(f.axis_spec(), total_quarters(f, opposite(k))).compose(
            turn_orient(f.axis_spec(), total_quarters(f, k)),
        ) == identity(),
{
    let a = f.axis_spec();
    let q = total_quarters(f, k);
    lemma_turn_table(a, q);
    lemma_turn_back(a, q, Dir::PosX);
    lemma_turn_back(a, q, Dir::PosY);
    lemma_turn_back(a, q, Dir::PosZ);
    assert(total_quarters(f, opposite(k)) == -q);
}

proof fn lemma_piece_turn_back(p: Piece, f: LayerFace, q: int)
    requires
        piece_ok(p),
        p.owner == Owner::Root,
    ensures
        piece_ok(finalize_piece(prepare_piece(p, f), f, q)),
        finalize_piece(prepare_piece(p, f), f, q).owner == Owner::Root,
        finalize_piece(prepare_piece(finalize_piece(prepare_piece(p, f), f, q), f), f, -q) == p,
{
    let a = f.axis_spec();
    let turned = finalize_piece(prepare_piece(p, f), f, q);
    lemma_turn_lattice(a, q, p.pose.pos);
    lemma_turn_compose_wf(a, q, p.pose.rot);
    if in_layer(p.pose.pos, f) {
        let t = turn_orient(a, q);
        assert(turned.pose.pos == t.apply_spec(p.pose.pos));
        lemma_turn_lattice(a, -q, turned.pose.pos);
        lemma_turn_back_point(a, q, p.pose.pos);
        lemma_turn_back(a, q, p.pose.rot.x);
        lemma_turn_back(a, q, p.pose.rot.y);
        lemma_turn_back(a, q, p.pose.rot.z);
    }
}

#[verifier::rlimit(40)]
proof fn lemma_piece_move_back(p: Piece, f: LayerFace, k: LayerMoveType)
    requires
        piece_ok(p),
        p.owner == Owner::Root,
    ensures
        finalize_piece(
            prepare_piece(finalize_piece(prepare_piece(p, f), f, total_quarters(f, k)), f),
            f,
            total_quarters(f, opposite(k)),
        ) == p,
{
    let q = total_quarters(f, k);
    let q2 = total_quarters(f, opposite(k));
    lemma_piece_turn_back(p, f, q);
    lemma_turn_table(f.axis_spec(), q2);
    lemma_turn_table(f.axis_spec(), -q);
    assert(turn_orient(f.axis_spec(), q2) == turn_orient(f.axis_spec(), -q));
}

/// Turning a slice and then turning it back by the inverse notation returns
/// every piece to its pose, owned by the root.
pub proof fn lemma_move_then_inverse_restores(pieces: Seq<Piece>, notation: Seq<char>)
    requires
        forall|i: int|
            0 <= i < pieces.len() ==> piece_ok(#[trigger] pieces[i]) && pieces[i].owner
                == Owner::Root,
        parse_layer_move(notation) is Some,
    ensures
        ({
            let (f, k) = parse_layer_move(notation).unwrap();
            let (g, l) = parse_layer_move(inverse_of(notation)).unwrap();
            complete_move(complete_move(pieces, f, k), g, l) == pieces
        }),
{
    let (f, k) = parse_layer_move(notation).unwrap();
    lemma_inverse_notation_parses(notation);
    let twice = complete_move(complete_move(pieces, f, k), f, opposite(k));
    assert forall|i: int| 0 <= i < pieces.len() implies #[trigger] twice[i] == pieces[i] by {
        lemma_piece_move_back(pieces[i], f, k);
    }
    assert(twice =~= pieces);
}

// ---------------------------------------------------------------------------
// Executable turn steps

/// The vector of length `GRID_STEP` along a direction.
pub open spec fn unit_vec(d: Dir) -> Vec3 {
    Vec3 {
        x: d.part(GRID_STEP as int, Axis::X) as i64,
        y: d.part(GRID_STEP as int, Axis::Y) as i64,
        z: d.part(GRID_STEP as int, Axis::Z) as i64,
    }
}

fn dir_vector(d: Dir, len: i64) -> (r: Vec3)
    requires
        0 <= len <= GRID_STEP,
    ensures
        r.x == d.part(len as int, Axis::X),
        r.y == d.part(len as int, Axis::Y),
        r.z == d.part(len as int, Axis::Z),
{
    match d {
        Dir::PosX => Vec3 { x: len, y: 0, z: 0 },
        Dir::NegX => Vec3 { x: -len, y: 0, z: 0 },
        Dir::PosY => Vec3 { x: 0, y: len, z: 0 },
        Dir::NegY => Vec3 { x: 0, y: -len, z: 0 },
        Dir::PosZ => Vec3 { x: 0, y: 0, z: len },
        Dir::NegZ => Vec3 { x: 0, y: 0, z: -len },
    }
}

/// Snapping an axis-aligned rotation leaves it unchanged.
proof fn lemma_snap_exact(o: Orient)
    requires
        o.wf(),
    ensures
        snapped_orient(unit_vec(o.x), unit_vec(o.y)) == o,
{
}

fn turn_orientation(a: Axis, q: i8) -> (r: Orient)
    ensures
        r == turn_orient(a, q as int),
{
    proof {
        lemma_turn_table(a, q as int);
    }
    let m = ((q % 4) + 4) % 4;
    assert(m as int == (q as int) % 4);
    match a {
        Axis::X => if m == 0 {
            Orient { x: Dir::PosX, y: Dir::PosY, z: Dir::PosZ }
        } else if m == 1 {
            Orient { x: Dir::PosX, y: Dir::PosZ, z: Dir::NegY }
        } else if m == 2 {
            Orient { x: Dir::PosX, y: Dir::NegY, z: Dir::NegZ }
        } else {
            Orient { x: Dir::PosX, y: Dir::NegZ, z: Dir::PosY }
        },
        Axis::Y => if m == 0 {
            Orient { x: Dir::PosX, y: Dir::PosY, z: Dir::PosZ }
        } else if m == 1 {
            Orient { x: Dir::NegZ, y: Dir::PosY, z: Dir::PosX }
        } else if m == 2 {
            Orient { x: Dir::NegX, y: Dir::PosY, z: Dir::NegZ }
        } else {
            Orient { x: Dir::PosZ, y: Dir::PosY, z: Dir::NegX }
        },
        Axis::Z => if m == 0 {
            Orient { x: Dir::PosX, y: Dir::PosY, z: Dir::PosZ }
        } else if m == 1 {
            Orient { x: Dir::PosY, y: Dir::NegX, z: Dir::PosZ }
        } else if m == 2 {
            Orient { x: Dir::NegX, y: Dir::NegY, z: Dir::PosZ }
        } else {
            Orient { x: Dir::NegY, y: Dir::PosX, z: Dir::PosZ }
        },
    }
}

/// Snaps a rotation to the nearest axis-aligned basis, which for an exact
/// rotation is itself.
fn snap_rotation(o: Orient) -> (r: Orient)
    requires
        o.wf(),
    ensures
        r == o,
{
    proof {
        lemma_snap_exact(o);
    }
    snap_rotation_to_axis_aligned(dir_vector(o.x, GRID_STEP), dir_vector(o.y, GRID_STEP))
}

fn prepare_one(p: Piece, face: LayerFace) -> (r: Piece)
    requires
        piece_ok(p),
    ensures
        r == prepare_piece(p, face),
        piece_ok(r),
{
    proof {
        lemma_on_lattice(p.pose.pos);
    }
    let rel = if p.owner == Owner::Pivot(face) {
        Pose { pos: snap_vec3_to_grid(p.pose.pos), rot: p.pose.rot }
    } else {
        p.pose
    };
    if cube_belongs_to_layer(rel.pos, face) {
        Piece { pose: rel, owner: Owner::Pivot(face) }
    } else {
        Piece { pose: Pose { pos: snap_vec3_to_grid(rel.pos), rot: rel.rot }, owner: Owner::Root }
    }
}

fn finalize_one(p: Piece, face: LayerFace, q: i8) -> (r: Piece)
    requires
        piece_ok(p),
    ensures
        r == finalize_piece(p, face, q as int),
        piece_ok(r),
{
    if p.owner == Owner::Pivot(face) {
        let t = turn_orientation(face.rotation_axis(), q);
        proof {
            lemma_turn_lattice(face.axis_spec(), q as int, p.pose.pos);
            lemma_turn_compose_wf(face.axis_spec(), q as int, p.pose.rot);
        }
        let pos = snap_vec3_to_grid(apply(t, p.pose.pos));
        let rot = snap_rotation(compose(t, p.pose.rot));
        Piece { pose: Pose { pos, rot }, owner: Owner::Root }
    } else {
        p
    }
}

/// The turn that a move of `face` and `kind` starts.
pub open spec fn new_animation(face: LayerFace, kind: LayerMoveType) -> LayerRotationAnimation {
    LayerRotationAnimation {
        face,
        move_type: kind,
        target_quarters: total_quarters(face, kind) as i8,
        duration: duration_of(kind),
        elapsed: 0,
        prepared: false,
    }
}

pub open spec fn baseline_piece(c: Cell) -> Piece {
    Piece { pose: Pose { pos: cell_center(c), rot: identity() }, owner: Owner::Root }
}

/// Lattice cell number `idx` (`0..27`), x slowest, z fastest; number 13 is
/// the centre.
pub open spec fn cell_number(idx: int) -> Cell {
    Cell { x: (idx / 9 - 1) as i8, y: ((idx / 3) % 3 - 1) as i8, z: (idx % 3 - 1) as i8 }
}

/// The number of cell `c` in that order.
pub open spec fn cell_index(c: Cell) -> int {
    (c.x + 1) * 9 + (c.y + 1) * 3 + (c.z + 1)
}

/// The arena position of the piece built on cell number `n` (the centre has
/// none).
pub open spec fn piece_index_of(n: int) -> int {
    if n > 13 {
        n - 1
    } else {
        n
    }
}

/// The side that facelet group `g` (`U R F D L B`) faces.
pub open spec fn group_dir(g: int) -> Dir {
    if g == 0 {
        Dir::PosY
    } else if g == 1 {
        Dir::PosX
    } else if g == 2 {
        Dir::PosZ
    } else if g == 3 {
        Dir::NegY
    } else if g == 4 {
        Dir::NegX
    } else {
        Dir::NegZ
    }
}

/// The cell whose sticker lands on facelet `i` at baseline: the face rules
/// of `position_in_face` read backwards.
pub open spec fn facelet_cell(i: int) -> Cell {
    let g = i / 9;
    let row = (i % 9) / 3;
    let col = i % 3;
    if g == 0 {
        Cell { x: (col - 1) as i8, y: 1, z: (row - 1) as i8 }
    } else if g == 1 {
        Cell { x: 1, y: (1 - row) as i8, z: (1 - col) as i8 }
    } else if g == 2 {
        Cell { x: (col - 1) as i8, y: (1 - row) as i8, z: 1 }
    } else if g == 3 {
        Cell { x: (col - 1) as i8, y: -1i8, z: (1 - row) as i8 }
    } else if g == 4 {
        Cell { x: -1i8, y: (1 - row) as i8, z: (col - 1) as i8 }
    } else {
        Cell { x: (1 - col) as i8, y: (1 - row) as i8, z: -1i8 }
    }
}

/// The uncoloured sticker that lands on facelet `i` at baseline.
pub open spec fn baseline_sticker(i: int) -> Sticker {
    Sticker {
        piece: piece_index_of(cell_index(facelet_cell(i))) as usize,
        dir: group_dir(i / 9),
        color: None,
    }
}

/// The pieces of the first `idx` lattice cells at baseline, the centre left
/// out.
pub open spec fn baseline_pieces(idx: int) -> Seq<Piece>
    decreases idx,
{
    if idx <= 0 {
        Seq::empty()
    } else if idx - 1 == 13 {
        baseline_pieces(idx - 1)
    } else {
        baseline_pieces(idx - 1).push(baseline_piece(cell_number(idx - 1)))
    }
}

proof fn lemma_baseline_pieces(idx: int)
    requires
        0 <= idx <= 27,
    ensures
        baseline_pieces(idx).len() == if idx > 13 { idx - 1 } else { idx },
        forall|n: int|
            0 <= n < idx && n != 13 ==> #[trigger] baseline_pieces(idx)[piece_index_of(n)]
                == baseline_piece(cell_number(n)),
    decreases idx,
{
    if idx > 0 {
        lemma_baseline_pieces(idx - 1);
    }
}

fn baseline_sticker_at(i: usize) -> (r: Sticker)
    requires
        i < 54,
    ensures
        r == baseline_sticker(i as int),
{
    let g = i / 9;
    let row = ((i % 9) / 3) as i8;
    let col = (i % 3) as i8;
    let (c, dir) = if g == 0 {
        (Cell { x: col - 1, y: 1, z: row - 1 }, Dir::PosY)
    } else if g == 1 {
        (Cell { x: 1, y: 1 - row, z: 1 - col }, Dir::PosX)
    } else if g == 2 {
        (Cell { x: col - 1, y: 1 - row, z: 1 }, Dir::PosZ)
    } else if g == 3 {
        (Cell { x: col - 1, y: -1, z: 1 - row }, Dir::NegY)
    } else if g == 4 {
        (Cell { x: -1, y: 1 - row, z: col - 1 }, Dir::NegX)
    } else {
        (Cell { x: 1 - col, y: 1 - row, z: -1 }, Dir::NegZ)
    };
    let n = (c.x + 1) as usize * 9 + (c.y + 1) as usize * 3 + (c.z + 1) as usize;
    let piece = if n > 13 {
        n - 1
    } else {
        n
    };
    Sticker { piece, dir, color: None }
}

impl Cube {
    /// The assembly at baseline: a piece on every lattice cell but the centre,
    /// each owned by the root with the identity orientation, an uncoloured
    /// sticker on each of their outer faces (sticker `i` is the one that lands
    /// on facelet `i`), and no turn in progress.
    pub fn new() -> (r: Cube)
        ensures
            r@.wf(),
            r@.root == identity(),
            r@.active is None,
            r@.pieces == baseline_pieces(27),
            r@.pieces.len() == 26,
            r@.stickers == Seq::new(54, |i: int| baseline_sticker(i)),
            r@.revision == 0,
    {
        let mut pieces: Vec<Piece> = Vec::new();
        let mut idx: u8 = 0;
        while idx < 27
            invariant
                idx <= 27,
                pieces@ == baseline_pieces(idx as int),
                pieces@.len() == if idx > 13 { idx - 1 } else { idx as int },
                forall|i: int|
                    0 <= i < pieces@.len() ==> piece_ok(#[trigger] pieces@[i]) && pieces@[i].owner
                        == Owner::Root,
            decreases 27 - idx,
        {
            let x: i8 = (idx / 9) as i8 - 1;
            let y: i8 = ((idx / 3) % 3) as i8 - 1;
            let z: i8 = (idx % 3) as i8 - 1;
            let c = Cell { x, y, z };
            assert(c == cell_number(idx as int));
            if idx != 13 {
                proof {
                    crate::geometry::lemma_snap_cell_center(c);
                }
                let pos = Vec3 { x: x as i64 * GRID_STEP, y: y as i64 * GRID_STEP, z: z as i64 * GRID_STEP };
                assert(pos == cell_center(c));
                pieces.push(
                    Piece {
                        pose: Pose { pos, rot: Orient { x: Dir::PosX, y: Dir::PosY, z: Dir::PosZ } },
                        owner: Owner::Root,
                    },
                );
            }
            idx = idx + 1;
        }
        let mut stickers: Vec<Sticker> = Vec::new();
        let mut i: usize = 0;
        while i < 54
            invariant
                i <= 54,
                stickers@ == Seq::new(i as nat, |j: int| baseline_sticker(j)),
                forall|j: int| 0 <= j < i ==> (#[trigger] stickers@[j]).piece < 26,
            decreases 54 - i,
        {
            let s = baseline_sticker_at(i);
            stickers.push(s);
            i = i + 1;
            assert(stickers@ =~= Seq::new(i as nat, |j: int| baseline_sticker(j)));
        }
        Cube {
            root: Orient { x: Dir::PosX, y: Dir::PosY, z: Dir::PosZ },
            pieces,
            stickers,
            active: None,
            revision: 0,
        }
    }

    /// Whether a turn is in progress.
    pub fn is_busy(&self) -> (r: bool)
        ensures
            r == (self@.active is Some),
    {
        self.active.is_some()
    }





    /// One scheduler tick: prepare the turn in progress if it is new, then
    /// advance it by `delta_ms` milliseconds.
    pub fn tick(&mut self, delta_ms: u64) -> (r: Option<LayerRotationCompletedEvent>)
        requires
            old(self)@.wf(),
        ensures
            final(self)@.wf(),
            match old(self)@.active {
                Some(a) => {
                    let pieces = if a.prepared {
                        old(self)@.pieces
                    } else {
                        prepare_all(old(self)@.pieces, a.face)
                    };
                    if a.elapsed as int + delta_ms >= a.duration {
                        &&& r == Some(LayerRotationCompletedEvent { layer_face: a.face, move_type: a.move_type })
                        &&& final(self)@ == (CubeModel {
                            pieces: finalize_all(pieces, a.face, a.target_quarters as int),
                            active: None,
                            revision: next_revision(old(self)@.revision),
                            ..old(self)@
                        })
                    } else {
                        &&& r is None
                        &&& final(self)@ == (CubeModel {
                            pieces,
                            active: Some(LayerRotationAnimation { elapsed: (a.elapsed + delta_ms) as u64, prepared: true, ..a }),
                            ..old(self)@
                        })
                    }
                },
                None => r is None && final(self)@ == old(self)@,
            },
    {
        prepare_layer_rotation(self);
        layer_rotation_system(self, delta_ms)
    }
}

proof fn lemma_prepare_ok(p: Piece, face: LayerFace)
    requires
        piece_ok(p),
    ensures
        piece_ok(prepare_piece(p, face)),
        prepare_piece(p, face).owner == Owner::Root || prepare_piece(p, face).owner == Owner::Pivot(face),
{
    assert(snap_spec(p.pose.pos) == p.pose.pos);
}

proof fn lemma_finalize_ok(m: CubeModel, j: int)
    requires
        m.wf(),
        0 <= j < m.pieces.len(),
        m.active is Some,
        m.active.unwrap().prepared,
    ensures
        piece_ok(finalize_piece(m.pieces[j], m.active.unwrap().face, m.active.unwrap().target_quarters as int)),
        finalize_piece(m.pieces[j], m.active.unwrap().face, m.active.unwrap().target_quarters as int).owner == Owner::Root,
{
    let a = m.active.unwrap();
    let p = m.pieces[j];
    assert(piece_ok(p) && m.owner_ok(p.owner));
    if p.owner == Owner::Pivot(a.face) {
        lemma_turn_lattice(a.face.axis_spec(), a.target_quarters as int, p.pose.pos);
        lemma_turn_compose_wf(a.face.axis_spec(), a.target_quarters as int, p.pose.rot);
    }
}

// ---------------------------------------------------------------------------
// Stickers and the puzzle state

/// Where a sticker sits relative to the root: its piece's position plus the
/// sticker offset along the direction the sticker faces.
pub open spec fn sticker_local(m: CubeModel, s: Sticker) -> Vec3 {
    let p = m.pieces[s.piece as int].pose;
    let d = p.rot.image(s.dir);
    Vec3 {
        x: (p.pos.x + d.part(STICKER_OFFSET as int, Axis::X)) as i64,
        y: (p.pos.y + d.part(STICKER_OFFSET as int, Axis::Y)) as i64,
        z: (p.pos.z + d.part(STICKER_OFFSET as int, Axis::Z)) as i64,
    }
}

/// The facelet a sticker lands on: its world position and its piece's world
/// position (the root's orientation applied) are taken back into the root's
/// frame and mapped.
pub open spec fn sticker_slot(m: CubeModel, s: Sticker) -> int {
    let back = m.root.inverse();
    facelet_index_spec(
        back.apply_spec(m.root.apply_spec(sticker_local(m, s))),
        back.apply_spec(m.root.apply_spec(m.pieces[s.piece as int].pose.pos)),
    )
}

/// The raw state after placing the first `k` stickers: each coloured sticker
/// writes its colour's character on its facelet, the rest stay blank.
pub open spec fn raw_facelets(m: CubeModel, k: int) -> Seq<char>
    decreases k,
{
    if k <= 0 {
        Seq::new(54, |i: int| ' ')
    } else {
        let prev = raw_facelets(m, k - 1);
        let s = m.stickers[k - 1];
        match s.color {
            Some(c) => prev.update(sticker_slot(m, s), color_char(c as int)),
            None => prev,
        }
    }
}

/// The canonical puzzle state of an assembly (what the relabelling returns
/// when the centres hold distinct colours).
pub open spec fn facelets_of(m: CubeModel) -> Seq<char> {
    canonical(raw_facelets(m, m.stickers.len() as int))
}

/// The palette index that shows a face label: U white, D yellow, R red,
/// L orange, B blue, F green.
pub open spec fn palette_of_label(c: char) -> u8 {
    if c == 'U' {
        0
    } else if c == 'D' {
        1
    } else if c == 'R' {
        2
    } else if c == 'L' {
        3
    } else if c == 'B' {
        4
    } else {
        5
    }
}

/// Every sticker coloured as in the solved state, by where it lands now.
pub open spec fn solved_coloring(m: CubeModel) -> Seq<Sticker> {
    Seq::new(
        m.stickers.len(),
        |i: int|
            Sticker {
                color: Some(palette_of_label(crate::facelets::face_label(sticker_slot(m, m.stickers[i]) / 9))),
                ..m.stickers[i]
            },
    )
}

proof fn lemma_raw_len(m: CubeModel, k: int)
    requires
        m.wf(),
        k <= m.stickers.len(),
    ensures
        raw_facelets(m, k).len() == 54,
    decreases k,
{
    if k > 0 {
        lemma_raw_len(m, k - 1);
        let s = m.stickers[k - 1];
        let p = m.root.inverse();
        crate::facelets::lemma_facelet_index_range(
            p.apply_spec(m.root.apply_spec(sticker_local(m, s))),
            p.apply_spec(m.root.apply_spec(m.pieces[s.piece as int].pose.pos)),
        );
    }
}

proof fn lemma_sticker_in_range(m: CubeModel, s: Sticker)
    requires
        m.wf(),
        s.piece < m.pieces.len(),
    ensures
        sticker_local(m, s).in_range(),
        m.pieces[s.piece as int].pose.pos.in_range(),
{
    let p = m.pieces[s.piece as int];
    assert(piece_ok(p));
    lemma_on_lattice(p.pose.pos);
}

/// The facelet a sticker lands on depends on the assembly's geometry relative
/// to the root only.
proof fn lemma_slot_local(m: CubeModel, s: Sticker)
    requires
        m.wf(),
        s.piece < m.pieces.len(),
    ensures
        sticker_slot(m, s) == facelet_index_spec(sticker_local(m, s), m.pieces[s.piece as int].pose.pos),
{
    lemma_sticker_in_range(m, s);
    lemma_inverse_apply(m.root, sticker_local(m, s));
    lemma_inverse_apply(m.root, m.pieces[s.piece as int].pose.pos);
}

proof fn lemma_raw_reoriented(m: CubeModel, r: Orient, k: int)
    requires
        m.wf(),
        r.wf(),
        k <= m.stickers.len(),
    ensures
        raw_facelets(CubeModel { root: r, ..m }, k) == raw_facelets(m, k),
    decreases k,
{
    if k > 0 {
        let n = CubeModel { root: r, ..m };
        lemma_raw_reoriented(m, r, k - 1);
        let s = m.stickers[k - 1];
        lemma_slot_local(m, s);
        lemma_slot_local(n, s);
    }
}

/// Reorienting the whole assembly (a drag of the root, not a slice turn)
/// leaves the canonical puzzle state unchanged.
pub proof fn lemma_reorientation_keeps_facelets(m: CubeModel, r: Orient)
    requires
        m.wf(),
        r.wf(),
    ensures
        raw_facelets(CubeModel { root: r, ..m }, m.stickers.len() as int) == raw_facelets(
            m,
            m.stickers.len() as int,
        ),
        facelets_of(CubeModel { root: r, ..m }) == facelets_of(m),
{
    lemma_raw_reoriented(m, r, m.stickers.len() as int);
}

/// The cell a facelet's sticker sits on is a lattice cell other than the
/// centre, and its piece is built on it.
proof fn lemma_facelet_cell(i: int)
    requires
        0 <= i < 54,
    ensures
        cell_ok(facelet_cell(i)),
        0 <= cell_index(facelet_cell(i)) < 27,
        cell_index(facelet_cell(i)) != 13,
        cell_number(cell_index(facelet_cell(i))) == facelet_cell(i),
        0 <= piece_index_of(cell_index(facelet_cell(i))) < 26,
{
}

/// Where the sticker facing `d` on the piece at cell `c` sits, at baseline.
pub open spec fn sticker_point(c: Cell, d: Dir) -> Vec3 {
    Vec3 {
        x: (c.x * GRID_STEP + d.part(STICKER_OFFSET as int, Axis::X)) as i64,
        y: (c.y * GRID_STEP + d.part(STICKER_OFFSET as int, Axis::Y)) as i64,
        z: (c.z * GRID_STEP + d.part(STICKER_OFFSET as int, Axis::Z)) as i64,
    }
}

/// The face rules map the baseline sticker of facelet `i` back to `i`.
#[verifier::rlimit(60)]
proof fn lemma_facelet_rules_invert(i: int)
    requires
        0 <= i < 54,
    ensures
        ({
            let c = facelet_cell(i);
            let o = crate::facelets::face_orientation(sticker_point(c, group_dir(i / 9)));
            o.offset_spec() + crate::facelets::position_in_face(c, o) == i
        }),
{
    let g = i / 9;
    let r = i % 9;
    assert(i == 9 * g + r);
    assert(r == 3 * (r / 3) + i % 3);
}

/// At baseline, sticker `i` lands on facelet `i`, whatever the root's
/// orientation.
proof fn lemma_baseline_slot(m: CubeModel, i: int)
    requires
        m.wf(),
        m.pieces == baseline_pieces(27),
        0 <= i < 54,
        i < m.stickers.len(),
        m.stickers[i].piece == baseline_sticker(i).piece,
        m.stickers[i].dir == baseline_sticker(i).dir,
    ensures
        sticker_slot(m, m.stickers[i]) == i,
{
    let s = m.stickers[i];
    let c = facelet_cell(i);
    lemma_facelet_cell(i);
    lemma_baseline_pieces(27);
    let n = cell_index(c);
    assert(m.pieces[piece_index_of(n)] == baseline_piece(cell_number(n)));
    let p = m.pieces[s.piece as int];
    assert(p == baseline_piece(c));
    crate::geometry::lemma_snap_cell_center(c);
    lemma_slot_local(m, s);
    assert(identity().image(s.dir) == s.dir);
    assert(sticker_local(m, s) == sticker_point(c, s.dir));
    lemma_facelet_rules_invert(i);
}

/// At baseline, however the assembly is oriented, sticker `i` lands on
/// facelet `i`: the stickers map one to one onto the 54 facelets, each on the
/// group of the side it faces.
pub proof fn lemma_baseline_stickers_cover_facelets(m: CubeModel)
    requires
        m.wf(),
        m.pieces == baseline_pieces(27),
        m.stickers.len() == 54,
        forall|i: int|
            0 <= i < 54 ==> (#[trigger] m.stickers[i]).piece == baseline_sticker(i).piece
                && m.stickers[i].dir == baseline_sticker(i).dir,
    ensures
        forall|i: int| 0 <= i < 54 ==> #[trigger] sticker_slot(m, m.stickers[i]) == i,
        forall|i: int| 0 <= i < 54 ==> (#[trigger] m.stickers[i]).dir == group_dir(i / 9),
{
    assert forall|i: int| 0 <= i < 54 implies #[trigger] sticker_slot(m, m.stickers[i]) == i by {
        lemma_baseline_slot(m, i);
    }
}

/// Every colour character stands for one palette index.
proof fn lemma_color_char_injective(a: int, b: int)
    requires
        0 <= a < 6,
        0 <= b < 6,
        color_char(a) == color_char(b),
    ensures
        a == b,
{
}

proof fn lemma_raw_rest_colors(m: CubeModel, palette: Seq<u8>, k: int)
    requires
        m.wf(),
        m.pieces == baseline_pieces(27),
        m.stickers.len() == 54,
        palette.len() == 6,
        forall|i: int|
            0 <= i < 54 ==> #[trigger] m.stickers[i] == (Sticker {
                color: Some(palette[i / 9]),
                ..baseline_sticker(i)
            }),
        0 <= k <= 54,
    ensures
        raw_facelets(m, k) == Seq::new(
            54,
            |j: int|
                if j < k {
                    color_char(palette[j / 9] as int)
                } else {
                    ' '
                },
        ),
    decreases k,
{
    if k > 0 {
        lemma_raw_rest_colors(m, palette, k - 1);
        lemma_baseline_slot(m, k - 1);
        assert(raw_facelets(m, k) =~= Seq::new(
            54,
            |j: int|
                if j < k {
                    color_char(palette[j / 9] as int)
                } else {
                    ' '
                },
        ));
    } else {
        assert(raw_facelets(m, 0) =~= Seq::new(54, |j: int| ' '));
    }
}

/// With the assembly as built, each sticker coloured by the side it faces at
/// baseline (six distinct palette colours, one per side), the canonical
/// puzzle state is the solved state, however the assembly is oriented.
pub proof fn lemma_rest_face_coloring_reads_solved(m: CubeModel, palette: Seq<u8>)
    requires
        m.wf(),
        m.pieces == baseline_pieces(27),
        m.stickers.len() == 54,
        palette.len() == 6,
        forall|g: int| 0 <= g < 6 ==> #[trigger] palette[g] < 6,
        forall|g: int, h: int| 0 <= g < h < 6 ==> palette[g] != palette[h],
        forall|i: int|
            0 <= i < 54 ==> #[trigger] m.stickers[i] == (Sticker {
                color: Some(palette[i / 9]),
                ..baseline_sticker(i)
            }),
    ensures
        distinct_centers(raw_facelets(m, 54)),
        facelets_of(m) == crate::facelets::solved_facelets(),
{
    lemma_raw_rest_colors(m, palette, 54);
    let raw = raw_facelets(m, 54);
    assert forall|i: int| 0 <= i < 54 implies #[trigger] raw[i] == raw[crate::facelets::center_index(i / 9)] by {
        assert((9 * (i / 9) + 4) / 9 == i / 9);
    }
    assert forall|g: int, h: int| 0 <= g < h < 6 implies raw[crate::facelets::center_index(g)]
        != raw[crate::facelets::center_index(h)] by {
        assert((9 * g + 4) / 9 == g);
        assert((9 * h + 4) / 9 == h);
        if color_char(palette[g] as int) == color_char(palette[h] as int) {
            lemma_color_char_injective(palette[g] as int, palette[h] as int);
        }
    }
    assert forall|g: int| 0 <= g < 6 implies raw[crate::facelets::center_index(g)] != ' ' by {
        assert((9 * g + 4) / 9 == g);
    }
    crate::facelets::lemma_uniform_faces_canonicalize_to_solved(raw);
    assert forall|g: int, h: int|
        0 <= g < 6 && 0 <= h < 6 && g != h && raw[crate::facelets::center_index(g)] != ' '
            implies raw[crate::facelets::center_index(g)] != raw[crate::facelets::center_index(h)] by {
        if g < h {
            assert(raw[crate::facelets::center_index(g)] != raw[crate::facelets::center_index(h)]);
        } else {
            assert(raw[crate::facelets::center_index(h)] != raw[crate::facelets::center_index(g)]);
        }
    }
}

impl Cube {
    /// Sets the orientation of the whole assembly; `false`, with nothing
    /// changed, when `root` is not a proper rotation.
    pub fn set_orientation(&mut self, root: Orient) -> (r: bool)
        requires
            old(self)@.wf(),
        ensures
            final(self)@.wf(),
            r == root.wf(),
            r ==> final(self)@ == (CubeModel { root, ..old(self)@ }),
            !r ==> final(self)@ == old(self)@,
    {
        if !crate::geometry::is_rotation(root) {
            return false;
        }
        self.root = root;
        true
    }

    /// Colours a sticker with a palette index, or clears it with `None`;
    /// `false`, with nothing changed, for an unknown sticker or colour.
    pub fn assign_color(&mut self, sticker: usize, color: Option<u8>) -> (r: bool)
        requires
            old(self)@.wf(),
        ensures
            final(self)@.wf(),
            r == (sticker < old(self)@.stickers.len() && (color matches Some(c) ==> c < 6)),
            r ==> final(self)@ == (CubeModel {
                stickers: old(self)@.stickers.update(sticker as int, Sticker { color, ..old(self)@.stickers[sticker as int] }),
                revision: next_revision(old(self)@.revision),
                ..old(self)@
            }),
            !r ==> final(self)@ == old(self)@,
    {
        if sticker >= self.stickers.len() {
            return false;
        }
        if let Some(c) = color {
            if c >= 6 {
                return false;
            }
        }
        let s = self.stickers[sticker];
        self.stickers.set(sticker, Sticker { color, ..s });
        self.revision = bump(self.revision);
        true
    }

    fn sticker_slot_of(&self, s: Sticker) -> (r: usize)
        requires
            self@.wf(),
            s.piece < self@.pieces.len(),
        ensures
            r as int == sticker_slot(self@, s),
            r < 54,
    {
        proof {
            lemma_sticker_in_range(self@, s);
        }
        let p = self.pieces[s.piece].pose;
        let d = image_dir(p.rot, s.dir);
        let off = dir_vector(d, STICKER_OFFSET);
        let local = Vec3 { x: p.pos.x + off.x, y: p.pos.y + off.y, z: p.pos.z + off.z };
        let back = crate::geometry::inverse_orientation(self.root);
        proof {
            lemma_inverse_apply(self.root, local);
            lemma_inverse_apply(self.root, p.pos);
        }
        let sticker_world = apply(self.root, local);
        let piece_world = apply(self.root, p.pos);
        calculate_facelet_index(apply(back, sticker_world), apply(back, piece_world))
    }

    /// The canonical puzzle state: every coloured sticker mapped to its
    /// facelet by geometry, then relabelled by the centres.
    pub fn map_entities_to_facelets(&self) -> (r: String)
        requires
            self@.wf(),
        ensures
            relabelled(raw_facelets(self@, self@.stickers.len() as int), r@),
    {
        let mut raw: Vec<char> = Vec::new();
        let mut i: usize = 0;
        while i < 54
            invariant
                i <= 54,
                raw@.len() == i,
                forall|j: int| 0 <= j < i ==> raw@[j] == ' ',
            decreases 54 - i,
        {
            raw.push(' ');
            i = i + 1;
        }
        assert(raw@ =~= raw_facelets(self@, 0));
        let mut k: usize = 0;
        while k < self.stickers.len()
            invariant
                self@.wf(),
                k <= self@.stickers.len(),
                raw@ == raw_facelets(self@, k as int),
            decreases self@.stickers.len() - k,
        {
            proof {
                lemma_raw_len(self@, k as int);
            }
            let s = self.stickers[k];
            if let Some(c) = s.color {
                let slot = self.sticker_slot_of(s);
                let ch = FaceColor::from_index(c as usize).to_facelet_char();
                raw.set(slot, ch);
            }
            k = k + 1;
        }
        string_of(&remap_chars(&raw))
    }

    /// Colours every sticker with the colour of the facelet group it lands on
    /// in the solved state, so that the assembly reads solved as it now lies.
    pub fn color_as_solved(&mut self)
        requires
            old(self)@.wf(),
        ensures
            final(self)@.wf(),
            final(self)@ == (CubeModel {
                stickers: solved_coloring(old(self)@),
                revision: next_revision(old(self)@.revision),
                ..old(self)@
            }),
    {
        let ghost old_model = self@;
        let mut k: usize = 0;
        while k < self.stickers.len()
            invariant
                self@.wf(),
                k <= self@.stickers.len(),
                self@.root == old_model.root,
                self@.pieces == old_model.pieces,
                self@.active == old_model.active,
                self@.revision == old_model.revision,
                self@.stickers.len() == old_model.stickers.len(),
                forall|i: int|
                    k <= i < self@.stickers.len() ==> #[trigger] self@.stickers[i] == old_model.stickers[i],
                forall|i: int|
                    0 <= i < k ==> #[trigger] self@.stickers[i] == (Sticker {
                        color: Some(palette_of_label(crate::facelets::face_label(sticker_slot(old_model, old_model.stickers[i]) / 9))),
                        ..old_model.stickers[i]
                    }),
            decreases self@.stickers.len() - k,
        {
            let s = self.stickers[k];
            let slot = self.sticker_slot_of(s);
            proof {
                assert(sticker_slot(self@, s) == sticker_slot(old_model, s));
            }
            let color: u8 = match slot / 9 {
                0 => 0,
                1 => 2,
                2 => 5,
                3 => 1,
                4 => 3,
                _ => 4,
            };
            self.stickers.set(k, Sticker { color: Some(color), ..s });
            k = k + 1;
        }
        self.revision = bump(self.revision);
        assert(self@.stickers =~= solved_coloring(old_model));
    }

    /// Clears the colour of every sticker.
    pub fn clear_colors(&mut self)
        requires
            old(self)@.wf(),
        ensures
            final(self)@.wf(),
            final(self)@.root == old(self)@.root,
            final(self)@.pieces == old(self)@.pieces,
            final(self)@.active == old(self)@.active,
            final(self)@.revision == next_revision(old(self)@.revision),
            final(self)@.stickers.len() == old(self)@.stickers.len(),
            forall|i: int|
                0 <= i < final(self)@.stickers.len() ==> #[trigger] final(self)@.stickers[i] == (Sticker {
                    color: None,
                    ..old(self)@.stickers[i]
                }),
    {
        let ghost old_model = self@;
        let mut k: usize = 0;
        while k < self.stickers.len()
            invariant
                self@.wf(),
                k <= self@.stickers.len(),
                self@.root == old_model.root,
                self@.pieces == old_model.pieces,
                self@.active == old_model.active,
                self@.revision == old_model.revision,
                self@.stickers.len() == old_model.stickers.len(),
                forall|i: int|
                    k <= i < self@.stickers.len() ==> #[trigger] self@.stickers[i] == old_model.stickers[i],
                forall|i: int|
                    0 <= i < k ==> #[trigger] self@.stickers[i] == (Sticker { color: None, ..old_model.stickers[i] }),
            decreases self@.stickers.len() - k,
        {
            let s = self.stickers[k];
            self.stickers.set(k, Sticker { color: None, ..s });
            k = k + 1;
        }
        self.revision = bump(self.revision);
    }

    /// The number of pieces.
    pub fn piece_count(&self) -> (r: usize)
        ensures
            r == self@.pieces.len(),
    {
        self.pieces.len()
    }

    /// The number of stickers.
    pub fn sticker_count(&self) -> (r: usize)
        ensures
            r == self@.stickers.len(),
    {
        self.stickers.len()
    }

    pub fn piece(&self, i: usize) -> (r: Piece)
        requires
            i < self@.pieces.len(),
        ensures
            r == self@.pieces[i as int],
    {
        self.pieces[i]
    }

    pub fn sticker(&self, i: usize) -> (r: Sticker)
        requires
            i < self@.stickers.len(),
        ensures
            r == self@.stickers[i as int],
    {
        self.stickers[i]
    }

    /// The lattice cell a piece occupies relative to the root.
    pub fn piece_cell(&self, i: usize) -> (r: Cell)
        requires
            i < self@.pieces.len(),
        ensures
            r == crate::geometry::cell_of(self@.pieces[i as int].pose.pos),
            cell_ok(r),
    {
        crate::geometry::world_to_local_indices(self.pieces[i].pose.pos)
    }

    /// The turn in progress, if any.
    pub fn active(&self) -> (r: Option<LayerRotationAnimation>)
        ensures
            r == self@.active,
    {
        self.active
    }

    /// The revision of the assembly's colours and piece poses: a consumer
    /// that saw the same revision need not derive the puzzle state again.
    pub fn revision(&self) -> (r: u64)
        ensures
            r == self@.revision,
    {
        self.revision
    }

    /// The orientation of the whole assembly.
    pub fn orientation(&self) -> (r: Orient)
        ensures
            r == self@.root,
    {
        self.root
    }
}

impl LayerRotationAnimation {
    /// The turn that a move of `face` and `kind` starts: its signed quarter
    /// turns, and a duration of 700 ms for a quarter turn or 1200 ms for a
    /// half turn.
    pub fn new(face: LayerFace, kind: LayerMoveType) -> (r: LayerRotationAnimation)
        ensures
            r == new_animation(face, kind),
    {
        let q = kind.quarter_turns();
        let target = if face.rotation_direction() == 1 {
            q
        } else {
            -q
        };
        let duration = match kind {
            LayerMoveType::Double => HALF_TURN_MS,
            _ => QUARTER_TURN_MS,
        };
        LayerRotationAnimation { face, move_type: kind, target_quarters: target, duration, elapsed: 0, prepared: false }
    }

    /// Whether the turn has run its duration.
    pub fn is_complete(&self) -> (r: bool)
        ensures
            r == (self.elapsed >= self.duration),
    {
        self.elapsed >= self.duration
    }

    /// How far the turn has run, as a fraction `(done, duration)` with `done`
    /// clamped to the duration.
    pub fn progress(&self) -> (r: (u64, u64))
        ensures
            r.1 == self.duration,
            r.0 == if self.elapsed < self.duration {
                self.elapsed
            } else {
                self.duration
            },
    {
        if self.elapsed < self.duration {
            (self.elapsed, self.duration)
        } else {
            (self.duration, self.duration)
        }
    }
}

/// Which face a piece is listed under.
#[derive(Clone, Copy, Debug, PartialEq, Eq, Hash, Structural)]
pub struct CubeMoveTarget {
    pub face: CubeFace,
    pub layer: i32,
}

/// The face of greatest magnitude of `p`, ties going to x before y before z;
/// a zero coordinate counts as negative.
pub open spec fn main_face(p: Vec3) -> CubeFace {
    let ax = crate::facelets::abs(p.x as int);
    let ay = crate::facelets::abs(p.y as int);
    let az = crate::facelets::abs(p.z as int);
    if ax >= ay && ax >= az {
        if p.x > 0 { CubeFace::Right } else { CubeFace::Left }
    } else if ay >= az {
        if p.y > 0 { CubeFace::Up } else { CubeFace::Down }
    } else if p.z > 0 {
        CubeFace::Front
    } else {
        CubeFace::Back
    }
}

impl CubeMoveTarget {
    /// The face a piece position lies towards.
    pub fn determine_face_from_position(position: &Vec3) -> (r: CubeFace)
        requires
            position.in_range(),
        ensures
            r == main_face(*position),
    {
        let ax = if position.x >= 0 { position.x } else { -position.x };
        let ay = if position.y >= 0 { position.y } else { -position.y };
        let az = if position.z >= 0 { position.z } else { -position.z };
        if ax >= ay && ax >= az {
            if position.x > 0 { CubeFace::Right } else { CubeFace::Left }
        } else if ay >= az {
            if position.y > 0 { CubeFace::Up } else { CubeFace::Down }
        } else if position.z > 0 {
            CubeFace::Front
        } else {
            CubeFace::Back
        }
    }
}

// ---------------------------------------------------------------------------
// Turn handling

/// Starts a turn of `face`'s pivot.
pub fn start_layer_rotation(cube: &mut Cube, face: LayerFace, kind: LayerMoveType)
    requires
        old(cube)@.wf(),
        old(cube)@.active is None,
    ensures
        final(cube)@ == (CubeModel { active: Some(new_animation(face, kind)), ..old(cube)@ }),
        final(cube)@.wf(),
{
    cube.active = Some(LayerRotationAnimation::new(face, kind));
    assert(cube@.pieces == old(cube)@.pieces);
}

/// Handles a move request: while a turn is in progress it is discarded;
/// malformed notation is refused; otherwise the turn of the named slice
/// starts. Nothing changes unless a turn starts.
pub fn handle_extended_move_commands(cube: &mut Cube, notation: &str) -> (r: Result<
    (LayerFace, LayerMoveType),
    MoveError,
>)
    requires
        old(cube)@.wf(),
    ensures
        final(cube)@.wf(),
        old(cube)@.active is Some ==> r == Err::<(LayerFace, LayerMoveType), MoveError>(
            MoveError::Busy,
        ) && final(cube)@ == old(cube)@,
        old(cube)@.active is None && parse_layer_move(notation@) is None ==> r == Err::<
            (LayerFace, LayerMoveType),
            MoveError,
        >(MoveError::InvalidNotation) && final(cube)@ == old(cube)@,
        old(cube)@.active is None && parse_layer_move(notation@) is Some ==> ({
            let (f, k) = parse_layer_move(notation@).unwrap();
            &&& r == Ok::<(LayerFace, LayerMoveType), MoveError>((f, k))
            &&& final(cube)@ == (CubeModel { active: Some(new_animation(f, k)), ..old(cube)@ })
        }),
{
    if cube.active.is_some() {
        return Err(MoveError::Busy);
    }
    match parse_extended_move_notation(notation) {
        None => Err(MoveError::InvalidNotation),
        Some((face, kind)) => {
            start_layer_rotation(cube, face, kind);
            Ok((face, kind))
        },
    }
}

/// Reparents the pieces of the pivot of the turn in progress, once per
/// turn (see `prepare_piece`).
pub fn prepare_layer_rotation(cube: &mut Cube)
    requires
        old(cube)@.wf(),
    ensures
        final(cube)@.wf(),
        match old(cube)@.active {
            Some(a) => if a.prepared {
                final(cube)@ == old(cube)@
            } else {
                final(cube)@ == (CubeModel {
                    pieces: prepare_all(old(cube)@.pieces, a.face),
                    active: Some(LayerRotationAnimation { prepared: true, ..a }),
                    ..old(cube)@
                })
            },
            None => final(cube)@ == old(cube)@,
        },
{
    let a = match cube.active {
        Some(a) => a,
        None => {
            return;
        },
    };
    if a.prepared {
        return;
    }
    let mut out: Vec<Piece> = Vec::new();
    let mut i: usize = 0;
    while i < cube.pieces.len()
        invariant
            i <= cube.pieces@.len(),
            cube@ == old(cube)@,
            cube@.wf(),
            out@.len() == i,
            forall|j: int|
                0 <= j < i ==> #[trigger] out@[j] == prepare_piece(cube.pieces@[j], a.face),
        decreases cube.pieces@.len() - i,
    {
        let p = prepare_one(cube.pieces[i], a.face);
        out.push(p);
        i = i + 1;
    }
    assert(out@ =~= prepare_all(cube.pieces@, a.face));
    cube.pieces = out;
    cube.active = Some(LayerRotationAnimation { prepared: true, ..a });
    proof {
        assert forall|j: int| 0 <= j < cube@.pieces.len() implies piece_ok(
            #[trigger] cube@.pieces[j],
        ) && cube@.owner_ok(cube@.pieces[j].owner) by {
            lemma_prepare_ok(old(cube)@.pieces[j], a.face);
        }
    }
}

/// Advances the prepared turn in progress by `delta_ms` milliseconds; on
/// the tick that reaches its duration, bakes the turn into the poses of the
/// pivot's pieces, returns them to the root, ends the turn and reports it.
pub fn layer_rotation_system(cube: &mut Cube, delta_ms: u64) -> (r: Option<LayerRotationCompletedEvent>)
    requires
        old(cube)@.wf(),
    ensures
        final(cube)@.wf(),
        match old(cube)@.active {
            Some(a) => if !a.prepared {
                r is None && final(cube)@ == old(cube)@
            } else if a.elapsed as int + delta_ms >= a.duration {
                &&& r == Some(LayerRotationCompletedEvent { layer_face: a.face, move_type: a.move_type })
                &&& final(cube)@ == (CubeModel {
                    pieces: finalize_all(old(cube)@.pieces, a.face, a.target_quarters as int),
                    active: None,
                    revision: next_revision(old(cube)@.revision),
                    ..old(cube)@
                })
            } else {
                &&& r is None
                &&& final(cube)@ == (CubeModel {
                    active: Some(LayerRotationAnimation { elapsed: (a.elapsed + delta_ms) as u64, ..a }),
                    ..old(cube)@
                })
            },
            None => r is None && final(cube)@ == old(cube)@,
        },
{
    let a = match cube.active {
        Some(a) => a,
        None => {
            return None;
        },
    };
    if !a.prepared {
        return None;
    }
    if delta_ms < a.duration - a.elapsed {
        cube.active = Some(LayerRotationAnimation { elapsed: a.elapsed + delta_ms, ..a });
        return None;
    }
    let mut out: Vec<Piece> = Vec::new();
    let mut i: usize = 0;
    while i < cube.pieces.len()
        invariant
            i <= cube.pieces@.len(),
            cube@ == old(cube)@,
            cube@.wf(),
            cube@.active == Some(a),
            out@.len() == i,
            forall|j: int|
                0 <= j < i ==> #[trigger] out@[j] == finalize_piece(
                    cube.pieces@[j],
                    a.face,
                    a.target_quarters as int,
                ),
        decreases cube.pieces@.len() - i,
    {
        let p = finalize_one(cube.pieces[i], a.face, a.target_quarters);
        out.push(p);
        i = i + 1;
    }
    assert(out@ =~= finalize_all(cube.pieces@, a.face, a.target_quarters as int));
    cube.pieces = out;
    cube.active = None;
    cube.revision = bump(cube.revision);
    proof {
        assert forall|j: int| 0 <= j < cube@.pieces.len() implies piece_ok(
            #[trigger] cube@.pieces[j],
        ) && cube@.owner_ok(cube@.pieces[j].owner) by {
            lemma_finalize_ok(old(cube)@, j);
        }
    }
    Some(LayerRotationCompletedEvent { layer_face: a.face, move_type: a.move_type })
}

/// The pieces whose position relative to the root lies in a slice, in
/// arena order.
pub fn get_layer_cubes(cube: &Cube, face: LayerFace) -> (r: Vec<usize>)
    ensures
        forall|k: int| 0 <= k < r@.len() ==> #[trigger] r@[k] < cube@.pieces.len()
            && in_layer(cube@.pieces[r@[k] as int].pose.pos, face),
        forall|i: int|
            0 <= i < cube@.pieces.len() && in_layer(#[trigger] cube@.pieces[i].pose.pos, face)
                ==> r@.contains(i as usize),
        forall|k: int, l: int| 0 <= k < l < r@.len() ==> r@[k] < r@[l],
{
    let mut out: Vec<usize> = Vec::new();
    let mut i: usize = 0;
    while i < cube.pieces.len()
        invariant
            i <= cube@.pieces.len(),
            forall|k: int| 0 <= k < out@.len() ==> #[trigger] out@[k] < i
                && in_layer(cube@.pieces[out@[k] as int].pose.pos, face),
            forall|j: int|
                0 <= j < i && in_layer(#[trigger] cube@.pieces[j].pose.pos, face)
                    ==> out@.contains(j as usize),
            forall|k: int, l: int| 0 <= k < l < out@.len() ==> out@[k] < out@[l],
        decreases cube@.pieces.len() - i,
    {
        let ghost before = out@;
        if cube_belongs_to_layer(cube.pieces[i].pose.pos, face) {
            out.push(i);
            assert(out@[out@.len() - 1] == i);
            assert forall|j: int|
                0 <= j <= i && in_layer(#[trigger] cube@.pieces[j].pose.pos, face)
                    implies out@.contains(j as usize) by {
                if j < i {
                    let k = choose|k: int| 0 <= k < before.len() && before[k] == j as usize;
                    assert(out@[k] == j as usize);
                }
            }
        }
        i = i + 1;
    }
    out
}

/// Puts the whole assembly back at its baseline orientation; slices, poses
/// and colours are kept.
pub fn handle_rst_button(cube: &mut Cube)
    requires
        old(cube)@.wf(),
    ensures
        final(cube)@.wf(),
        final(cube)@ == (CubeModel { root: identity(), ..old(cube)@ }),
{
    cube.set_orientation(Orient { x: Dir::PosX, y: Dir::PosY, z: Dir::PosZ });
}

} // verus!
