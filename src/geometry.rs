//! Exact geometry of the cube in fixed-point units.
//!
//! A coordinate is an integer count of `1 / UNIT` of a world unit, so the grid
//! step between piece centres (two thirds of a unit) and the slice boundaries
//! (half a unit, with a tenth of a unit of tolerance) are exact. Orientations
//! are the axis-aligned rotations: each local axis maps to one of six
//! directions.

use vstd::prelude::*;
use crate::notation::{Axis, LayerFace};

verus! {

/// Fixed-point units in one world unit.
pub const UNIT: i64 = 3000;

/// Distance between neighbouring piece centres: two thirds of a unit.
pub const GRID_STEP: i64 = 2000;

/// Half a world unit: the nominal boundary between slices.
pub const HALF_UNIT: i64 = 1500;

/// Tolerance around the slice boundary: a tenth of a unit.
pub const TOLERANCE: i64 = 300;

/// Largest magnitude of a coordinate that the operations here accept.
pub const COORD_LIMIT: i64 = 1_000_000_000_000;

/// A point or offset in fixed-point units.
#[derive(Clone, Copy, Debug, PartialEq, Eq, Hash, Structural)]
pub struct Vec3 {
    pub x: i64,
    pub y: i64,
    pub z: i64,
}

/// A cell of the 3x3x3 lattice: each coordinate in `-1..=1`.
#[derive(Clone, Copy, Debug, PartialEq, Eq, Hash, Structural)]
pub struct Cell {
    pub x: i8,
    pub y: i8,
    pub z: i8,
}

/// One of the six axis directions.
#[derive(Clone, Copy, Debug, PartialEq, Eq, Hash, Structural)]
pub enum Dir {
    PosX,
    NegX,
    PosY,
    NegY,
    PosZ,
    NegZ,
}

/// An axis-aligned orientation, given by the directions that the local x, y
/// and z axes point to in the parent's frame.
#[derive(Clone, Copy, Debug, PartialEq, Eq, Hash, Structural)]
pub struct Orient {
    pub x: Dir,
    pub y: Dir,
    pub z: Dir,
}

pub open spec fn coord_ok(v: int) -> bool {
    -COORD_LIMIT <= v <= COORD_LIMIT
}

impl Vec3 {
    pub open spec fn in_range(self) -> bool {
        coord_ok(self.x as int) && coord_ok(self.y as int) && coord_ok(self.z as int)
    }

    pub open spec fn comp(self, a: Axis) -> int {
        match a {
            Axis::X => self.x as int,
            Axis::Y => self.y as int,
            Axis::Z => self.z as int,
        }
    }
}

/// `v / d` rounded to the nearest integer, halves away from zero.
pub open spec fn round_div(v: int, d: int) -> int {
    if v >= 0 {
        (v + d / 2) / d
    } else {
        -((-v + d / 2) / d)
    }
}

pub open spec fn clamp_unit(n: int) -> int {
    if n > 1 {
        1
    } else if n < -1 {
        -1
    } else {
        n
    }
}

/// The lattice index nearest to a coordinate, clamped to `-1..=1`.
#[verifier::opaque]
pub open spec fn grid_index_spec(v: int) -> int {
    clamp_unit(round_div(v, GRID_STEP as int))
}

pub open spec fn cell_of(p: Vec3) -> Cell {
    Cell {
        x: grid_index_spec(p.x as int) as i8,
        y: grid_index_spec(p.y as int) as i8,
        z: grid_index_spec(p.z as int) as i8,
    }
}

pub open spec fn snap_spec(p: Vec3) -> Vec3 {
    Vec3 {
        x: (grid_index_spec(p.x as int) * GRID_STEP) as i64,
        y: (grid_index_spec(p.y as int) * GRID_STEP) as i64,
        z: (grid_index_spec(p.z as int) * GRID_STEP) as i64,
    }
}

/// The centre of a lattice cell.
pub open spec fn cell_center(c: Cell) -> Vec3 {
    Vec3 {
        x: (c.x * GRID_STEP) as i64,
        y: (c.y * GRID_STEP) as i64,
        z: (c.z * GRID_STEP) as i64,
    }
}

pub open spec fn cell_ok(c: Cell) -> bool {
    -1 <= c.x <= 1 && -1 <= c.y <= 1 && -1 <= c.z <= 1
}

/// The lattice index nearest to `v`, clamped to `-1..=1`.
pub fn grid_index(v: i64) -> (r: i8)
    ensures
        r as int == grid_index_spec(v as int),
        -1 <= r <= 1,
{
    reveal(grid_index_spec);
    if v >= GRID_STEP / 2 {
        assert(round_div(v as int, GRID_STEP as int) >= 1);
        1
    } else if v <= -(GRID_STEP / 2) {
        assert(round_div(v as int, GRID_STEP as int) <= -1);
        -1
    } else {
        assert(round_div(v as int, GRID_STEP as int) == 0);
        0
    }
}

/// The lattice cell nearest to a point.
pub fn world_to_local_indices(p: Vec3) -> (r: Cell)
    ensures
        r == cell_of(p),
        cell_ok(r),
{
    Cell { x: grid_index(p.x), y: grid_index(p.y), z: grid_index(p.z) }
}

/// Moves a point to the nearest lattice point, each axis rounded to a multiple
/// of the grid step and clamped to the outer cells.
pub fn snap_vec3_to_grid(p: Vec3) -> (r: Vec3)
    ensures
        r == snap_spec(p),
        r == cell_center(cell_of(p)),
        r.in_range(),
{
    reveal(grid_index_spec);
    let c = world_to_local_indices(p);
    Vec3 {
        x: c.x as i64 * GRID_STEP,
        y: c.y as i64 * GRID_STEP,
        z: c.z as i64 * GRID_STEP,
    }
}

/// Every point lies nearest to some lattice cell.
pub proof fn lemma_cell_of_ok(p: Vec3)
    ensures
        cell_ok(cell_of(p)),
{
    reveal(grid_index_spec);
}

/// A lattice point is left where it is by snapping.
pub proof fn lemma_snap_cell_center(c: Cell)
    requires
        cell_ok(c),
    ensures
        cell_of(cell_center(c)) == c,
        snap_spec(cell_center(c)) == cell_center(c),
{
    reveal(grid_index_spec);
    let p = cell_center(c);
    assert(round_div(p.x as int, GRID_STEP as int) == c.x as int);
    assert(round_div(p.y as int, GRID_STEP as int) == c.y as int);
    assert(round_div(p.z as int, GRID_STEP as int) == c.z as int);
}

/// Whether a position, relative to the root, lies in a slice: an outer slice
/// wants the coordinate beyond half a unit less the tolerance, a middle slice
/// wants it within half a unit plus the tolerance of zero.
pub open spec fn in_layer(p: Vec3, face: LayerFace) -> bool {
    let v = p.comp(face.axis_spec());
    match face {
        LayerFace::Right | LayerFace::Up | LayerFace::Front => v > HALF_UNIT - TOLERANCE,
        LayerFace::MiddleX | LayerFace::MiddleY | LayerFace::MiddleZ => -(HALF_UNIT
            + TOLERANCE) < v < HALF_UNIT + TOLERANCE,
        LayerFace::Left | LayerFace::Down | LayerFace::Back => v < -HALF_UNIT + TOLERANCE,
    }
}

/// Whether a piece at `p` (relative to the root) belongs to a slice.
pub fn cube_belongs_to_layer(p: Vec3, face: LayerFace) -> (r: bool)
    ensures
        r == in_layer(p, face),
{
    let v = match face.rotation_axis() {
        Axis::X => p.x,
        Axis::Y => p.y,
        Axis::Z => p.z,
    };
    match face {
        LayerFace::Right | LayerFace::Up | LayerFace::Front => v > HALF_UNIT - TOLERANCE,
        LayerFace::MiddleX | LayerFace::MiddleY | LayerFace::MiddleZ => -(HALF_UNIT + TOLERANCE)
            < v && v < HALF_UNIT + TOLERANCE,
        LayerFace::Left | LayerFace::Down | LayerFace::Back => v < -HALF_UNIT + TOLERANCE,
    }
}

// ---------------------------------------------------------------------------
// Directions and orientations

impl Dir {
    pub open spec fn axis(self) -> Axis {
        match self {
            Dir::PosX | Dir::NegX => Axis::X,
            Dir::PosY | Dir::NegY => Axis::Y,
            Dir::PosZ | Dir::NegZ => Axis::Z,
        }
    }

    pub open spec fn positive(self) -> bool {
        match self {
            Dir::PosX | Dir::PosY | Dir::PosZ => true,
            _ => false,
        }
    }

    /// The signed amount `val` along this direction contributes to axis `a`.
    pub open spec fn part(self, val: int, a: Axis) -> int {
        if self.axis() != a {
            0
        } else if self.positive() {
            val
        } else {
            -val
        }
    }
}

pub open spec fn dir_of(a: Axis, positive: bool) -> Dir {
    match (a, positive) {
        (Axis::X, true) => Dir::PosX,
        (Axis::X, false) => Dir::NegX,
        (Axis::Y, true) => Dir::PosY,
        (Axis::Y, false) => Dir::NegY,
        (Axis::Z, true) => Dir::PosZ,
        (Axis::Z, false) => Dir::NegZ,
    }
}

pub open spec fn neg(d: Dir) -> Dir {
    dir_of(d.axis(), !d.positive())
}

/// Whether `(a, b)` is in the cyclic order x, y, z.
pub open spec fn cyclic(a: Axis, b: Axis) -> bool {
    (a == Axis::X && b == Axis::Y) || (a == Axis::Y && b == Axis::Z) || (a == Axis::Z && b
        == Axis::X)
}

pub open spec fn third_axis(a: Axis, b: Axis) -> Axis {
    if a != Axis::X && b != Axis::X {
        Axis::X
    } else if a != Axis::Y && b != Axis::Y {
        Axis::Y
    } else {
        Axis::Z
    }
}

/// The cross product of two directions on different axes.
pub open spec fn cross(a: Dir, b: Dir) -> Dir {
    dir_of(third_axis(a.axis(), b.axis()), (a.positive() == b.positive()) == cyclic(a.axis(), b.axis()))
}

pub open spec fn identity() -> Orient {
    Orient { x: Dir::PosX, y: Dir::PosY, z: Dir::PosZ }
}

impl Orient {
    /// A proper rotation: x and y on different axes and z their cross product.
    pub open spec fn wf(self) -> bool {
        self.x.axis() != self.y.axis() && self.z == cross(self.x, self.y)
    }

    /// The direction a local direction points to in the parent's frame.
    pub open spec fn image(self, d: Dir) -> Dir {
        let e = match d.axis() {
            Axis::X => self.x,
            Axis::Y => self.y,
            Axis::Z => self.z,
        };
        if d.positive() {
            e
        } else {
            neg(e)
        }
    }

    /// Coordinate `a` of the image of `v`.
    pub open spec fn apply_comp(self, v: Vec3, a: Axis) -> int {
        self.x.part(v.x as int, a) + self.y.part(v.y as int, a) + self.z.part(v.z as int, a)
    }

    pub open spec fn apply_spec(self, v: Vec3) -> Vec3 {
        Vec3 {
            x: self.apply_comp(v, Axis::X) as i64,
            y: self.apply_comp(v, Axis::Y) as i64,
            z: self.apply_comp(v, Axis::Z) as i64,
        }
    }

    /// `self` after `o`: first `o`, then `self`.
    pub open spec fn compose(self, o: Orient) -> Orient {
        Orient { x: self.image(o.x), y: self.image(o.y), z: self.image(o.z) }
    }

    pub open spec fn preimage(self, a: Axis) -> Dir {
        if self.x.axis() == a {
            dir_of(Axis::X, self.x.positive())
        } else if self.y.axis() == a {
            dir_of(Axis::Y, self.y.positive())
        } else {
            dir_of(Axis::Z, self.z.positive())
        }
    }

    /// The inverse rotation (the transpose).
    pub open spec fn inverse(self) -> Orient {
        Orient { x: self.preimage(Axis::X), y: self.preimage(Axis::Y), z: self.preimage(Axis::Z) }
    }
}

proof fn lemma_wf_axes(o: Orient)
    requires
        o.wf(),
    ensures
        o.x.axis() != o.z.axis(),
        o.y.axis() != o.z.axis(),
{
}

/// Rotating a point and rotating it back gives the point.
pub proof fn lemma_inverse_apply(o: Orient, v: Vec3)
    requires
        o.wf(),
        v.in_range(),
    ensures
        o.inverse().wf(),
        o.apply_spec(v).in_range(),
        o.inverse().apply_spec(o.apply_spec(v)) == v,
{
}

/// The direction a local direction points to in the parent's frame.
pub fn image_dir(o: Orient, d: Dir) -> (r: Dir)
    ensures
        r == o.image(d),
{
    match d {
        Dir::PosX => o.x,
        Dir::NegX => negate(o.x),
        Dir::PosY => o.y,
        Dir::NegY => negate(o.y),
        Dir::PosZ => o.z,
        Dir::NegZ => negate(o.z),
    }
}

/// The opposite direction.
pub fn negate(d: Dir) -> (r: Dir)
    ensures
        r == neg(d),
{
    match d {
        Dir::PosX => Dir::NegX,
        Dir::NegX => Dir::PosX,
        Dir::PosY => Dir::NegY,
        Dir::NegY => Dir::PosY,
        Dir::PosZ => Dir::NegZ,
        Dir::NegZ => Dir::PosZ,
    }
}

fn part(d: Dir, val: i64, a: Axis) -> (r: i64)
    requires
        coord_ok(val as int),
    ensures
        r as int == d.part(val as int, a),
{
    let on_axis = match (d, a) {
        (Dir::PosX, Axis::X) | (Dir::NegX, Axis::X) => true,
        (Dir::PosY, Axis::Y) | (Dir::NegY, Axis::Y) => true,
        (Dir::PosZ, Axis::Z) | (Dir::NegZ, Axis::Z) => true,
        _ => false,
    };
    if !on_axis {
        0
    } else {
        match d {
            Dir::PosX | Dir::PosY | Dir::PosZ => val,
            _ => -val,
        }
    }
}

/// Rotates a point by an orientation.
pub fn apply(o: Orient, v: Vec3) -> (r: Vec3)
    requires
        o.wf(),
        v.in_range(),
    ensures
        r == o.apply_spec(v),
        r.in_range(),
{
    proof {
        lemma_wf_axes(o);
    }
    let x = part(o.x, v.x, Axis::X) + part(o.y, v.y, Axis::X) + part(o.z, v.z, Axis::X);
    let y = part(o.x, v.x, Axis::Y) + part(o.y, v.y, Axis::Y) + part(o.z, v.z, Axis::Y);
    let z = part(o.x, v.x, Axis::Z) + part(o.y, v.y, Axis::Z) + part(o.z, v.z, Axis::Z);
    Vec3 { x, y, z }
}

/// `a` after `b`.
pub fn compose(a: Orient, b: Orient) -> (r: Orient)
    ensures
        r == a.compose(b),
{
    Orient { x: image_dir(a, b.x), y: image_dir(a, b.y), z: image_dir(a, b.z) }
}

/// The cross product of two directions on different axes.
pub fn cross_dir(a: Dir, b: Dir) -> (r: Dir)
    ensures
        r == cross(a, b),
{
    let (a_axis, a_pos) = split_dir(a);
    let (b_axis, b_pos) = split_dir(b);
    let third = match (a_axis, b_axis) {
        (Axis::X, Axis::Y) | (Axis::Y, Axis::X) => Axis::Z,
        (Axis::Y, Axis::Z) | (Axis::Z, Axis::Y) => Axis::X,
        (Axis::X, Axis::Z) | (Axis::Z, Axis::X) => Axis::Y,
        (Axis::X, Axis::X) => Axis::Y,
        (Axis::Y, Axis::Y) => Axis::X,
        (Axis::Z, Axis::Z) => Axis::X,
    };
    let cyc = match (a_axis, b_axis) {
        (Axis::X, Axis::Y) | (Axis::Y, Axis::Z) | (Axis::Z, Axis::X) => true,
        _ => false,
    };
    make_dir(third, (a_pos == b_pos) == cyc)
}

fn split_dir(d: Dir) -> (r: (Axis, bool))
    ensures
        r.0 == d.axis(),
        r.1 == d.positive(),
{
    match d {
        Dir::PosX => (Axis::X, true),
        Dir::NegX => (Axis::X, false),
        Dir::PosY => (Axis::Y, true),
        Dir::NegY => (Axis::Y, false),
        Dir::PosZ => (Axis::Z, true),
        Dir::NegZ => (Axis::Z, false),
    }
}

fn make_dir(a: Axis, positive: bool) -> (r: Dir)
    ensures
        r == dir_of(a, positive),
{
    match (a, positive) {
        (Axis::X, true) => Dir::PosX,
        (Axis::X, false) => Dir::NegX,
        (Axis::Y, true) => Dir::PosY,
        (Axis::Y, false) => Dir::NegY,
        (Axis::Z, true) => Dir::PosZ,
        (Axis::Z, false) => Dir::NegZ,
    }
}

/// The direction of greatest magnitude of `v`, ties going to x before y before
/// z; a zero component counts as positive.
pub open spec fn nearest_dir(v: Vec3) -> Dir {
    let ax = if v.x >= 0 { v.x as int } else { -v.x };
    let ay = if v.y >= 0 { v.y as int } else { -v.y };
    let az = if v.z >= 0 { v.z as int } else { -v.z };
    if ax >= ay && ax >= az {
        dir_of(Axis::X, v.x >= 0)
    } else if ay >= az {
        dir_of(Axis::Y, v.y >= 0)
    } else {
        dir_of(Axis::Z, v.z >= 0)
    }
}

/// Snaps a direction to the nearest axis direction.
pub fn snap_dir(v: Vec3) -> (r: Dir)
    requires
        v.in_range(),
    ensures
        r == nearest_dir(v),
{
    let ax = if v.x >= 0 { v.x } else { -v.x };
    let ay = if v.y >= 0 { v.y } else { -v.y };
    let az = if v.z >= 0 { v.z } else { -v.z };
    if ax >= ay && ax >= az {
        make_dir(Axis::X, v.x >= 0)
    } else if ay >= az {
        make_dir(Axis::Y, v.y >= 0)
    } else {
        make_dir(Axis::Z, v.z >= 0)
    }
}

/// The axis-aligned rotation nearest to a rotation whose local x and y axes
/// point along `x_axis` and `y_axis` (in fixed-point units): each is snapped to
/// the nearest axis direction, and when both land on one axis y is replaced by
/// `+z` (if x lies on the x axis) or `+x`; z is their cross product.
pub open spec fn snapped_orient(x_axis: Vec3, y_axis: Vec3) -> Orient {
    let x = nearest_dir(x_axis);
    let y0 = nearest_dir(y_axis);
    let y = if x.axis() != y0.axis() {
        y0
    } else if x.axis() == Axis::X {
        Dir::PosZ
    } else {
        Dir::PosX
    };
    Orient { x, y, z: cross(x, y) }
}

/// Snaps a drifted rotation, given by the images of its local x and y axes, to
/// the nearest axis-aligned rotation; the result is always a proper rotation.
pub fn snap_rotation_to_axis_aligned(x_axis: Vec3, y_axis: Vec3) -> (r: Orient)
    requires
        x_axis.in_range(),
        y_axis.in_range(),
    ensures
        r == snapped_orient(x_axis, y_axis),
        r.wf(),
{
    let x = snap_dir(x_axis);
    let mut y = snap_dir(y_axis);
    let (x_ax, _) = split_dir(x);
    let (y_ax, _) = split_dir(y);
    if x_ax == y_ax {
        y = if x_ax == Axis::X {
            Dir::PosZ
        } else {
            Dir::PosX
        };
    }
    let z = cross_dir(x, y);
    Orient { x, y, z }
}

fn preimage_dir(o: Orient, a: Axis) -> (r: Dir)
    ensures
        r == o.preimage(a),
{
    let (xa, xp) = split_dir(o.x);
    let (ya, yp) = split_dir(o.y);
    let (_, zp) = split_dir(o.z);
    if xa == a {
        make_dir(Axis::X, xp)
    } else if ya == a {
        make_dir(Axis::Y, yp)
    } else {
        make_dir(Axis::Z, zp)
    }
}

/// The inverse of a rotation.
pub fn inverse_orientation(o: Orient) -> (r: Orient)
    ensures
        r == o.inverse(),
{
    Orient {
        x: preimage_dir(o, Axis::X),
        y: preimage_dir(o, Axis::Y),
        z: preimage_dir(o, Axis::Z),
    }
}

/// Whether an orientation is a proper rotation.
pub fn is_rotation(o: Orient) -> (r: bool)
    ensures
        r == o.wf(),
{
    let (xa, _) = split_dir(o.x);
    let (ya, _) = split_dir(o.y);
    xa != ya && o.z == cross_dir(o.x, o.y)
}

/// The two coordinates of `p` in the plane of a slice: (x, y) for a slice
/// about z, (z, y) about x, (x, z) about y.
pub fn get_position_in_layer(p: Vec3, face: LayerFace) -> (r: (i64, i64))
    ensures
        r == match face.axis_spec() {
            Axis::Z => (p.x, p.y),
            Axis::X => (p.z, p.y),
            Axis::Y => (p.x, p.z),
        },
{
    match face.rotation_axis() {
        Axis::Z => (p.x, p.y),
        Axis::X => (p.z, p.y),
        Axis::Y => (p.x, p.z),
    }
}

} // verus!
