//! The 54-facelet puzzle state: where a sticker lands in the string, and the
//! relabelling that makes the string independent of which colour sits on which
//! centre.
//!
//! Layout: `U` (0..9), `R` (9..18), `F` (18..27), `D` (27..36), `L` (36..45),
//! `B` (45..54), each a row-major 3x3 grid as seen from outside that face.

use vstd::prelude::*;
use crate::geometry::{Cell, Vec3, cell_of, cell_ok, world_to_local_indices};
use crate::notation::CubeFace;
use vstd::string::StrSliceExecFns;

verus! {

/// Number of facelets in a puzzle-state string.
pub const FACELET_COUNT: usize = 54;

/// The solved puzzle state.
pub open spec fn solved_facelets() -> Seq<char> {
    Seq::new(54, |i: int| face_label(i / 9))
}

/// The canonical label of face group `g` (`U R F D L B`).
pub open spec fn face_label(g: int) -> char {
    if g == 0 {
        'U'
    } else if g == 1 {
        'R'
    } else if g == 2 {
        'F'
    } else if g == 3 {
        'D'
    } else if g == 4 {
        'L'
    } else {
        'B'
    }
}

/// Index of the centre facelet of face group `g`.
pub open spec fn center_index(g: int) -> int {
    9 * g + 4
}

/// The side of the cube a sticker faces.
#[derive(Clone, Copy, Debug, PartialEq, Eq, Hash, Structural)]
pub enum Orientation {
    Up,
    Down,
    Front,
    Back,
    Right,
    Left,
}

/// Colours of the stickers, each standing for one face label.
#[derive(Clone, Copy, Debug, PartialEq, Eq, Hash, Structural)]
pub enum FaceColor {
    White,
    Red,
    Green,
    Yellow,
    Orange,
    Blue,
}

impl FaceColor {
    pub open spec fn char_spec(self) -> char {
        match self {
            FaceColor::White => 'U',
            FaceColor::Red => 'R',
            FaceColor::Green => 'F',
            FaceColor::Yellow => 'D',
            FaceColor::Orange => 'L',
            FaceColor::Blue => 'B',
        }
    }

    pub open spec fn from_index_spec(index: int) -> FaceColor {
        if index == 0 {
            FaceColor::White
        } else if index == 1 {
            FaceColor::Yellow
        } else if index == 2 {
            FaceColor::Red
        } else if index == 3 {
            FaceColor::Orange
        } else if index == 4 {
            FaceColor::Blue
        } else {
            FaceColor::Green
        }
    }

    /// The facelet character of this colour.
    pub fn to_facelet_char(self) -> (r: char)
        ensures
            r == self.char_spec(),
    {
        match self {
            FaceColor::White => 'U',
            FaceColor::Red => 'R',
            FaceColor::Green => 'F',
            FaceColor::Yellow => 'D',
            FaceColor::Orange => 'L',
            FaceColor::Blue => 'B',
        }
    }

    /// The colour of a palette index: white, yellow, red, orange, blue, green.
    pub fn from_index(index: usize) -> (r: FaceColor)
        requires
            index < 6,
        ensures
            r == FaceColor::from_index_spec(index as int),
    {
        match index {
            0 => FaceColor::White,
            1 => FaceColor::Yellow,
            2 => FaceColor::Red,
            3 => FaceColor::Orange,
            4 => FaceColor::Blue,
            _ => FaceColor::Green,
        }
    }
}

/// The facelet character of a palette index.
pub open spec fn color_char(index: int) -> char {
    FaceColor::from_index_spec(index).char_spec()
}

impl Orientation {
    pub open spec fn offset_spec(self) -> int {
        match self {
            Orientation::Up => 0,
            Orientation::Right => 9,
            Orientation::Front => 18,
            Orientation::Down => 27,
            Orientation::Left => 36,
            Orientation::Back => 45,
        }
    }

    pub open spec fn name_text(self) -> Seq<char> {
        match self {
            Orientation::Up => "Top"@,
            Orientation::Down => "Bottom"@,
            Orientation::Front => "Front"@,
            Orientation::Back => "Back"@,
            Orientation::Right => "Right"@,
            Orientation::Left => "Left"@,
        }
    }

    /// A short name of the side.
    pub fn as_str(&self) -> (r: &'static str)
        ensures
            r@ == self.name_text(),
    {
        match self {
            Orientation::Up => "Top",
            Orientation::Down => "Bottom",
            Orientation::Front => "Front",
            Orientation::Back => "Back",
            Orientation::Right => "Right",
            Orientation::Left => "Left",
        }
    }

    /// Index of the first facelet of this side's group.
    pub fn facelet_offset(&self) -> (r: usize)
        ensures
            r as int == self.offset_spec(),
    {
        match self {
            Orientation::Up => 0,
            Orientation::Right => 9,
            Orientation::Front => 18,
            Orientation::Down => 27,
            Orientation::Left => 36,
            Orientation::Back => 45,
        }
    }

    pub fn to_cube_face(&self) -> (r: CubeFace)
        ensures
            r == orientation_face(*self),
    {
        match self {
            Orientation::Up => CubeFace::Up,
            Orientation::Right => CubeFace::Right,
            Orientation::Front => CubeFace::Front,
            Orientation::Down => CubeFace::Down,
            Orientation::Left => CubeFace::Left,
            Orientation::Back => CubeFace::Back,
        }
    }

    pub fn from_cube_face(cube_face: CubeFace) -> (r: Orientation)
        ensures
            orientation_face(r) == cube_face,
    {
        match cube_face {
            CubeFace::Up => Orientation::Up,
            CubeFace::Down => Orientation::Down,
            CubeFace::Front => Orientation::Front,
            CubeFace::Back => Orientation::Back,
            CubeFace::Right => Orientation::Right,
            CubeFace::Left => Orientation::Left,
        }
    }
}

pub open spec fn orientation_face(o: Orientation) -> CubeFace {
    match o {
        Orientation::Up => CubeFace::Up,
        Orientation::Right => CubeFace::Right,
        Orientation::Front => CubeFace::Front,
        Orientation::Down => CubeFace::Down,
        Orientation::Left => CubeFace::Left,
        Orientation::Back => CubeFace::Back,
    }
}

pub open spec fn abs(v: int) -> int {
    if v >= 0 {
        v
    } else {
        -v
    }
}

/// The side a sticker at `p` (relative to the root) faces: the axis of
/// strictly greatest magnitude, else y over z, else z; the sign picks the side.
pub open spec fn face_orientation(p: Vec3) -> Orientation {
    let (ax, ay, az) = (abs(p.x as int), abs(p.y as int), abs(p.z as int));
    if ax > ay && ax > az {
        if p.x > 0 {
            Orientation::Right
        } else {
            Orientation::Left
        }
    } else if ay > az {
        if p.y > 0 {
            Orientation::Up
        } else {
            Orientation::Down
        }
    } else if p.z > 0 {
        Orientation::Front
    } else {
        Orientation::Back
    }
}

/// Column and row of a cell on a side, as seen from outside that side.
pub open spec fn grid_col_row(c: Cell, o: Orientation) -> (int, int) {
    match o {
        Orientation::Front => (c.x + 1, 1 - c.y),
        Orientation::Back => (1 - c.x, 1 - c.y),
        Orientation::Left => (c.z + 1, 1 - c.y),
        Orientation::Right => (1 - c.z, 1 - c.y),
        Orientation::Up => (c.x + 1, c.z + 1),
        Orientation::Down => (c.x + 1, 1 - c.z),
    }
}

pub open spec fn position_in_face(c: Cell, o: Orientation) -> int {
    3 * grid_col_row(c, o).1 + grid_col_row(c, o).0
}

/// Facelet index of a sticker at `sticker` on a piece at `piece`, both
/// relative to the root.
pub open spec fn facelet_index_spec(sticker: Vec3, piece: Vec3) -> int {
    let o = face_orientation(sticker);
    o.offset_spec() + position_in_face(cell_of(piece), o)
}

/// A facelet index is one of the 54 positions.
pub proof fn lemma_facelet_index_range(sticker: Vec3, piece: Vec3)
    ensures
        0 <= facelet_index_spec(sticker, piece) < 54,
{
    crate::geometry::lemma_cell_of_ok(piece);
}

/// The side a sticker at `p` (relative to the root) faces.
pub fn determine_face_orientation_from_main_position(p: Vec3) -> (r: Orientation)
    requires
        p.in_range(),
    ensures
        r == face_orientation(p),
{
    let ax = if p.x >= 0 { p.x } else { -p.x };
    let ay = if p.y >= 0 { p.y } else { -p.y };
    let az = if p.z >= 0 { p.z } else { -p.z };
    if ax > ay && ax > az {
        if p.x > 0 {
            Orientation::Right
        } else {
            Orientation::Left
        }
    } else if ay > az {
        if p.y > 0 {
            Orientation::Up
        } else {
            Orientation::Down
        }
    } else if p.z > 0 {
        Orientation::Front
    } else {
        Orientation::Back
    }
}

/// Position `0..9` of a cell within a side's 3x3 grid.
pub fn calculate_position_in_face_from_indices(c: Cell, o: Orientation) -> (r: usize)
    requires
        cell_ok(c),
    ensures
        r as int == position_in_face(c, o),
        r < 9,
{
    let (col, row): (i8, i8) = match o {
        Orientation::Front => (c.x + 1, 1 - c.y),
        Orientation::Back => (1 - c.x, 1 - c.y),
        Orientation::Left => (c.z + 1, 1 - c.y),
        Orientation::Right => (1 - c.z, 1 - c.y),
        Orientation::Up => (c.x + 1, c.z + 1),
        Orientation::Down => (c.x + 1, 1 - c.z),
    };
    (3 * row + col) as usize
}

/// Facelet index `0..54` of a sticker at `sticker` on a piece at `piece`, both
/// relative to the root.
pub fn calculate_facelet_index(sticker: Vec3, piece: Vec3) -> (r: usize)
    requires
        sticker.in_range(),
    ensures
        r as int == facelet_index_spec(sticker, piece),
        r < 54,
{
    let o = determine_face_orientation_from_main_position(sticker);
    let cell = world_to_local_indices(piece);
    o.facelet_offset() + calculate_position_in_face_from_indices(cell, o)
}

// ---------------------------------------------------------------------------
// Centre canonicalisation

/// The label that centre relabelling gives to `c`, looking at the first `k`
/// centres from the last one down. With distinct centres this is the label of
/// the one centre holding `c`; where two centres share a colour the result is
/// left open, and no contract promises it (see `relabelled`).
pub open spec fn relabel(centers: Seq<char>, c: char, k: nat) -> char
    decreases k,
{
    if k == 0 {
        c
    } else if centers[k - 1] == c {
        face_label(k - 1)
    } else {
        relabel(centers, c, (k - 1) as nat)
    }
}

pub open spec fn centers_of(s: Seq<char>) -> Seq<char> {
    Seq::new(6, |g: int| s[center_index(g)])
}

pub open spec fn canonical_char(s: Seq<char>, c: char) -> char {
    if c == ' ' {
        c
    } else {
        relabel(centers_of(s), c, 6)
    }
}

/// No colour sits on two centres (blank centres aside).
pub open spec fn distinct_centers(s: Seq<char>) -> bool {
    forall|g: int, h: int|
        0 <= g < 6 && 0 <= h < 6 && g != h && s[center_index(g)] != ' ' ==> s[center_index(g)]
            != s[center_index(h)]
}

/// What the relabelling promises of `out` for `s`: the same length and the
/// same blanks; a string not of 54 characters kept as it is; and, when the
/// centres hold distinct colours, exactly `canonical(s)`. Where two centres
/// share a colour the mapping is not defined, and nothing more is promised.
pub open spec fn relabelled(s: Seq<char>, out: Seq<char>) -> bool {
    &&& out.len() == s.len()
    &&& forall|i: int| 0 <= i < s.len() ==> (#[trigger] out[i] == ' ' <==> s[i] == ' ')
    &&& s.len() != 54 ==> out == s
    &&& s.len() == 54 && distinct_centers(s) ==> out == canonical(s)
}

/// The string relabelled so that each colour on a centre becomes that
/// centre's label; blanks stay, and a string not of 54 characters is kept.
/// Meant for distinct centres (see `relabelled`).
pub open spec fn canonical(s: Seq<char>) -> Seq<char> {
    if s.len() != 54 {
        s
    } else {
        Seq::new(54, |i: int| canonical_char(s, s[i]))
    }
}

fn relabel_char(centers: &[char; 6], c: char) -> (r: char)
    ensures
        r == relabel(centers@, c, 6),
{
    let mut k: usize = 6;
    while k > 0
        invariant
            k <= 6,
            relabel(centers@, c, 6) == relabel(centers@, c, k as nat),
        decreases k,
    {
        if centers[k - 1] == c {
            return label_of(k - 1);
        }
        k = k - 1;
    }
    c
}

fn label_of(g: usize) -> (r: char)
    ensures
        r == face_label(g as int),
{
    match g {
        0 => 'U',
        1 => 'R',
        2 => 'F',
        3 => 'D',
        4 => 'L',
        _ => 'B',
    }
}

/// Relabels a 54-character state so that it reads the same whatever colour
/// sits on each centre.
pub fn remap_chars(s: &Vec<char>) -> (r: Vec<char>)
    ensures
        relabelled(s@, r@),
{
    if s.len() != FACELET_COUNT {
        return s.clone();
    }
    let centers: [char; 6] = [s[4], s[13], s[22], s[31], s[40], s[49]];
    assert(centers@ =~= centers_of(s@));
    let mut out: Vec<char> = Vec::new();
    let mut i: usize = 0;
    while i < s.len()
        invariant
            s@.len() == 54,
            i <= 54,
            centers@ == centers_of(s@),
            out@.len() == i,
            forall|j: int| 0 <= j < i ==> out@[j] == canonical_char(s@, s@[j]),
        decreases 54 - i,
    {
        let c = s[i];
        if c == ' ' {
            out.push(c);
        } else {
            out.push(relabel_char(&centers, c));
        }
        i = i + 1;
    }
    assert(out@ =~= canonical(s@));
    proof {
        assert forall|i: int| 0 <= i < s@.len() implies (#[trigger] out@[i] == ' ' <==> s@[i]
            == ' ') by {
            if s@[i] != ' ' {
                lemma_relabel_not_blank(centers_of(s@), s@[i], 6);
            }
        }
    }
    out
}

/// Relabels a puzzle-state string by its centres (see `remap_chars`).
pub fn remap_facelets_by_centers(facelets: &str) -> (r: String)
    ensures
        relabelled(facelets@, r@),
{
    let chars = chars_of(facelets);
    string_of(&remap_chars(&chars))
}

/// The characters of a string.
pub fn chars_of(s: &str) -> (r: Vec<char>)
    ensures
        r@ == s@,
{
    let n = s.unicode_len();
    let mut out: Vec<char> = Vec::new();
    let mut i: usize = 0;
    while i < n
        invariant
            n == s@.len(),
            i <= n,
            out@ == s@.subrange(0, i as int),
        decreases n - i,
    {
        out.push(s.get_char(i));
        i = i + 1;
        assert(out@ =~= s@.subrange(0, i as int));
    }
    assert(out@ =~= s@);
    out
}

/// A string of the given characters.
pub fn string_of(v: &Vec<char>) -> (r: String)
    ensures
        r@ == v@,
{
    let mut out = String::new();
    let mut i: usize = 0;
    while i < v.len()
        invariant
            i <= v@.len(),
            out@ == v@.subrange(0, i as int),
        decreases v@.len() - i,
    {
        push_char(&mut out, v[i]);
        i = i + 1;
        assert(out@ =~= v@.subrange(0, i as int));
    }
    assert(out@ =~= v@);
    out
}

/// Relies on `String::push`: appends one character to the string.
#[verifier::external_body]
pub(crate) fn push_char(s: &mut String, c: char)
    ensures
        final(s)@ == old(s)@.push(c),
{
    s.push(c);
}

/// A string whose face groups are each of one colour, the six colours
/// distinct and none blank, relabels to the solved state.
pub proof fn lemma_uniform_faces_canonicalize_to_solved(s: Seq<char>)
    requires
        s.len() == 54,
        forall|i: int| 0 <= i < 54 ==> #[trigger] s[i] == s[center_index(i / 9)],
        forall|g: int, h: int| 0 <= g < h < 6 ==> s[center_index(g)] != s[center_index(h)],
        forall|g: int| 0 <= g < 6 ==> s[center_index(g)] != ' ',
    ensures
        canonical(s) == solved_facelets(),
{
    let cs = centers_of(s);
    assert forall|g: int| 0 <= g < 6 implies relabel(cs, cs[g], 6) == face_label(g) by {
        lemma_relabel_distinct(cs, g, 6);
    }
    assert forall|i: int| 0 <= i < 54 implies canonical_char(s, s[i]) == face_label(i / 9) by {
        assert(s[i] == cs[i / 9]);
    }
    assert(canonical(s) =~= solved_facelets());
}

proof fn lemma_relabel_not_blank(cs: Seq<char>, c: char, k: nat)
    requires
        c != ' ',
        k <= 6,
    ensures
        relabel(cs, c, k) != ' ',
    decreases k,
{
    if k > 0 {
        lemma_relabel_not_blank(cs, c, (k - 1) as nat);
    }
}

proof fn lemma_relabel_distinct(cs: Seq<char>, g: int, k: nat)
    requires
        cs.len() == 6,
        0 <= g < k <= 6,
        forall|a: int, b: int| 0 <= a < b < 6 ==> cs[a] != cs[b],
    ensures
        relabel(cs, cs[g], k) == face_label(g),
    decreases k,
{
    if k - 1 != g {
        lemma_relabel_distinct(cs, g, (k - 1) as nat);
    }
}

/// Relabelling does not depend on which colours were used: recolouring a
/// string by any one-to-one map of colours gives the same canonical string,
/// when the six centres hold six distinct colours and every non-blank
/// facelet holds one of them.
pub proof fn lemma_canonical_ignores_color_names(s: Seq<char>, t: Seq<char>)
    requires
        s.len() == 54,
        t.len() == 54,
        forall|g: int, h: int| 0 <= g < h < 6 ==> s[center_index(g)] != s[center_index(h)],
        forall|i: int|
            0 <= i < 54 && s[i] != ' ' ==> exists|g: int| 0 <= g < 6 && s[i] == s[center_index(g)],
        forall|i: int, j: int| 0 <= i < 54 && 0 <= j < 54 ==> (s[i] == s[j] <==> t[i] == t[j]),
        forall|i: int| 0 <= i < 54 ==> (s[i] == ' ' <==> t[i] == ' '),
    ensures
        canonical(s) == canonical(t),
{
    let (cs, ct) = (centers_of(s), centers_of(t));
    assert forall|g: int, h: int| 0 <= g < h < 6 implies ct[g] != ct[h] by {
        assert(s[center_index(g)] != s[center_index(h)]);
    }
    assert forall|i: int| 0 <= i < 54 implies canonical_char(s, s[i]) == canonical_char(t, t[i]) by {
        if s[i] != ' ' {
            let g = choose|g: int| 0 <= g < 6 && s[i] == s[center_index(g)];
            assert(t[i] == t[center_index(g)]);
            lemma_relabel_distinct(cs, g, 6);
            lemma_relabel_distinct(ct, g, 6);
        }
    }
    assert(canonical(s) =~= canonical(t));
}

} // verus!
