//! Move notation: a face or slice letter, optionally followed by `'` (quarter
//! counter-clockwise) or `2` (half turn).

use vstd::prelude::*;
use vstd::string::StrSliceExecFns;
use vstd::string::StringExecFns;

verus! {

/// One of the six outer faces of the cube.
#[derive(Clone, Copy, Debug, PartialEq, Eq, Hash, Structural)]
pub enum CubeFace {
    Front,
    Back,
    Right,
    Left,
    Up,
    Down,
}

/// Turn kind of a face move.
#[derive(Clone, Copy, Debug, PartialEq, Eq, Hash, Structural)]
pub enum MoveType {
    Clockwise,
    CounterClockwise,
    Double,
}

/// A coordinate axis of the cube.
#[derive(Clone, Copy, Debug, PartialEq, Eq, Hash, Structural)]
pub enum Axis {
    X,
    Y,
    Z,
}

/// One of the nine rotatable slices: three per axis.
#[derive(Clone, Copy, Debug, PartialEq, Eq, Hash, Structural)]
pub enum LayerFace {
    Right,
    MiddleX,
    Left,
    Up,
    MiddleY,
    Down,
    Front,
    MiddleZ,
    Back,
}

/// Turn kind of a slice move.
#[derive(Clone, Copy, Debug, PartialEq, Eq, Hash, Structural)]
pub enum LayerMoveType {
    Clockwise,
    CounterClockwise,
    Double,
}

pub open spec fn face_of_char(c: char) -> Option<CubeFace> {
    if c == 'F' {
        Some(CubeFace::Front)
    } else if c == 'B' {
        Some(CubeFace::Back)
    } else if c == 'R' {
        Some(CubeFace::Right)
    } else if c == 'L' {
        Some(CubeFace::Left)
    } else if c == 'U' {
        Some(CubeFace::Up)
    } else if c == 'D' {
        Some(CubeFace::Down)
    } else {
        None
    }
}

/// The turn kind selected by what follows the first character.
pub open spec fn move_type_of_suffix(s: Seq<char>) -> Option<MoveType> {
    if s.len() == 0 {
        Some(MoveType::Clockwise)
    } else if s.len() == 1 && s[0] == '\'' {
        Some(MoveType::CounterClockwise)
    } else if s.len() == 1 && s[0] == '2' {
        Some(MoveType::Double)
    } else {
        None
    }
}

/// What a face move in notation `s` denotes, if anything.
pub open spec fn parse_move(s: Seq<char>) -> Option<(CubeFace, MoveType)> {
    if s.len() == 0 {
        None
    } else {
        match (face_of_char(s[0]), move_type_of_suffix(s.subrange(1, s.len() as int))) {
            (Some(f), Some(m)) => Some((f, m)),
            _ => None,
        }
    }
}

pub open spec fn layer_of_char(c: char) -> Option<LayerFace> {
    match face_of_char(c) {
        Some(f) => Some(layer_of_face(f)),
        None => if c == 'M' {
            Some(LayerFace::MiddleX)
        } else if c == 'E' {
            Some(LayerFace::MiddleY)
        } else if c == 'S' {
            Some(LayerFace::MiddleZ)
        } else {
            None
        },
    }
}

pub open spec fn layer_of_face(f: CubeFace) -> LayerFace {
    match f {
        CubeFace::Front => LayerFace::Front,
        CubeFace::Back => LayerFace::Back,
        CubeFace::Right => LayerFace::Right,
        CubeFace::Left => LayerFace::Left,
        CubeFace::Up => LayerFace::Up,
        CubeFace::Down => LayerFace::Down,
    }
}

pub open spec fn layer_move_of(m: MoveType) -> LayerMoveType {
    match m {
        MoveType::Clockwise => LayerMoveType::Clockwise,
        MoveType::CounterClockwise => LayerMoveType::CounterClockwise,
        MoveType::Double => LayerMoveType::Double,
    }
}

/// What a slice move in notation `s` denotes, if anything: an outer face
/// letter `F B R L U D` or a middle slice letter `M E S`, then the suffix.
pub open spec fn parse_layer_move(s: Seq<char>) -> Option<(LayerFace, LayerMoveType)> {
    if s.len() == 0 {
        None
    } else {
        match (layer_of_char(s[0]), move_type_of_suffix(s.subrange(1, s.len() as int))) {
            (Some(f), Some(m)) => Some((f, layer_move_of(m))),
            _ => None,
        }
    }
}

/// The notation that undoes `s`: a half turn is its own inverse, a prime is
/// dropped, and a plain move gains a prime.
pub open spec fn inverse_of(s: Seq<char>) -> Seq<char> {
    if s.len() == 0 {
        s
    } else if s.last() == '2' {
        s
    } else if s.last() == '\'' {
        s.drop_last()
    } else {
        s.push('\'')
    }
}

pub open spec fn opposite(m: LayerMoveType) -> LayerMoveType {
    match m {
        LayerMoveType::Clockwise => LayerMoveType::CounterClockwise,
        LayerMoveType::CounterClockwise => LayerMoveType::Clockwise,
        LayerMoveType::Double => LayerMoveType::Double,
    }
}

fn suffix_move_type(notation: &str, n: usize) -> (r: Option<MoveType>)
    requires
        n == notation@.len(),
        n >= 1,
    ensures
        r == move_type_of_suffix(notation@.subrange(1, n as int)),
{
    let suffix = Ghost(notation@.subrange(1, n as int));
    if n == 1 {
        Some(MoveType::Clockwise)
    } else if n == 2 {
        let c = notation.get_char(1);
        assert(suffix@[0] == c);
        if c == '\'' {
            Some(MoveType::CounterClockwise)
        } else if c == '2' {
            Some(MoveType::Double)
        } else {
            None
        }
    } else {
        None
    }
}

/// Parses a face move (`F B R L U D`, optionally followed by `'` or `2`).
pub fn parse_move_notation(notation: &str) -> (r: Option<(CubeFace, MoveType)>)
    ensures
        r == parse_move(notation@),
{
    let n = notation.unicode_len();
    if n == 0 {
        return None;
    }
    let c = notation.get_char(0);
    let face = match c {
        'F' => CubeFace::Front,
        'B' => CubeFace::Back,
        'R' => CubeFace::Right,
        'L' => CubeFace::Left,
        'U' => CubeFace::Up,
        'D' => CubeFace::Down,
        _ => {
            return None;
        },
    };
    match suffix_move_type(notation, n) {
        Some(m) => Some((face, m)),
        None => None,
    }
}

/// Parses a slice move: a face move, or a middle slice `M` (between `L` and
/// `R`), `E` (between `U` and `D`) or `S` (between `F` and `B`), with the same
/// suffixes.
pub fn parse_extended_move_notation(notation: &str) -> (r: Option<(LayerFace, LayerMoveType)>)
    ensures
        r == parse_layer_move(notation@),
{
    let n = notation.unicode_len();
    if n == 0 {
        return None;
    }
    if let Some((face, move_type)) = parse_move_notation(notation) {
        return Some((LayerFace::from_cube_face(face), LayerMoveType::from_move_type(move_type)));
    }
    let layer_face = match notation.get_char(0) {
        'M' => LayerFace::MiddleX,
        'E' => LayerFace::MiddleY,
        'S' => LayerFace::MiddleZ,
        _ => {
            return None;
        },
    };
    match suffix_move_type(notation, n) {
        Some(m) => Some((layer_face, LayerMoveType::from_move_type(m))),
        None => None,
    }
}

/// The notation of the move that undoes `notation`.
pub fn get_inverse_notation(notation: &str) -> (r: String)
    ensures
        r@ == inverse_of(notation@),
{
    let n = notation.unicode_len();
    if n == 0 {
        return String::from_str(notation);
    }
    let last = notation.get_char(n - 1);
    if last == '2' {
        String::from_str(notation)
    } else if last == '\'' {
        let head = notation.substring_char(0, n - 1);
        assert(head@ =~= notation@.drop_last());
        String::from_str(head)
    } else {
        let mut r = String::from_str(notation);
        let prime = "'";
        proof {
            reveal_strlit("'");
        }
        r.append(prime);
        assert(r@ =~= notation@.push('\''));
        r
    }
}

impl LayerFace {
    pub open spec fn axis_spec(self) -> Axis {
        match self {
            LayerFace::Right | LayerFace::MiddleX | LayerFace::Left => Axis::X,
            LayerFace::Up | LayerFace::MiddleY | LayerFace::Down => Axis::Y,
            LayerFace::Front | LayerFace::MiddleZ | LayerFace::Back => Axis::Z,
        }
    }

    pub open spec fn direction_spec(self) -> int {
        match self {
            LayerFace::Back | LayerFace::Down | LayerFace::Left => 1,
            _ => -1,
        }
    }

    pub open spec fn index_spec(self) -> int {
        match self {
            LayerFace::Right | LayerFace::Up | LayerFace::Front => 1,
            LayerFace::MiddleX | LayerFace::MiddleY | LayerFace::MiddleZ => 0,
            LayerFace::Left | LayerFace::Down | LayerFace::Back => -1,
        }
    }

    /// The axis the slice turns about.
    pub fn rotation_axis(&self) -> (r: Axis)
        ensures
            r == self.axis_spec(),
    {
        match self {
            LayerFace::Right | LayerFace::MiddleX | LayerFace::Left => Axis::X,
            LayerFace::Up | LayerFace::MiddleY | LayerFace::Down => Axis::Y,
            LayerFace::Front | LayerFace::MiddleZ | LayerFace::Back => Axis::Z,
        }
    }

    /// The sign that turns a clockwise move of this slice, seen from outside
    /// its face, into a right-handed rotation about the positive axis: `1`
    /// for `Back`, `Down` and `Left`, `-1` for the others (a middle slice
    /// turns as the positive face of its axis).
    pub fn rotation_direction(&self) -> (r: i8)
        ensures
            r as int == self.direction_spec(),
    {
        match self {
            LayerFace::Back | LayerFace::Down | LayerFace::Left => 1,
            _ => -1,
        }
    }

    /// Where the slice sits along its axis: `-1`, `0` or `1`.
    pub fn layer_index(&self) -> (r: i32)
        ensures
            r as int == self.index_spec(),
    {
        match self {
            LayerFace::Right | LayerFace::Up | LayerFace::Front => 1,
            LayerFace::MiddleX | LayerFace::MiddleY | LayerFace::MiddleZ => 0,
            LayerFace::Left | LayerFace::Down | LayerFace::Back => -1,
        }
    }

    /// The outer slice of a face.
    pub fn from_cube_face(face: CubeFace) -> (r: LayerFace)
        ensures
            r == layer_of_face(face),
    {
        match face {
            CubeFace::Front => LayerFace::Front,
            CubeFace::Back => LayerFace::Back,
            CubeFace::Right => LayerFace::Right,
            CubeFace::Left => LayerFace::Left,
            CubeFace::Up => LayerFace::Up,
            CubeFace::Down => LayerFace::Down,
        }
    }
}

impl LayerMoveType {
    pub open spec fn quarters_spec(self) -> int {
        match self {
            LayerMoveType::Clockwise => 1,
            LayerMoveType::CounterClockwise => -1,
            LayerMoveType::Double => 2,
        }
    }

    /// The turn in quarter turns, clockwise positive: the angle of the move
    /// is this many right angles.
    pub fn quarter_turns(&self) -> (r: i8)
        ensures
            r as int == self.quarters_spec(),
    {
        match self {
            LayerMoveType::Clockwise => 1,
            LayerMoveType::CounterClockwise => -1,
            LayerMoveType::Double => 2,
        }
    }

    pub fn from_move_type(move_type: MoveType) -> (r: LayerMoveType)
        ensures
            r == layer_move_of(move_type),
    {
        match move_type {
            MoveType::Clockwise => LayerMoveType::Clockwise,
            MoveType::CounterClockwise => LayerMoveType::CounterClockwise,
            MoveType::Double => LayerMoveType::Double,
        }
    }
}

/// Undoing a quarter-turn notation names the same slice with the opposite turn.
pub proof fn lemma_inverse_notation_parses(s: Seq<char>)
    requires
        parse_layer_move(s) is Some,
    ensures
        ({
            let (f, m) = parse_layer_move(s).unwrap();
            parse_layer_move(inverse_of(s)) == Some((f, opposite(m)))
        }),
{
    let t = inverse_of(s);
    assert(t[0] == s[0]);
    if s.len() == 1 {
        assert(t.subrange(1, t.len() as int) =~= seq!['\'']);
    } else {
        assert(s.subrange(1, s.len() as int) =~= seq![s.last()]);
        if s.last() == '\'' {
            assert(t.subrange(1, t.len() as int) =~= Seq::<char>::empty());
        }
    }
}

} // verus!
