//! Validation of a puzzle-state string, the call into the two-phase solver, and
//! the reading of its answer.

use vstd::prelude::*;
use crate::facelets::{FACELET_COUNT, chars_of, push_char, string_of};
use vstd::string::StringExecFns;

verus! {

/// Search depth handed to the solver.
pub const MAX_DEPTH: u8 = 21;

/// Occurrences of each label in a complete state.
pub const FACE_SIZE: usize = 9;

/// A structural problem found by the lightweight check.
#[derive(Clone, Copy, Debug, PartialEq, Eq, Hash, Structural)]
pub enum ValidationError {
    /// The string does not hold 54 characters.
    Length { len: usize },
    /// Some stickers are not coloured (blank facelets).
    Incomplete { blanks: usize },
    /// A character that is no face label, with its position.
    Character { index: usize, found: char },
    /// A label that does not occur exactly nine times.
    Count { label: char, count: usize },
    /// A centre that does not hold its own label.
    Center { index: usize, expected: char, found: char },
}

/// The solver's error codes.
#[derive(Clone, Copy, Debug, PartialEq, Eq, Hash, Structural)]
pub enum Min2PhaseError {
    InvalidFaceletLength,
    InvalidFaceletCharacter,
    IncorrectColorCount,
    MissingEdges,
    EdgeFlipError,
    MissingCorners,
    CornerTwistError,
    ParityError,
    NoSolutionExists,
    ProbeLimitExceeded,
}

/// Why a full validation did not produce a solution: the solver's answer,
/// and the error it names when its code is known.
#[derive(Clone, Debug)]
pub struct SolveFailure {
    pub error: Option<Min2PhaseError>,
    pub reply: String,
}

/// The validation state of a puzzle state.
#[derive(Clone, Debug)]
pub enum CubeValidation {
    NotValidated,
    Valid,
    Invalid(ValidationError),
    SolvingFailed(SolveFailure),
}

pub open spec fn is_label(c: char) -> bool {
    c == 'U' || c == 'R' || c == 'F' || c == 'D' || c == 'L' || c == 'B'
}

/// Label `g` in the order `U R F D L B`.
pub open spec fn label(g: int) -> char {
    crate::facelets::face_label(g)
}

/// Occurrences of `c` among the first `n` characters of `s`.
pub open spec fn count_in(s: Seq<char>, c: char, n: int) -> nat
    decreases n,
{
    if n <= 0 {
        0
    } else {
        count_in(s, c, n - 1) + if s[n - 1] == c {
            1nat
        } else {
            0nat
        }
    }
}

/// The first position at or after `i` whose character is no label.
pub open spec fn first_non_label(s: Seq<char>, i: int) -> int
    decreases s.len() - i,
{
    if i >= s.len() {
        s.len() as int
    } else if !is_label(s[i]) {
        i
    } else {
        first_non_label(s, i + 1)
    }
}

/// The first label, from the `g`-th on, whose count is not nine.
pub open spec fn first_bad_count(s: Seq<char>, g: int) -> int
    decreases 6 - g,
{
    if g >= 6 {
        6
    } else if count_in(s, label(g), s.len() as int) != 9 {
        g
    } else {
        first_bad_count(s, g + 1)
    }
}

/// The first centre, from the `g`-th on, that does not hold its label.
pub open spec fn first_bad_center(s: Seq<char>, g: int) -> int
    decreases 6 - g,
{
    if g >= 6 {
        6
    } else if s[9 * g + 4] != label(g) {
        g
    } else {
        first_bad_center(s, g + 1)
    }
}

/// The lightweight check: length 54, no blanks, only labels, each label nine
/// times, and every centre holding its own label; the first failure found, in
/// that order.
pub open spec fn lightweight(s: Seq<char>) -> Result<(), ValidationError> {
    if s.len() != 54 {
        Err(ValidationError::Length { len: s.len() as usize })
    } else if count_in(s, ' ', 54) > 0 {
        Err(ValidationError::Incomplete { blanks: count_in(s, ' ', 54) as usize })
    } else if first_non_label(s, 0) < 54 {
        Err(
            ValidationError::Character {
                index: first_non_label(s, 0) as usize,
                found: s[first_non_label(s, 0)],
            },
        )
    } else if first_bad_count(s, 0) < 6 {
        Err(
            ValidationError::Count {
                label: label(first_bad_count(s, 0)),
                count: count_in(s, label(first_bad_count(s, 0)), 54) as usize,
            },
        )
    } else if first_bad_center(s, 0) < 6 {
        Err(
            ValidationError::Center {
                index: (9 * first_bad_center(s, 0) + 4) as usize,
                expected: label(first_bad_center(s, 0)),
                found: s[9 * first_bad_center(s, 0) + 4],
            },
        )
    } else {
        Ok(())
    }
}

fn count_char(s: &Vec<char>, c: char) -> (r: usize)
    ensures
        r as int == count_in(s@, c, s@.len() as int),
{
    let mut n: usize = 0;
    let mut i: usize = 0;
    while i < s.len()
        invariant
            i <= s@.len(),
            n as int == count_in(s@, c, i as int),
            n <= i,
        decreases s@.len() - i,
    {
        if s[i] == c {
            n = n + 1;
        }
        i = i + 1;
    }
    n
}

fn label_at(g: usize) -> (r: char)
    requires
        g < 6,
    ensures
        r == label(g as int),
{
    match g {
        0 => 'U',
        1 => 'R',
        2 => 'F',
        3 => 'D',
        4 => 'L',
        _ => 'B',
    }
}

/// Every character is a face label.
fn validate_characters(s: &Vec<char>) -> (r: Result<(), ValidationError>)
    ensures
        first_non_label(s@, 0) < s@.len() ==> r == Err::<(), ValidationError>(
            ValidationError::Character {
                index: first_non_label(s@, 0) as usize,
                found: s@[first_non_label(s@, 0)],
            },
        ),
        first_non_label(s@, 0) >= s@.len() ==> r is Ok,
{
    let mut i: usize = 0;
    while i < s.len()
        invariant
            i <= s@.len(),
            first_non_label(s@, 0) == first_non_label(s@, i as int),
        decreases s@.len() - i,
    {
        let c = s[i];
        if !(c == 'U' || c == 'R' || c == 'F' || c == 'D' || c == 'L' || c == 'B') {
            return Err(ValidationError::Character { index: i, found: c });
        }
        i = i + 1;
    }
    Ok(())
}

/// Each label occurs exactly nine times.
fn validate_color_counts(s: &Vec<char>) -> (r: Result<(), ValidationError>)
    ensures
        first_bad_count(s@, 0) < 6 ==> r == Err::<(), ValidationError>(
            ValidationError::Count {
                label: label(first_bad_count(s@, 0)),
                count: count_in(s@, label(first_bad_count(s@, 0)), s@.len() as int) as usize,
            },
        ),
        first_bad_count(s@, 0) >= 6 ==> r is Ok,
{
    let mut g: usize = 0;
    while g < 6
        invariant
            g <= 6,
            first_bad_count(s@, 0) == first_bad_count(s@, g as int),
        decreases 6 - g,
    {
        let c = label_at(g);
        let n = count_char(s, c);
        if n != FACE_SIZE {
            return Err(ValidationError::Count { label: c, count: n });
        }
        g = g + 1;
    }
    Ok(())
}

/// Each centre holds its own label.
fn validate_cube_structure(s: &Vec<char>) -> (r: Result<(), ValidationError>)
    requires
        s@.len() == 54,
    ensures
        first_bad_center(s@, 0) < 6 ==> r == Err::<(), ValidationError>(
            ValidationError::Center {
                index: (9 * first_bad_center(s@, 0) + 4) as usize,
                expected: label(first_bad_center(s@, 0)),
                found: s@[9 * first_bad_center(s@, 0) + 4],
            },
        ),
        first_bad_center(s@, 0) >= 6 ==> r is Ok,
{
    let mut g: usize = 0;
    while g < 6
        invariant
            g <= 6,
            s@.len() == 54,
            first_bad_center(s@, 0) == first_bad_center(s@, g as int),
        decreases 6 - g,
    {
        let expected = label_at(g);
        let index = 9 * g + 4;
        if s[index] != expected {
            return Err(ValidationError::Center { index, expected, found: s[index] });
        }
        g = g + 1;
    }
    Ok(())
}

/// Runs the lightweight check on a puzzle-state string.
pub fn check_lightweight(facelets: &str) -> (r: Result<(), ValidationError>)
    ensures
        r == lightweight(facelets@),
{
    let s = chars_of(facelets);
    if s.len() != FACELET_COUNT {
        return Err(ValidationError::Length { len: s.len() });
    }
    let blanks = count_char(&s, ' ');
    if blanks > 0 {
        return Err(ValidationError::Incomplete { blanks });
    }
    if let Err(e) = validate_characters(&s) {
        return Err(e);
    }
    if let Err(e) = validate_color_counts(&s) {
        return Err(e);
    }
    match validate_cube_structure(&s) {
        Ok(()) => Ok(()),
        Err(e) => Err(e),
    }
}

// ---------------------------------------------------------------------------
// The solver and its answer

/// What the two-phase solver answers for a facelet string and a depth bound.
pub uninterp spec fn solver_reply(facelets: Seq<char>, max_depth: u8) -> Seq<char>;

/// Relies on `min2phase::solve`: a deterministic search whose answer depends on
/// the facelet string and the depth bound alone.
#[verifier::external_body]
fn run_solver(facelets: &String, max_depth: u8) -> (r: String)
    requires
        lightweight(facelets@) is Ok,
    ensures
        r@ == solver_reply(facelets@, max_depth),
{
    min2phase::solve(facelets, max_depth)
}

/// A string begins with `p` exactly when its first characters are those of `p`.
proof fn lemma_prefix_chars(s: Seq<char>, p: Seq<char>)
    requires
        s.len() >= p.len(),
    ensures
        s.subrange(0, p.len() as int) == p <==> forall|k: int| 0 <= k < p.len() ==> s[k] == p[k],
{
    if forall|k: int| 0 <= k < p.len() ==> s[k] == p[k] {
        assert(s.subrange(0, p.len() as int) =~= p);
    }
    if s.subrange(0, p.len() as int) == p {
        assert forall|k: int| 0 <= k < p.len() implies s[k] == p[k] by {
            assert(s.subrange(0, p.len() as int)[k] == s[k]);
        }
    }
}

pub open spec fn error_prefix() -> Seq<char> {
    seq!['E', 'r', 'r', 'o', 'r']
}

/// Whether a solver answer reports an error: it begins with `Error`.
pub open spec fn is_error_reply(r: Seq<char>) -> bool {
    r.len() >= 5 && r.subrange(0, 5) == error_prefix()
}

/// The error named by an answer that begins with `Error N`, N a single
/// digit in `1..=8` not followed by another digit.
pub open spec fn error_of_reply(r: Seq<char>) -> Option<Min2PhaseError> {
    if r.len() >= 7 && r.subrange(0, 6) == error_prefix().push(' ') && (r.len() == 7
        || !is_digit(r[7])) {
        code_error(r[6])
    } else {
        None
    }
}

pub open spec fn is_digit(c: char) -> bool {
    '0' <= c <= '9'
}

pub open spec fn code_error(d: char) -> Option<Min2PhaseError> {
    if d == '1' {
        Some(Min2PhaseError::IncorrectColorCount)
    } else if d == '2' {
        Some(Min2PhaseError::MissingEdges)
    } else if d == '3' {
        Some(Min2PhaseError::EdgeFlipError)
    } else if d == '4' {
        Some(Min2PhaseError::MissingCorners)
    } else if d == '5' {
        Some(Min2PhaseError::CornerTwistError)
    } else if d == '6' {
        Some(Min2PhaseError::ParityError)
    } else if d == '7' {
        Some(Min2PhaseError::NoSolutionExists)
    } else if d == '8' {
        Some(Min2PhaseError::ProbeLimitExceeded)
    } else {
        None
    }
}

pub open spec fn verify_code_error(code: int) -> Option<Min2PhaseError> {
    if code == -1 {
        Some(Min2PhaseError::InvalidFaceletLength)
    } else if code == -2 {
        Some(Min2PhaseError::MissingEdges)
    } else if code == -3 {
        Some(Min2PhaseError::EdgeFlipError)
    } else if code == -4 {
        Some(Min2PhaseError::MissingCorners)
    } else if code == -5 {
        Some(Min2PhaseError::CornerTwistError)
    } else if code == -6 {
        Some(Min2PhaseError::ParityError)
    } else {
        None
    }
}

pub open spec fn is_space(c: char) -> bool {
    c == ' ' || c == '\t' || c == '\n' || c == '\r' || c == '\x0B' || c == '\x0C'
}

/// Tokens completed, and the token being read, after the first `n`
/// characters of `s`.
pub open spec fn split_prefix(s: Seq<char>, n: int) -> (Seq<Seq<char>>, Seq<char>)
    decreases n,
{
    if n <= 0 {
        (Seq::empty(), Seq::empty())
    } else {
        let (done, cur) = split_prefix(s, n - 1);
        if is_space(s[n - 1]) {
            if cur.len() > 0 {
                (done.push(cur), Seq::empty())
            } else {
                (done, cur)
            }
        } else {
            (done, cur.push(s[n - 1]))
        }
    }
}

/// The whitespace-separated tokens of `s`.
pub open spec fn tokens(s: Seq<char>) -> Seq<Seq<char>> {
    let (done, cur) = split_prefix(s, s.len() as int);
    if cur.len() > 0 {
        done.push(cur)
    } else {
        done
    }
}

impl Min2PhaseError {
    /// The error of a solver answer that begins with `Error N`, N a single
    /// digit in `1..=8` (not followed by another digit); whatever follows is
    /// ignored.
    pub fn from_error_code(error_code: &str) -> (r: Option<Min2PhaseError>)
        ensures
            r == error_of_reply(error_code@),
    {
        let s = chars_of(error_code);
        if s.len() < 7 {
            return None;
        }
        if s.len() > 7 && '0' <= s[7] && s[7] <= '9' {
            return None;
        }
        proof {
            lemma_prefix_chars(s@, error_prefix().push(' '));
        }
        if !(s[0] == 'E' && s[1] == 'r' && s[2] == 'r' && s[3] == 'o' && s[4] == 'r' && s[5]
            == ' ') {
            return None;
        }
        match s[6] {
            '1' => Some(Min2PhaseError::IncorrectColorCount),
            '2' => Some(Min2PhaseError::MissingEdges),
            '3' => Some(Min2PhaseError::EdgeFlipError),
            '4' => Some(Min2PhaseError::MissingCorners),
            '5' => Some(Min2PhaseError::CornerTwistError),
            '6' => Some(Min2PhaseError::ParityError),
            '7' => Some(Min2PhaseError::NoSolutionExists),
            '8' => Some(Min2PhaseError::ProbeLimitExceeded),
            _ => None,
        }
    }

    /// The error of one of the solver's verification codes `-1..=-6`.
    pub fn from_verify_code(verify_code: i32) -> (r: Option<Min2PhaseError>)
        ensures
            r == verify_code_error(verify_code as int),
    {
        match verify_code {
            -1 => Some(Min2PhaseError::InvalidFaceletLength),
            -2 => Some(Min2PhaseError::MissingEdges),
            -3 => Some(Min2PhaseError::EdgeFlipError),
            -4 => Some(Min2PhaseError::MissingCorners),
            -5 => Some(Min2PhaseError::CornerTwistError),
            -6 => Some(Min2PhaseError::ParityError),
            _ => None,
        }
    }

    pub open spec fn description_text(self) -> Seq<char> {
        match self {
            Min2PhaseError::InvalidFaceletLength => "Invalid facelet string: incorrect length or format"@,
            Min2PhaseError::InvalidFaceletCharacter => "Invalid facelet string: contains invalid characters"@,
            Min2PhaseError::IncorrectColorCount => "Invalid cube: there is not exactly one facelet of each color"@,
            Min2PhaseError::MissingEdges => "Invalid cube: not all 12 edges exist exactly once"@,
            Min2PhaseError::EdgeFlipError => "Invalid cube: one edge has to be flipped"@,
            Min2PhaseError::MissingCorners => "Invalid cube: not all 8 corners exist exactly once"@,
            Min2PhaseError::CornerTwistError => "Invalid cube: one corner has to be twisted"@,
            Min2PhaseError::ParityError => "Invalid cube: two corners or two edges have to be exchanged"@,
            Min2PhaseError::NoSolutionExists => "Cube is valid but no solution exists within the given move limit"@,
            Min2PhaseError::ProbeLimitExceeded => "Cube is valid but no solution found within the probe limit"@,
        }
    }

    /// A one-line description of the error.
    pub fn description(&self) -> (r: &'static str)
        ensures
            r@ == self.description_text(),
    {
        match self {
            Min2PhaseError::InvalidFaceletLength => "Invalid facelet string: incorrect length or format",
            Min2PhaseError::InvalidFaceletCharacter => "Invalid facelet string: contains invalid characters",
            Min2PhaseError::IncorrectColorCount => "Invalid cube: there is not exactly one facelet of each color",
            Min2PhaseError::MissingEdges => "Invalid cube: not all 12 edges exist exactly once",
            Min2PhaseError::EdgeFlipError => "Invalid cube: one edge has to be flipped",
            Min2PhaseError::MissingCorners => "Invalid cube: not all 8 corners exist exactly once",
            Min2PhaseError::CornerTwistError => "Invalid cube: one corner has to be twisted",
            Min2PhaseError::ParityError => "Invalid cube: two corners or two edges have to be exchanged",
            Min2PhaseError::NoSolutionExists => "Cube is valid but no solution exists within the given move limit",
            Min2PhaseError::ProbeLimitExceeded => "Cube is valid but no solution found within the probe limit",
        }
    }

    pub open spec fn explanation_text(self) -> Seq<char> {
        match self {
            Min2PhaseError::InvalidFaceletLength => "The cube facelet string has an incorrect length or format. A valid cube must have exactly 54 facelets in the format: U1U2...U9R1R2...R9F1..F9D1..D9L1..L9B1..B9"@,
            Min2PhaseError::InvalidFaceletCharacter => "The cube facelet string contains invalid characters. Only the characters U, R, F, D, L, B are allowed."@,
            Min2PhaseError::IncorrectColorCount => "The cube has an incorrect number of facelets for each color. Each color (U, R, F, D, L, B) must appear exactly 9 times."@,
            Min2PhaseError::MissingEdges => "The cube is missing some edges or has duplicate edges. A valid cube must have exactly 12 edges, each appearing once."@,
            Min2PhaseError::EdgeFlipError => "The cube has an edge that is flipped incorrectly. This means one edge piece is oriented the wrong way."@,
            Min2PhaseError::MissingCorners => "The cube is missing some corners or has duplicate corners. A valid cube must have exactly 8 corners, each appearing once."@,
            Min2PhaseError::CornerTwistError => "The cube has a corner that is twisted incorrectly. This means one corner piece is rotated the wrong way."@,
            Min2PhaseError::ParityError => "The cube has a parity error. This means two pieces need to be swapped. This is impossible to solve with standard moves."@,
            Min2PhaseError::NoSolutionExists => "The cube is valid but cannot be solved within the current move limit. Try increasing the maximum number of moves allowed."@,
            Min2PhaseError::ProbeLimitExceeded => "The cube is valid but the solver couldn't find a solution within the time limit. This usually means the cube requires many moves to solve."@,
        }
    }

    /// A longer explanation of the error.
    pub fn detailed_explanation(&self) -> (r: &'static str)
        ensures
            r@ == self.explanation_text(),
    {
        match self {
            Min2PhaseError::InvalidFaceletLength => "The cube facelet string has an incorrect length or format. A valid cube must have exactly 54 facelets in the format: U1U2...U9R1R2...R9F1..F9D1..D9L1..L9B1..B9",
            Min2PhaseError::InvalidFaceletCharacter => "The cube facelet string contains invalid characters. Only the characters U, R, F, D, L, B are allowed.",
            Min2PhaseError::IncorrectColorCount => "The cube has an incorrect number of facelets for each color. Each color (U, R, F, D, L, B) must appear exactly 9 times.",
            Min2PhaseError::MissingEdges => "The cube is missing some edges or has duplicate edges. A valid cube must have exactly 12 edges, each appearing once.",
            Min2PhaseError::EdgeFlipError => "The cube has an edge that is flipped incorrectly. This means one edge piece is oriented the wrong way.",
            Min2PhaseError::MissingCorners => "The cube is missing some corners or has duplicate corners. A valid cube must have exactly 8 corners, each appearing once.",
            Min2PhaseError::CornerTwistError => "The cube has a corner that is twisted incorrectly. This means one corner piece is rotated the wrong way.",
            Min2PhaseError::ParityError => "The cube has a parity error. This means two pieces need to be swapped. This is impossible to solve with standard moves.",
            Min2PhaseError::NoSolutionExists => "The cube is valid but cannot be solved within the current move limit. Try increasing the maximum number of moves allowed.",
            Min2PhaseError::ProbeLimitExceeded => "The cube is valid but the solver couldn't find a solution within the time limit. This usually means the cube requires many moves to solve.",
        }
    }

    pub open spec fn suggestion_text(self) -> Seq<char> {
        match self {
            Min2PhaseError::InvalidFaceletLength | Min2PhaseError::InvalidFaceletCharacter => "Check that all 54 cube faces are properly colored and mapped."@,
            Min2PhaseError::IncorrectColorCount => "Make sure each color appears exactly 9 times on the cube."@,
            Min2PhaseError::MissingEdges | Min2PhaseError::MissingCorners => "Check that all cube pieces are in their correct positions."@,
            Min2PhaseError::EdgeFlipError | Min2PhaseError::CornerTwistError => "Check that all pieces are oriented correctly. You may need to physically twist or flip pieces."@,
            Min2PhaseError::ParityError => "This cube cannot be solved with standard moves. You may need to disassemble and reassemble it."@,
            Min2PhaseError::NoSolutionExists | Min2PhaseError::ProbeLimitExceeded => "Try increasing the solver's move limit or probe limit. This cube may require many moves to solve."@,
        }
    }

    /// What the user can do about the error.
    pub fn suggestions(&self) -> (r: &'static str)
        ensures
            r@ == self.suggestion_text(),
            r@.len() > 0,
    {
        match self {
            Min2PhaseError::InvalidFaceletLength | Min2PhaseError::InvalidFaceletCharacter => {
                proof {
                    reveal_strlit("Check that all 54 cube faces are properly colored and mapped.");
                }
                "Check that all 54 cube faces are properly colored and mapped."
            },
            Min2PhaseError::IncorrectColorCount => {
                proof {
                    reveal_strlit("Make sure each color appears exactly 9 times on the cube.");
                }
                "Make sure each color appears exactly 9 times on the cube."
            },
            Min2PhaseError::MissingEdges | Min2PhaseError::MissingCorners => {
                proof {
                    reveal_strlit("Check that all cube pieces are in their correct positions.");
                }
                "Check that all cube pieces are in their correct positions."
            },
            Min2PhaseError::EdgeFlipError | Min2PhaseError::CornerTwistError => {
                proof {
                    reveal_strlit("Check that all pieces are oriented correctly. You may need to physically twist or flip pieces.");
                }
                "Check that all pieces are oriented correctly. You may need to physically twist or flip pieces."
            },
            Min2PhaseError::ParityError => {
                proof {
                    reveal_strlit("This cube cannot be solved with standard moves. You may need to disassemble and reassemble it.");
                }
                "This cube cannot be solved with standard moves. You may need to disassemble and reassemble it."
            },
            Min2PhaseError::NoSolutionExists | Min2PhaseError::ProbeLimitExceeded => {
                proof {
                    reveal_strlit("Try increasing the solver's move limit or probe limit. This cube may require many moves to solve.");
                }
                "Try increasing the solver's move limit or probe limit. This cube may require many moves to solve."
            },
        }
    }
}

/// The whitespace-separated tokens of a string.
pub fn split_tokens(s: &str) -> (r: Vec<String>)
    ensures
        r@.len() == tokens(s@).len(),
        forall|i: int| 0 <= i < r@.len() ==> #[trigger] r@[i]@ == tokens(s@)[i],
{
    let chars = chars_of(s);
    let mut done: Vec<String> = Vec::new();
    let mut cur: Vec<char> = Vec::new();
    let mut i: usize = 0;
    while i < chars.len()
        invariant
            i <= chars@.len(),
            chars@ == s@,
            done@.len() == split_prefix(s@, i as int).0.len(),
            forall|j: int| 0 <= j < done@.len() ==> #[trigger] done@[j]@ == split_prefix(s@, i as int).0[j],
            cur@ == split_prefix(s@, i as int).1,
        decreases chars@.len() - i,
    {
        let c = chars[i];
        if c == ' ' || c == '\t' || c == '\n' || c == '\r' || c == '\x0B' || c == '\x0C' {
            if cur.len() > 0 {
                done.push(string_of(&cur));
                cur = Vec::new();
            }
        } else {
            cur.push(c);
        }
        i = i + 1;
    }
    if cur.len() > 0 {
        done.push(string_of(&cur));
    }
    done
}

/// Whether `v` and `solution` are what a full validation records for the
/// solver answer `r`: an answer that begins with `Error` is a failure, named
/// when its code is known and else kept whole, with no solution; any other
/// answer is the solution of a valid state.
pub open spec fn records_reply(v: CubeValidation, solution: Option<String>, r: Seq<char>) -> bool {
    if is_error_reply(r) {
        &&& solution is None
        &&& v matches CubeValidation::SolvingFailed(f)
        &&& f.error == error_of_reply(r)
        &&& f.reply@ == r
    } else {
        &&& v is Valid
        &&& solution matches Some(s) && s@ == r
    }
}

/// Reads a solver answer (see `records_reply`).
pub fn interpret_solver_reply(reply: String) -> (r: (CubeValidation, Option<String>))
    ensures
        records_reply(r.0, r.1, reply@),
{
    let chars = chars_of(reply.as_str());
    let is_error = chars.len() >= 5 && chars[0] == 'E' && chars[1] == 'r' && chars[2] == 'r'
        && chars[3] == 'o' && chars[4] == 'r';
    if chars.len() >= 5 {
        proof {
            lemma_prefix_chars(chars@, error_prefix());
        }
    }
    if is_error {
        let error = Min2PhaseError::from_error_code(reply.as_str());
        (CubeValidation::SolvingFailed(SolveFailure { error, reply }), None)
    } else {
        (CubeValidation::Valid, Some(reply))
    }
}

/// What the lightweight check records for `s`.
pub open spec fn records_lightweight(v: CubeValidation, solution: Option<String>, s: Seq<char>) -> bool {
    &&& solution is None
    &&& match lightweight(s) {
        Err(e) => v == CubeValidation::Invalid(e),
        Ok(()) => v is Valid,
    }
}

/// What a full validation records for `s`: the lightweight check's failure,
/// or else what the solver answers for `s` with the depth bound.
pub open spec fn records_full(v: CubeValidation, solution: Option<String>, s: Seq<char>) -> bool {
    match lightweight(s) {
        Err(e) => v == CubeValidation::Invalid(e) && solution is None,
        Ok(()) => records_reply(v, solution, solver_reply(s, MAX_DEPTH)),
    }
}

impl CubeValidation {
    pub fn is_valid(&self) -> (r: bool)
        ensures
            r == (*self is Valid),
    {
        match self {
            CubeValidation::Valid => true,
            _ => false,
        }
    }
}

/// A puzzle-state string with its validation and, once solved, the solver's
/// answer.
#[derive(Clone, Debug)]
pub struct CubeState {
    facelets: String,
    validation: CubeValidation,
    solution: Option<String>,
}

impl CubeState {
    pub closed spec fn facelets_spec(&self) -> Seq<char> {
        self.facelets@
    }

    pub closed spec fn validation_spec(&self) -> CubeValidation {
        self.validation
    }

    pub closed spec fn solution_spec(&self) -> Option<String> {
        self.solution
    }

    /// An empty, not yet validated state.
    pub fn new() -> (r: CubeState)
        ensures
            r.facelets_spec() == Seq::<char>::empty(),
            r.validation_spec() is NotValidated,
            r.solution_spec() is None,
    {
        CubeState { facelets: String::new(), validation: CubeValidation::NotValidated, solution: None }
    }

    /// A state of the given string, fully validated (the solver runs when the
    /// lightweight check passes).
    pub fn from_facelets(facelets: String) -> (r: CubeState)
        ensures
            r.facelets_spec() == facelets@,
            records_full(r.validation_spec(), r.solution_spec(), facelets@),
    {
        let mut state = CubeState::new();
        state.facelets = facelets;
        state.validate();
        state
    }

    pub fn facelets(&self) -> (r: &str)
        ensures
            r@ == self.facelets_spec(),
    {
        self.facelets.as_str()
    }

    pub fn validation(&self) -> (r: &CubeValidation)
        ensures
            *r == self.validation_spec(),
    {
        &self.validation
    }

    pub fn solution(&self) -> (r: Option<&str>)
        ensures
            match self.solution_spec() {
                Some(s) => r matches Some(t) && t@ == s@,
                None => r is None,
            },
    {
        match &self.solution {
            Some(s) => Some(s.as_str()),
            None => None,
        }
    }

    /// The moves of the solution, or none without one.
    pub fn solution_moves(&self) -> (r: Vec<String>)
        ensures
            match self.solution_spec() {
                Some(s) => r@.len() == tokens(s@).len() && forall|i: int|
                    0 <= i < r@.len() ==> #[trigger] r@[i]@ == tokens(s@)[i],
                None => r@.len() == 0,
            },
    {
        match &self.solution {
            Some(s) => split_tokens(s.as_str()),
            None => Vec::new(),
        }
    }

    fn perform_lightweight_validation_only(&mut self)
        ensures
            final(self).facelets_spec() == old(self).facelets_spec(),
            match lightweight(old(self).facelets_spec()) {
                Err(e) => final(self).validation_spec() == CubeValidation::Invalid(e)
                    && final(self).solution_spec() == old(self).solution_spec(),
                Ok(()) => final(self).validation_spec() is Valid && final(self).solution_spec() is None,
            },
    {
        match check_lightweight(self.facelets.as_str()) {
            Err(e) => {
                self.validation = CubeValidation::Invalid(e);
            },
            Ok(()) => {
                self.validation = CubeValidation::Valid;
                self.solution = None;
            },
        }
    }

    /// Full validation: the lightweight check, then the solver.
    fn validate(&mut self)
        ensures
            final(self).facelets_spec() == old(self).facelets_spec(),
            records_full(final(self).validation_spec(), final(self).solution_spec(), old(self).facelets_spec()),
    {
        self.validation = CubeValidation::NotValidated;
        self.solution = None;
        self.perform_lightweight_validation_only();
        if self.validation.is_valid() {
            self.attempt_solve();
        }
    }

    fn validate_lightweight_only(&mut self)
        ensures
            final(self).facelets_spec() == old(self).facelets_spec(),
            records_lightweight(final(self).validation_spec(), final(self).solution_spec(), old(self).facelets_spec()),
    {
        self.validation = CubeValidation::NotValidated;
        self.solution = None;
        self.perform_lightweight_validation_only();
    }

    fn attempt_solve(&mut self)
        requires
            lightweight(old(self).facelets_spec()) is Ok,
        ensures
            final(self).facelets_spec() == old(self).facelets_spec(),
            records_reply(final(self).validation_spec(), final(self).solution_spec(), solver_reply(old(self).facelets_spec(), MAX_DEPTH)),
    {
        let reply = run_solver(&self.facelets, MAX_DEPTH);
        let (validation, solution) = interpret_solver_reply(reply);
        self.validation = validation;
        self.solution = solution;
    }
}

/// The solver's view of the cube: the current state, if any, and whether a
/// solution is being played.
#[derive(Clone, Debug)]
pub struct CubeSolverResource {
    current_state: Option<CubeState>,
    is_solving: bool,
}

impl CubeSolverResource {
    pub closed spec fn state_spec(&self) -> Option<CubeState> {
        self.current_state
    }

    pub closed spec fn solving_spec(&self) -> bool {
        self.is_solving
    }

    pub open spec fn is_valid_spec(&self) -> bool {
        self.state_spec() matches Some(st) && st.validation_spec() is Valid
    }

    /// No state, not solving.
    pub fn new() -> (r: CubeSolverResource)
        ensures
            r.state_spec() is None,
            !r.solving_spec(),
    {
        CubeSolverResource { current_state: None, is_solving: false }
    }

    /// Takes a freshly derived puzzle-state string: a string of 54 characters
    /// becomes the current state, checked by the lightweight check only (the
    /// solver runs on an explicit solve request); any other clears it.
    pub fn update_from_entities(&mut self, facelets: String)
        ensures
            facelets@.len() == 54 ==> (final(self).state_spec() matches Some(st)
                && st.facelets_spec() == facelets@
                && records_lightweight(st.validation_spec(), st.solution_spec(), facelets@)),
            facelets@.len() != 54 ==> final(self).state_spec() is None,
            !final(self).solving_spec(),
    {
        let n = chars_of(facelets.as_str()).len();
        if n == FACELET_COUNT {
            let mut state = CubeState::new();
            state.facelets = facelets;
            state.validate_lightweight_only();
            self.current_state = Some(state);
        } else {
            self.current_state = None;
        }
        self.set_solving(false);
    }

    /// Re-runs the lightweight check on the current state, if any.
    pub fn perform_lightweight_validation(&mut self)
        ensures
            final(self).solving_spec() == old(self).solving_spec(),
            match old(self).state_spec() {
                None => final(self).state_spec() is None,
                Some(st) => final(self).state_spec() matches Some(nt) && nt.facelets_spec()
                    == st.facelets_spec() && records_lightweight(
                    nt.validation_spec(),
                    nt.solution_spec(),
                    st.facelets_spec(),
                ),
            },
    {
        if let Some(state) = &mut self.current_state {
            state.validate_lightweight_only();
        }
    }

    /// Fully validates the current state; `true` when a solution was found,
    /// and then the resource is solving.
    pub fn perform_full_solve(&mut self) -> (r: bool)
        ensures
            match old(self).state_spec() {
                None => !r && final(self).state_spec() is None && final(self).solving_spec()
                    == old(self).solving_spec(),
                Some(st) => final(self).state_spec() matches Some(nt) && nt.facelets_spec()
                    == st.facelets_spec() && records_full(
                    nt.validation_spec(),
                    nt.solution_spec(),
                    st.facelets_spec(),
                ) && r == (nt.validation_spec() is Valid && nt.solution_spec() is Some)
                    && final(self).solving_spec() == (r || old(self).solving_spec()),
            },
    {
        let mut found = false;
        if let Some(state) = &mut self.current_state {
            state.validate();
            found = state.validation.is_valid() && state.solution.is_some();
        }
        if found {
            self.set_solving(true);
        }
        found
    }

    /// Whether the state is valid and has a solution.
    pub fn is_solvable(&self) -> (r: bool)
        ensures
            r == (self.state_spec() matches Some(st) && st.validation_spec() is Valid
                && st.solution_spec() is Some),
    {
        match &self.current_state {
            Some(state) => state.validation.is_valid() && state.solution.is_some(),
            None => false,
        }
    }

    /// Whether the state passed validation.
    pub fn is_valid(&self) -> (r: bool)
        ensures
            r == self.is_valid_spec(),
    {
        match &self.current_state {
            Some(state) => state.validation.is_valid(),
            None => false,
        }
    }

    pub fn is_solving(&self) -> (r: bool)
        ensures
            r == self.solving_spec(),
    {
        self.is_solving
    }

    pub fn set_solving(&mut self, solving: bool)
        ensures
            final(self).solving_spec() == solving,
            final(self).state_spec() == old(self).state_spec(),
    {
        self.is_solving = solving;
    }

    /// Forgets the state and stops solving.
    pub fn clear_solution(&mut self)
        ensures
            final(self).state_spec() is None,
            !final(self).solving_spec(),
    {
        self.current_state = None;
        self.is_solving = false;
    }

    /// The moves of the current solution, or none.
    pub fn solve_moves(&self) -> (r: Vec<String>)
        ensures
            match self.state_spec() {
                Some(st) => match st.solution_spec() {
                    Some(s) => r@.len() == tokens(s@).len() && forall|i: int|
                        0 <= i < r@.len() ==> #[trigger] r@[i]@ == tokens(s@)[i],
                    None => r@.len() == 0,
                },
                None => r@.len() == 0,
            },
    {
        match &self.current_state {
            Some(state) => state.solution_moves(),
            None => Vec::new(),
        }
    }

    pub fn facelets(&self) -> (r: Option<&str>)
        ensures
            match self.state_spec() {
                Some(st) => r matches Some(t) && t@ == st.facelets_spec(),
                None => r is None,
            },
    {
        match &self.current_state {
            Some(state) => Some(state.facelets()),
            None => None,
        }
    }
}

// ---------------------------------------------------------------------------
// Messages

pub open spec fn digit_char(d: int) -> char {
    if d == 0 {
        '0'
    } else if d == 1 {
        '1'
    } else if d == 2 {
        '2'
    } else if d == 3 {
        '3'
    } else if d == 4 {
        '4'
    } else if d == 5 {
        '5'
    } else if d == 6 {
        '6'
    } else if d == 7 {
        '7'
    } else if d == 8 {
        '8'
    } else {
        '9'
    }
}

/// The decimal digits of `n`.
pub open spec fn decimal(n: nat) -> Seq<char>
    decreases n,
{
    if n < 10 {
        seq![digit_char(n as int)]
    } else {
        decimal(n / 10).push(digit_char((n % 10) as int))
    }
}

fn digit(d: usize) -> (r: char)
    requires
        d < 10,
    ensures
        r == digit_char(d as int),
{
    match d {
        0 => '0',
        1 => '1',
        2 => '2',
        3 => '3',
        4 => '4',
        5 => '5',
        6 => '6',
        7 => '7',
        8 => '8',
        _ => '9',
    }
}

/// `n` written in decimal.
pub fn decimal_string(n: usize) -> (r: String)
    ensures
        r@ == decimal(n as nat),
    decreases n,
{
    if n < 10 {
        let mut r = String::new();
        push_char(&mut r, digit(n));
        assert(r@ =~= seq![digit_char(n as int)]);
        r
    } else {
        let mut r = decimal_string(n / 10);
        push_char(&mut r, digit(n % 10));
        r
    }
}

impl ValidationError {
    pub open spec fn message_text(self) -> Seq<char> {
        match self {
            ValidationError::Length { len } => "Invalid facelet length: "@ + decimal(len as nat)
                + " (expected 54)"@,
            ValidationError::Incomplete { blanks } => "Incomplete cube: "@ + decimal(blanks as nat)
                + " faces are not colored"@,
            ValidationError::Character { index, found } => "Invalid character '"@ + seq![found]
                + "' at position "@ + decimal(index as nat),
            ValidationError::Count { label, count } => "Invalid color count: "@ + seq![label]
                + " appears "@ + decimal(count as nat) + " times (expected 9)"@,
            ValidationError::Center { index, expected, found } => "Center piece at position "@
                + decimal(index as nat) + " should be "@ + seq![expected] + ", but is "@ + seq![found],
        }
    }

    /// A message for the user.
    pub fn message(&self) -> (r: String)
        ensures
            r@ == self.message_text(),
    {
        match *self {
            ValidationError::Length { len } => {
                let mut r = String::from_str("Invalid facelet length: ");
                r.append(decimal_string(len).as_str());
                r.append(" (expected 54)");
                r
            },
            ValidationError::Incomplete { blanks } => {
                let mut r = String::from_str("Incomplete cube: ");
                r.append(decimal_string(blanks).as_str());
                r.append(" faces are not colored");
                r
            },
            ValidationError::Character { index, found } => {
                let mut r = String::from_str("Invalid character '");
                push_char(&mut r, found);
                r.append("' at position ");
                r.append(decimal_string(index).as_str());
                r
            },
            ValidationError::Count { label, count } => {
                let mut r = String::from_str("Invalid color count: ");
                push_char(&mut r, label);
                r.append(" appears ");
                r.append(decimal_string(count).as_str());
                r.append(" times (expected 9)");
                r
            },
            ValidationError::Center { index, expected, found } => {
                let mut r = String::from_str("Center piece at position ");
                r.append(decimal_string(index).as_str());
                r.append(" should be ");
                push_char(&mut r, expected);
                r.append(", but is ");
                push_char(&mut r, found);
                r
            },
        }
    }
}

impl SolveFailure {
    pub open spec fn message_text(self) -> Seq<char> {
        match self.error {
            Some(e) => e.description_text() + " (Error: "@ + self.reply@ + ")\n\nExplanation: "@
                + e.explanation_text() + "\n\nSuggestion: "@ + e.suggestion_text(),
            None => "Unknown min2phase error: "@ + self.reply@,
        }
    }

    /// A message for the user: what went wrong, why, and what to do.
    pub fn message(&self) -> (r: String)
        ensures
            r@ == self.message_text(),
    {
        match self.error {
            Some(e) => {
                let mut r = String::from_str(e.description());
                r.append(" (Error: ");
                r.append(self.reply.as_str());
                r.append(")\n\nExplanation: ");
                r.append(e.detailed_explanation());
                r.append("\n\nSuggestion: ");
                r.append(e.suggestions());
                r
            },
            None => {
                let mut r = String::from_str("Unknown min2phase error: ");
                r.append(self.reply.as_str());
                r
            },
        }
    }
}

impl CubeValidation {
    /// The message of a failed validation, if it failed.
    pub fn error_message(&self) -> (r: Option<String>)
        ensures
            match *self {
                CubeValidation::Invalid(e) => r matches Some(m) && m@ == e.message_text(),
                CubeValidation::SolvingFailed(f) => r matches Some(m) && m@ == f.message_text(),
                _ => r is None,
            },
    {
        match self {
            CubeValidation::Invalid(e) => Some(e.message()),
            CubeValidation::SolvingFailed(f) => Some(f.message()),
            _ => None,
        }
    }
}

/// The status line for a solver state.
pub open spec fn status_text(state: Option<CubeState>) -> Seq<char> {
    match state {
        None => "No cube state available"@,
        Some(st) => match st.validation_spec() {
            CubeValidation::NotValidated => "Cube not yet validated"@,
            CubeValidation::Valid => match st.solution_spec() {
                Some(s) => "Valid cube, solvable in "@ + decimal(tokens(s@).len()) + " moves"@,
                None => "Valid cube (press Solve to find solution)"@,
            },
            CubeValidation::Invalid(e) => "Invalid: "@ + e.message_text(),
            CubeValidation::SolvingFailed(f) => "Solving failed: "@ + f.message_text(),
        },
    }
}

impl CubeSolverResource {
    /// A status line: the validation result, or the solution's length.
    pub fn get_validation_message(&self) -> (r: String)
        ensures
            r@ == status_text(self.state_spec()),
    {
        match &self.current_state {
            None => String::from_str("No cube state available"),
            Some(state) => match &state.validation {
                CubeValidation::NotValidated => String::from_str("Cube not yet validated"),
                CubeValidation::Valid => match &state.solution {
                    Some(s) => {
                        let n = split_tokens(s.as_str()).len();
                        let mut r = String::from_str("Valid cube, solvable in ");
                        r.append(decimal_string(n).as_str());
                        r.append(" moves");
                        r
                    },
                    None => String::from_str("Valid cube (press Solve to find solution)"),
                },
                CubeValidation::Invalid(e) => {
                    let mut r = String::from_str("Invalid: ");
                    r.append(e.message().as_str());
                    r
                },
                CubeValidation::SolvingFailed(f) => {
                    let mut r = String::from_str("Solving failed: ");
                    r.append(f.message().as_str());
                    r
                },
            },
        }
    }
}

proof fn lemma_all_labels(s: Seq<char>, i: int)
    requires
        0 <= i <= s.len(),
        forall|j: int| 0 <= j < s.len() ==> is_label(#[trigger] s[j]),
    ensures
        first_non_label(s, i) == s.len(),
        count_in(s, ' ', i) == 0,
    decreases s.len() - i,
{
    if i < s.len() {
        lemma_all_labels(s, i + 1);
    }
    lemma_no_blank_prefix(s, i);
}

proof fn lemma_no_blank_prefix(s: Seq<char>, n: int)
    requires
        0 <= n <= s.len(),
        forall|j: int| 0 <= j < s.len() ==> is_label(#[trigger] s[j]),
    ensures
        count_in(s, ' ', n) == 0,
    decreases n,
{
    if n > 0 {
        lemma_no_blank_prefix(s, n - 1);
    }
}

/// A complete string of face labels in which `U` does not occur nine times is
/// refused by the lightweight check for the count of `U`, so a full
/// validation records that failure and never consults the solver.
pub proof fn lemma_bad_u_count_refused(s: Seq<char>)
    requires
        s.len() == 54,
        forall|j: int| 0 <= j < 54 ==> is_label(#[trigger] s[j]),
        count_in(s, 'U', 54) != 9,
    ensures
        lightweight(s) == Err::<(), ValidationError>(
            ValidationError::Count { label: 'U', count: count_in(s, 'U', 54) as usize },
        ),
        forall|v: CubeValidation, sol: Option<String>|
            records_full(v, sol, s) ==> v == CubeValidation::Invalid(
                ValidationError::Count { label: 'U', count: count_in(s, 'U', 54) as usize },
            ) && sol is None,
{
    lemma_all_labels(s, 0);
    lemma_no_blank_prefix(s, 54);
    assert(first_bad_count(s, 0) == 0);
}

} // verus!
