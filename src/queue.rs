//! The queue of moves waiting to be played, with a highlight that steps
//! forward (playing a move) and back (playing its inverse). Each operation
//! returns the notation of the move request to send, if any.

use vstd::prelude::*;
use crate::notation::{get_inverse_notation, inverse_of, parse_extended_move_notation, parse_layer_move};
use crate::cube::{Cube, Sticker, next_revision};
use crate::palette::ColorManager;
use crate::validation::{CubeSolverResource, records_full, tokens};

verus! {

/// Moves waiting, the move being played, and the highlight position
/// (`0..=pending.len()`, between moves).
#[derive(Clone, Debug)]
pub struct MoveQueue {
    pub pending: Vec<String>,
    pub current: Option<String>,
    pub highlight_index: Option<usize>,
}

pub open spec fn is_some_text(o: Option<String>, t: Seq<char>) -> bool {
    o matches Some(s) && s@ == t
}

impl MoveQueue {
    /// An empty queue.
    pub fn new() -> (r: MoveQueue)
        ensures
            r.pending@.len() == 0,
            r.current is None,
            r.highlight_index is None,
    {
        MoveQueue { pending: Vec::new(), current: None, highlight_index: None }
    }



    /// Empties the queue and forgets the highlight.
    pub fn clear(&mut self)
        ensures
            final(self).pending@.len() == 0,
            final(self).current is None,
            final(self).highlight_index is None,
    {
        self.pending.clear();
        self.current = None;
        self.highlight_index = None;
    }




}

/// Adds a move at the end when its notation is valid.
pub fn handle_move_selection(queue: &mut MoveQueue, notation: &str) -> (r: bool)
    ensures
        r == parse_layer_move(notation@) is Some,
        r ==> final(queue).pending@.len() == old(queue).pending@.len() + 1
            && final(queue).pending@.last()@ == notation@
            && final(queue).pending@.drop_last() == old(queue).pending@,
        !r ==> final(queue).pending@ == old(queue).pending@,
        final(queue).current == old(queue).current,
        final(queue).highlight_index == old(queue).highlight_index,
{
    if parse_extended_move_notation(notation).is_some() {
        queue.pending.push(String::from_str(notation));
        assert(queue.pending@.drop_last() =~= old(queue).pending@);
        true
    } else {
        false
    }
}

/// Removes the last move; a highlight past the end moves back to the end.
pub fn handle_backspace_button(queue: &mut MoveQueue) -> (r: Option<String>)
    ensures
        old(queue).pending@.len() == 0 ==> r is None && final(queue).pending@ == old(queue).pending@
            && final(queue).current == old(queue).current && final(queue).highlight_index
            == old(queue).highlight_index,
        old(queue).pending@.len() > 0 ==> {
            let n = (old(queue).pending@.len() - 1) as int;
            &&& r == Some(old(queue).pending@[n])
            &&& final(queue).pending@ == old(queue).pending@.subrange(0, n)
            &&& final(queue).current == old(queue).current
            &&& final(queue).highlight_index == match old(queue).highlight_index {
                Some(h) => if h > n {
                    Some(n as usize)
                } else {
                    Some(h)
                },
                None => None,
            }
        },
{
    let removed = queue.pending.pop();
    if removed.is_some() {
        if let Some(h) = queue.highlight_index {
            if h > queue.pending.len() {
                queue.highlight_index = Some(queue.pending.len());
            }
        }
    }
    removed
}

/// A completed turn ends the move being played.
pub fn handle_move_completion(queue: &mut MoveQueue)
    ensures
        final(queue).current is None,
        final(queue).pending@ == old(queue).pending@,
        final(queue).highlight_index == old(queue).highlight_index,
{
    queue.current = None;
}

/// Plays the queue in order: after a completed turn, and whenever no move
/// is being played, the first waiting move leaves the queue and is
/// requested.
pub fn drive_move_queue(queue: &mut MoveQueue, turn_completed: bool) -> (r: Option<String>)
    ensures
        final(queue).highlight_index == old(queue).highlight_index,
        ({
            let idle = turn_completed || old(queue).current is None;
            if idle && old(queue).pending@.len() > 0 {
                &&& r == Some(old(queue).pending@[0])
                &&& final(queue).current == Some(old(queue).pending@[0])
                &&& final(queue).pending@ == old(queue).pending@.remove(0)
            } else {
                &&& r is None
                &&& final(queue).pending@ == old(queue).pending@
                &&& final(queue).current == if idle {
                    None
                } else {
                    old(queue).current
                }
            }
        }),
{
    if turn_completed {
        queue.current = None;
    }
    if queue.current.is_none() && queue.pending.len() > 0 {
        let next = queue.pending.remove(0);
        queue.current = Some(next.clone());
        Some(next)
    } else {
        None
    }
}

/// Steps the highlight back over one move and requests that move's
/// inverse; without a highlight, puts it at the end. Nothing happens while
/// a move is being played, on an empty queue, or at the start.
pub fn handle_navigation_prev_button_clicks(queue: &mut MoveQueue) -> (r: Option<String>)
    ensures
        final(queue).pending@ == old(queue).pending@,
        ({
            let len = old(queue).pending@.len();
            if len == 0 || old(queue).current is Some {
                r is None && *final(queue) == *old(queue)
            } else {
                match old(queue).highlight_index {
                    None => r is None && final(queue).current is None
                        && final(queue).highlight_index == Some(len as usize),
                    Some(h) => if h == 0 {
                        r is None && *final(queue) == *old(queue)
                    } else if h - 1 < len {
                        let inv = inverse_of(old(queue).pending@[h - 1]@);
                        &&& is_some_text(r, inv)
                        &&& is_some_text(final(queue).current, inv)
                        &&& final(queue).highlight_index == Some((h - 1) as usize)
                    } else {
                        r is None && final(queue).current is None
                            && final(queue).highlight_index == Some((h - 1) as usize)
                    },
                }
            }
        }),
{
    if queue.pending.len() == 0 || queue.current.is_some() {
        return None;
    }
    match queue.highlight_index {
        Some(h) => {
            if h == 0 {
                return None;
            }
            let new_index = h - 1;
            queue.highlight_index = Some(new_index);
            if new_index < queue.pending.len() {
                let inverse = get_inverse_notation(queue.pending[new_index].as_str());
                queue.current = Some(inverse.clone());
                Some(inverse)
            } else {
                None
            }
        },
        None => {
            queue.highlight_index = Some(queue.pending.len());
            None
        },
    }
}

/// Requests the move at the highlight and steps the highlight past it;
/// without a highlight, starts at the first move. Nothing happens while a
/// move is being played, on an empty queue, or at the end.
pub fn handle_navigation_next_button_clicks(queue: &mut MoveQueue) -> (r: Option<String>)
    ensures
        final(queue).pending@ == old(queue).pending@,
        ({
            let len = old(queue).pending@.len();
            if len == 0 || old(queue).current is Some {
                r is None && *final(queue) == *old(queue)
            } else {
                let h = match old(queue).highlight_index {
                    Some(h) => h as int,
                    None => 0,
                };
                if h < len {
                    &&& r == Some(old(queue).pending@[h])
                    &&& final(queue).current == Some(old(queue).pending@[h])
                    &&& final(queue).highlight_index == Some((h + 1) as usize)
                } else {
                    r is None && *final(queue) == *old(queue)
                }
            }
        }),
{
    if queue.pending.len() == 0 || queue.current.is_some() {
        return None;
    }
    let h = match queue.highlight_index {
        Some(h) => h,
        None => 0,
    };
    if h < queue.pending.len() {
        let mv = queue.pending[h].clone();
        queue.current = Some(mv.clone());
        queue.highlight_index = Some(h + 1);
        Some(mv)
    } else {
        None
    }
}

/// A solve request: allowed when the state is valid and no solution is being
/// played with moves left. When allowed, a full validation runs; on success
/// the solution's moves replace the queue, the highlight goes to the start and
/// the resource is solving. Returns whether a solution was loaded.
pub fn handle_solve_button_clicks(solver: &mut CubeSolverResource, queue: &mut MoveQueue) -> (r: bool)
    ensures
        !(old(solver).is_valid_spec() && (!old(solver).solving_spec() || old(queue).pending@.len()
            == 0)) ==> !r && *final(queue) == *old(queue) && *final(solver) == *old(solver),
        r ==> ({
            &&& final(solver).solving_spec()
            &&& final(queue).current is None
            &&& final(queue).highlight_index == Some(0usize)
            &&& final(solver).state_spec() matches Some(st)
            &&& st.solution_spec() matches Some(s)
            &&& final(queue).pending@.len() == tokens(s@).len()
            &&& forall|i: int|
                0 <= i < final(queue).pending@.len() ==> #[trigger] final(queue).pending@[i]@
                    == tokens(s@)[i]
        }),
        !r ==> *final(queue) == *old(queue),
{
    let active = solver.is_valid() && (!solver.is_solving() || queue.pending.len() == 0);
    if !active {
        return false;
    }
    if !solver.perform_full_solve() {
        return false;
    }
    queue.pending = solver.solve_moves();
    queue.current = None;
    queue.highlight_index = Some(0);
    solver.set_solving(true);
    true
}

/// Clears every colour: the stickers, the palette's counts, the solver's
/// state and the move queue.
pub fn handle_clr_button(
    cube: &mut Cube,
    palette: &mut ColorManager,
    solver: &mut CubeSolverResource,
    queue: &mut MoveQueue,
)
    requires
        old(cube)@.wf(),
    ensures
        final(cube)@.wf(),
        final(cube)@.root == old(cube)@.root,
        final(cube)@.pieces == old(cube)@.pieces,
        final(cube)@.active == old(cube)@.active,
        final(cube)@.revision == next_revision(old(cube)@.revision),
        final(cube)@.stickers.len() == old(cube)@.stickers.len(),
        forall|i: int|
            0 <= i < final(cube)@.stickers.len() ==> #[trigger] final(cube)@.stickers[i] == (Sticker {
                color: None,
                ..old(cube)@.stickers[i]
            }),
        forall|i: int| 0 <= i < 6 ==> final(palette).usage_counts@[i] == 0,
        final(palette).selected_color == old(palette).selected_color,
        final(palette).max_faces_per_color == old(palette).max_faces_per_color,
        final(solver).state_spec() is None,
        !final(solver).solving_spec(),
        final(queue).pending@.len() == 0,
        final(queue).current is None,
        final(queue).highlight_index is None,
{
    palette.clear_counts();
    cube.clear_colors();
    solver.clear_solution();
    queue.clear();
}

} // verus!
