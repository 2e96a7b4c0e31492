//! Bookkeeping of the colour palette: the selected colour and how many
//! stickers carry each colour, at most nine each.

use vstd::prelude::*;
use crate::cube::{Cube, CubeModel, Sticker, next_revision, solved_coloring};
use crate::validation::{decimal, decimal_string};
use vstd::string::StringExecFns;

verus! {

/// Number of palette colours.
pub const COLOR_COUNT: usize = 6;

/// The selected colour and the usage count of each colour.
#[derive(Clone, Copy, Debug)]
pub struct ColorManager {
    pub selected_color: Option<usize>,
    pub usage_counts: [u32; 6],
    pub max_faces_per_color: u32,
}

/// The counts after one use of `color_index` is given back: unchanged at zero
/// or for an unknown colour.
pub open spec fn returned(counts: Seq<u32>, color_index: usize) -> Seq<u32> {
    if color_index < 6 && counts[color_index as int] > 0 {
        counts.update(color_index as int, (counts[color_index as int] - 1) as u32)
    } else {
        counts
    }
}

pub open spec fn invalid_index_text(color_index: usize) -> Seq<char> {
    "Invalid color index: "@ + decimal(color_index as nat)
}

pub open spec fn limit_text(color_index: usize, count: u32, max: u32) -> Seq<char> {
    "Cannot apply color "@ + decimal(color_index as nat) + " - limit reached ("@ + decimal(
        count as nat,
    ) + "/"@ + decimal(max as nat) + ")"@
}

impl ColorManager {
    pub open spec fn count_spec(&self, color_index: usize) -> u32 {
        if color_index < 6 {
            self.usage_counts@[color_index as int]
        } else {
            0
        }
    }

    /// White selected, no colour used, nine stickers per colour.
    pub fn new() -> (r: ColorManager)
        ensures
            r.selected_color == Some(0usize),
            forall|i: int| 0 <= i < 6 ==> r.usage_counts@[i] == 0,
            r.max_faces_per_color == 9,
    {
        ColorManager { selected_color: Some(0), usage_counts: [0; 6], max_faces_per_color: 9 }
    }

    /// Selects a colour, even one at its limit (to clear stickers with it).
    pub fn try_select_color(&mut self, color_index: usize) -> (r: Result<(), String>)
        ensures
            color_index < 6 ==> r is Ok && *final(self) == (ColorManager {
                selected_color: Some(color_index),
                ..*old(self)
            }),
            color_index >= 6 ==> (r matches Err(m) && m@ == invalid_index_text(color_index)
                && *final(self) == *old(self)),
    {
        if color_index >= COLOR_COUNT {
            let mut m = String::from_str("Invalid color index: ");
            m.append(decimal_string(color_index).as_str());
            return Err(m);
        }
        self.selected_color = Some(color_index);
        Ok(())
    }

    /// Counts a sticker newly coloured `color_index`, having carried
    /// `previous_color` before; `Ok(true)` when the colour reached its limit.
    /// Refused for an unknown colour or one already at its limit.
    pub fn apply_color_to_face(&mut self, color_index: usize, previous_color: Option<usize>) -> (r:
        Result<bool, String>)
        ensures
            color_index >= 6 ==> (r matches Err(m) && m@ == invalid_index_text(color_index)
                && *final(self) == *old(self)),
            color_index < 6 && old(self).count_spec(color_index) >= old(self).max_faces_per_color
                ==> (r matches Err(m) && m@ == limit_text(
                color_index,
                old(self).count_spec(color_index),
                old(self).max_faces_per_color,
            ) && *final(self) == *old(self)),
            color_index < 6 && old(self).count_spec(color_index) < old(self).max_faces_per_color
                ==> {
                let mid = match previous_color {
                    Some(p) => returned(old(self).usage_counts@, p),
                    None => old(self).usage_counts@,
                };
                &&& r == Ok::<bool, String>(mid[color_index as int] + 1 >= old(self).max_faces_per_color)
                &&& final(self).selected_color == old(self).selected_color
                &&& final(self).max_faces_per_color == old(self).max_faces_per_color
                &&& final(self).usage_counts@ == mid.update(
                    color_index as int,
                    (mid[color_index as int] + 1) as u32,
                )
            },
    {
        if color_index >= COLOR_COUNT {
            let mut m = String::from_str("Invalid color index: ");
            m.append(decimal_string(color_index).as_str());
            return Err(m);
        }
        if self.is_at_limit(color_index) {
            let mut m = String::from_str("Cannot apply color ");
            m.append(decimal_string(color_index).as_str());
            m.append(" - limit reached (");
            m.append(decimal_string(self.usage_counts[color_index] as usize).as_str());
            m.append("/");
            m.append(decimal_string(self.max_faces_per_color as usize).as_str());
            m.append(")");
            return Err(m);
        }
        if let Some(prev) = previous_color {
            self.decrement_color(prev);
        }
        Ok(self.increment_color(color_index))
    }

    fn increment_color(&mut self, color_index: usize) -> (r: bool)
        requires
            color_index < 6,
            old(self).usage_counts@[color_index as int] < old(self).max_faces_per_color,
        ensures
            final(self).selected_color == old(self).selected_color,
            final(self).max_faces_per_color == old(self).max_faces_per_color,
            final(self).usage_counts@ == old(self).usage_counts@.update(
                color_index as int,
                (old(self).usage_counts@[color_index as int] + 1) as u32,
            ),
            r == (old(self).usage_counts@[color_index as int] + 1 >= old(self).max_faces_per_color),
    {
        self.usage_counts.set(color_index, self.usage_counts[color_index] + 1);
        self.usage_counts[color_index] >= self.max_faces_per_color
    }

    /// Gives back one use of a colour (no effect below zero or for an unknown
    /// colour).
    pub fn decrement_color(&mut self, color_index: usize)
        ensures
            final(self).selected_color == old(self).selected_color,
            final(self).max_faces_per_color == old(self).max_faces_per_color,
            final(self).usage_counts@ == returned(old(self).usage_counts@, color_index),
    {
        if color_index < COLOR_COUNT && self.usage_counts[color_index] > 0 {
            self.usage_counts.set(color_index, self.usage_counts[color_index] - 1);
        }
    }

    /// How many stickers carry a colour (zero for an unknown colour).
    pub fn get_count(&self, color_index: usize) -> (r: u32)
        ensures
            r == self.count_spec(color_index),
    {
        if color_index < COLOR_COUNT {
            self.usage_counts[color_index]
        } else {
            0
        }
    }

    pub fn is_at_limit(&self, color_index: usize) -> (r: bool)
        ensures
            r == (self.count_spec(color_index) >= self.max_faces_per_color),
    {
        self.get_count(color_index) >= self.max_faces_per_color
    }

    pub fn can_use_color(&self, color_index: usize) -> (r: bool)
        ensures
            r == (self.count_spec(color_index) < self.max_faces_per_color),
    {
        !self.is_at_limit(color_index)
    }

    pub fn get_selected_color(&self) -> (r: Option<usize>)
        ensures
            r == self.selected_color,
    {
        self.selected_color
    }

    /// `count/limit` for a colour.
    pub fn get_usage_info(&self, color_index: usize) -> (r: String)
        ensures
            r@ == decimal(self.count_spec(color_index) as nat) + "/"@ + decimal(
                self.max_faces_per_color as nat,
            ),
    {
        let mut r = decimal_string(self.get_count(color_index) as usize);
        r.append("/");
        r.append(decimal_string(self.max_faces_per_color as usize).as_str());
        r
    }

    /// Forgets every use.
    pub fn clear_counts(&mut self)
        ensures
            final(self).selected_color == old(self).selected_color,
            final(self).max_faces_per_color == old(self).max_faces_per_color,
            forall|i: int| 0 <= i < 6 ==> final(self).usage_counts@[i] == 0,
    {
        self.usage_counts = [0; 6];
    }
}

/// What recolouring a sticker did.
#[derive(Clone, Debug)]
pub enum RecolorOutcome {
    /// No colour selected, or no such sticker: nothing changed.
    Unchanged,
    /// The sticker carried the selected colour and was cleared.
    Cleared,
    /// The sticker took the selected colour; whether the colour reached its
    /// limit.
    Colored(bool),
    /// The colour is at its limit: nothing changed.
    Refused(String),
}

/// The assembly with one sticker's colour changed.
pub open spec fn with_color(m: CubeModel, sticker: usize, color: Option<u8>) -> CubeModel {
    CubeModel {
        stickers: m.stickers.update(sticker as int, Sticker { color, ..m.stickers[sticker as int] }),
        revision: next_revision(m.revision),
        ..m
    }
}

impl ColorManager {
    /// Recolours a selected sticker with the selected colour: a sticker that
    /// already carries it is cleared, and otherwise the colour is applied when
    /// it is under its limit, the sticker's previous colour being given back.
    pub fn apply_color_to_selected_face(&mut self, cube: &mut Cube, sticker: usize) -> (r: RecolorOutcome)
        requires
            old(cube)@.wf(),
        ensures
            final(cube)@.wf(),
            final(self).selected_color == old(self).selected_color,
            final(self).max_faces_per_color == old(self).max_faces_per_color,
            ({
                let m = old(cube)@;
                let sel = match old(self).selected_color {
                    Some(c) => c,
                    None => 0,
                };
                if old(self).selected_color is Some && sel < 6 && sticker < m.stickers.len() {
                        let prev = m.stickers[sticker as int].color;
                        if prev == Some(sel as u8) {
                            &&& r is Cleared
                            &&& final(cube)@ == with_color(m, sticker, None)
                            &&& final(self).usage_counts@ == returned(old(self).usage_counts@, sel)
                        } else if old(self).count_spec(sel) >= old(self).max_faces_per_color {
                            &&& r matches RecolorOutcome::Refused(t)
                            &&& t@ == limit_text(sel, old(self).count_spec(sel), old(self).max_faces_per_color)
                            &&& final(cube)@ == m
                            &&& final(self).usage_counts@ == old(self).usage_counts@
                        } else {
                            let mid = match prev {
                                Some(p) => returned(old(self).usage_counts@, p as usize),
                                None => old(self).usage_counts@,
                            };
                            &&& r matches RecolorOutcome::Colored(limit)
                            &&& limit == (mid[sel as int] + 1 >= old(self).max_faces_per_color)
                            &&& final(cube)@ == with_color(m, sticker, Some(sel as u8))
                            &&& final(self).usage_counts@ == mid.update(sel as int, (mid[sel as int] + 1) as u32)
                        }
                } else {
                    r is Unchanged && final(cube)@ == m && final(self).usage_counts@
                        == old(self).usage_counts@
                }
            }),
    {
        let sel = match self.selected_color {
            Some(sel) => sel,
            None => {
                return RecolorOutcome::Unchanged;
            },
        };
        if sel >= COLOR_COUNT || sticker >= cube.sticker_count() {
            return RecolorOutcome::Unchanged;
        }
        let previous = cube.sticker(sticker).color;
        if previous == Some(sel as u8) {
            cube.assign_color(sticker, None);
            self.decrement_color(sel);
            return RecolorOutcome::Cleared;
        }
        let previous_index = match previous {
            Some(p) => Some(p as usize),
            None => None,
        };
        match self.apply_color_to_face(sel, previous_index) {
            Ok(limit) => {
                cube.assign_color(sticker, Some(sel as u8));
                RecolorOutcome::Colored(limit)
            },
            Err(e) => RecolorOutcome::Refused(e),
        }
    }
}

/// Stickers among the first `n` of `s` that carry colour `c`.
pub open spec fn color_uses(s: Seq<Sticker>, c: u8, n: int) -> nat
    decreases n,
{
    if n <= 0 {
        0
    } else {
        color_uses(s, c, n - 1) + if s[n - 1].color == Some(c) {
            1nat
        } else {
            0nat
        }
    }
}

/// Colours the assembly as solved (see `Cube::color_as_solved`) and counts
/// the colours used anew.
pub fn handle_fix_button(cube: &mut Cube, palette: &mut ColorManager)
    requires
        old(cube)@.wf(),
    ensures
        final(cube)@.wf(),
        final(cube)@ == (CubeModel {
            stickers: solved_coloring(old(cube)@),
            revision: next_revision(old(cube)@.revision),
            ..old(cube)@
        }),
        final(palette).selected_color == old(palette).selected_color,
        final(palette).max_faces_per_color == old(palette).max_faces_per_color,
        forall|c: int|
            0 <= c < 6 ==> final(palette).usage_counts@[c] == color_uses(
                final(cube)@.stickers,
                c as u8,
                final(cube)@.stickers.len() as int,
            ),
{
    palette.clear_counts();
    cube.color_as_solved();
    let n = cube.sticker_count();
    let mut k: usize = 0;
    while k < n
        invariant
            cube@.wf(),
            n == cube@.stickers.len(),
            k <= n,
            palette.selected_color == old(palette).selected_color,
            palette.max_faces_per_color == old(palette).max_faces_per_color,
            forall|c: int|
                0 <= c < 6 ==> palette.usage_counts@[c] == color_uses(cube@.stickers, c as u8, k as int)
                    && color_uses(cube@.stickers, c as u8, k as int) <= k,
        decreases n - k,
    {
        let ghost before = palette.usage_counts@;
        let s = cube.sticker(k);
        if let Some(c) = s.color {
            let i = c as usize;
            palette.usage_counts.set(i, palette.usage_counts[i] + 1);
        }
        proof {
            assert forall|c: int| 0 <= c < 6 implies palette.usage_counts@[c] == color_uses(
                cube@.stickers,
                c as u8,
                k + 1,
            ) && color_uses(cube@.stickers, c as u8, k + 1) <= k + 1 by {
                assert(color_uses(cube@.stickers, c as u8, k + 1) == color_uses(
                    cube@.stickers,
                    c as u8,
                    k as int,
                ) + if cube@.stickers[k as int].color == Some(c as u8) {
                    1nat
                } else {
                    0nat
                });
                if s.color == Some(c as u8) {
                    assert(palette.usage_counts@[c] == before[c] + 1);
                } else {
                    assert(palette.usage_counts@[c] == before[c]);
                }
            }
        }
        k = k + 1;
    }
}

} // verus!
