//! Rainbow colouring: a hue that advances with the distance travelled.
//!
//! The hue lives in the state and persists from one shape to the next.
//! Previews read it; only `advance_rainbow_hue` and `toggle_rainbow_mode`
//! move it.

use vstd::prelude::*;
use crate::color::{hue_after, hue_after_spec, lemma_from_hue_wraps, Color, FULL_TURN};
use crate::geometry::{
    lemma_path_length_bound, path_length, segment_length, MAX_SEGMENT_LENGTH,
};
use crate::state::InputState;

verus! {

impl InputState {
    /// The state after rainbow mode has been switched: turning it on starts
    /// the hue afresh at zero, turning it off leaves the hue where it was;
    /// either way a repaint is asked for.
    pub open spec fn after_toggle_rainbow(self) -> InputState {
        InputState {
            rainbow_mode_enabled: !self.rainbow_mode_enabled,
            rainbow_hue: if self.rainbow_mode_enabled {
                self.rainbow_hue
            } else {
                0
            },
            ..self
        }.invalidated()
    }

    proof fn lemma_toggle_rainbow_keeps_wf(self)
        requires
            self.wf(),
        ensures
            self.after_toggle_rainbow().wf(),
    {
        reveal(InputState::wf);
    }

    /// Switches rainbow mode on or off. Always returns `true`.
    pub fn toggle_rainbow_mode(&mut self) -> (changed: bool)
        requires
            old(self).wf(),
        ensures
            final(self).wf(),
            changed,
            *final(self) == old(self).after_toggle_rainbow(),
    {
        self.rainbow_mode_enabled = !self.rainbow_mode_enabled;
        if self.rainbow_mode_enabled {
            self.rainbow_hue = 0;
        }
        self.dirty_tracker.mark_full();
        self.needs_redraw = true;
        proof {
            assert(*self == old(self).after_toggle_rainbow());
            old(self).lemma_toggle_rainbow_keeps_wf();
        }
        true
    }

    /// Whether rainbow mode is on.
    pub fn is_rainbow_mode_enabled(&self) -> (enabled: bool)
        ensures
            enabled == self.rainbow_mode_enabled,
    {
        self.rainbow_mode_enabled
    }

    /// The hue at which the next rainbow stroke starts.
    pub fn get_rainbow_hue(&self) -> (hue: u32)
        ensures
            hue == self.rainbow_hue,
    {
        self.rainbow_hue
    }

    /// The rainbow colour of `hue`; hues past a full turn wrap around.
    pub fn rainbow_color_from_hue(&self, hue: u64) -> (color: Color)
        ensures
            color == Color::from_hue_spec(hue as nat),
    {
        Color::from_hue(hue)
    }

    /// The rainbow colour `distance` thousandths of a pixel along a path
    /// that starts at hue zero.
    pub open spec fn color_at_distance_spec(self, distance: nat) -> Color {
        Color::from_hue_spec(hue_after_spec(0, distance, self.rainbow_hue_step_per_pixel as nat))
    }

    /// The rainbow colour `distance` thousandths of a pixel along a path
    /// that starts at hue zero, whatever the current hue.
    pub fn rainbow_color_at_distance(&self, distance: u64) -> (color: Color)
        ensures
            color == self.color_at_distance_spec(distance as nat),
    {
        let hue: u32 = hue_after(0, distance as u128, self.rainbow_hue_step_per_pixel);
        Color::from_hue(hue as u64)
    }

    /// The hue `distance` thousandths of a pixel along a path that starts at
    /// the current hue, wrapped into one turn.
    pub open spec fn hue_at(self, distance: nat) -> nat {
        hue_after_spec(self.rainbow_hue as nat, distance, self.rainbow_hue_step_per_pixel as nat)
    }

    /// The state after the hue has advanced by `distance` thousandths of a
    /// pixel of path. Nothing but the hue changes.
    pub open spec fn after_advance(self, distance: nat) -> InputState {
        InputState { rainbow_hue: self.hue_at(distance) as u32, ..self }
    }

    proof fn lemma_advance_keeps_wf(self, distance: nat)
        requires
            self.wf(),
        ensures
            self.after_advance(distance).wf(),
    {
        reveal(InputState::wf);
    }

    /// Advances the hue for good by `distance` thousandths of a pixel of
    /// path, so that the next shape continues where this one ended.
    pub fn advance_rainbow_hue(&mut self, distance: u64)
        requires
            old(self).wf(),
        ensures
            final(self).wf(),
            *final(self) == old(self).after_advance(distance as nat),
            final(self).rainbow_hue == old(self).hue_at(distance as nat),
    {
        self.rainbow_hue = hue_after(
            self.rainbow_hue,
            distance as u128,
            self.rainbow_hue_step_per_pixel,
        );
        proof {
            assert(*self == old(self).after_advance(distance as nat));
            old(self).lemma_advance_keeps_wf(distance as nat);
        }
    }

    /// The rainbow colour of the point `index` of a path through `points`
    /// that starts at the current hue.
    pub open spec fn point_color_spec(self, points: Seq<(i32, i32)>, index: int) -> Color {
        Color::from_hue_spec(self.hue_at(path_length(points, index)))
    }

    /// One rainbow colour for each of `points`.
    pub open spec fn point_colors_spec(self, points: Seq<(i32, i32)>) -> Seq<Color> {
        Seq::new(points.len(), |index: int| self.point_color_spec(points, index))
    }

    /// One colour for each of `points`, by the length of the path up to it,
    /// starting at the current hue. The state is only read.
    pub fn generate_rainbow_colors_for_points(&self, points: &[(i32, i32)]) -> (colors: Vec<Color>)
        ensures
            colors@ == self.point_colors_spec(points@),
            colors.len() == points.len(),
            points.len() > 0 ==> colors[0] == Color::from_hue_spec(self.rainbow_hue as nat),
    {
        let mut colors: Vec<Color> = Vec::new();
        if points.len() == 0 {
            return colors;
        }
        let step: u32 = self.rainbow_hue_step_per_pixel;
        let mut travelled: u128 = 0;
        colors.push(self.rainbow_color_from_hue(self.rainbow_hue as u64));
        proof {
            lemma_from_hue_wraps(self.rainbow_hue as nat);
            assert(0 * (step as nat) == 0) by (nonlinear_arith);
            assert(self.hue_at(path_length(points@, 0)) == self.rainbow_hue % 360_000);
        }
        let mut index: usize = 1;
        while index < points.len()
            invariant
                1 <= index <= points.len(),
                colors.len() == index,
                step == self.rainbow_hue_step_per_pixel,
                travelled == path_length(points@, index - 1),
                forall|k: int|
                    0 <= k < index ==> #[trigger] colors[k] == self.point_color_spec(points@, k),
            decreases points.len() - index,
        {
            proof {
                lemma_path_length_bound(points@, index as int);
                assert(index * MAX_SEGMENT_LENGTH <= usize::MAX * MAX_SEGMENT_LENGTH)
                    by (nonlinear_arith)
                    requires
                        index <= usize::MAX,
                ;
            }
            let length: u64 = segment_length(points[index - 1], points[index]);
            travelled = travelled + length as u128;
            let hue: u32 = hue_after(self.rainbow_hue, travelled, step);
            colors.push(Color::from_hue(hue as u64));
            index = index + 1;
        }
        colors
    }
}

} // verus!
