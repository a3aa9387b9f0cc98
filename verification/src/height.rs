use vstd::prelude::*;

use crate::save::DEFAULT_DIMENSION;

verus! {

/// The layer of the universe that is in view, counted from the floor.
pub struct HeightData {
    pub current_z: u32,
}

/// The layer the view starts on in a universe `height` layers high: half its
/// height, rounded down.
pub open spec fn starting_layer(height: int) -> int {
    height / 2
}

impl Default for HeightData {
    /// The view starts halfway up a universe of the default height.
    fn default() -> (h: Self)
        ensures
            h.current_z == starting_layer(DEFAULT_DIMENSION as int),
    {
        HeightData { current_z: DEFAULT_DIMENSION / 2 }
    }
}

/// A button of the height window.
#[derive(Clone, Copy, Debug, PartialEq, Eq, Structural)]
pub enum HeightAction {
    /// `+5`: five layers up, stopping at the ceiling.
    Up5,
    /// `+1`: one layer up, unless already at the ceiling.
    Up1,
    /// `-1`: one layer down, unless already on the floor.
    Down1,
    /// `-5`: five layers down, stopping at the floor.
    Down5,
    /// `Floor`: the lowest layer.
    Floor,
    /// `Half`: the layer halfway up the universe, rounded down.
    Half,
    /// `Ceiling`: the highest layer of the universe.
    Ceiling,
}

/// Whether `action` can be taken from layer `z` in a universe `height` layers
/// high: the ceiling of a universe without layers does not exist, and a view
/// above the ceiling moves up without a bound, so it must not pass the
/// largest `u32`.
pub open spec fn action_allowed(z: int, action: HeightAction, height: int) -> bool {
    match action {
        HeightAction::Up5 => z <= height - 1 || z + 5 <= u32::MAX,
        HeightAction::Up1 => z <= height - 1 || z + 1 <= u32::MAX,
        HeightAction::Ceiling => height >= 1,
        _ => true,
    }
}

/// The layer after moving `step` layers up from `z` in a universe `height`
/// layers high: from a layer of the universe the view stops at the ceiling
/// (layer `height - 1`); a view above the ceiling (only possible in a
/// universe without layers, or when the layer was set by hand) moves up by
/// `step` as before.
pub open spec fn layer_up(z: int, step: int, height: int) -> int {
    if z + step <= height - 1 {
        z + step
    } else if z <= height - 1 {
        height - 1
    } else {
        z + step
    }
}

/// The layer in view after `action` is taken from layer `z` in a universe
/// `height` layers high.
pub open spec fn layer_after(z: int, action: HeightAction, height: int) -> int {
    match action {
        HeightAction::Up5 => layer_up(z, 5, height),
        HeightAction::Up1 => layer_up(z, 1, height),
        HeightAction::Down1 => if z > 0 { z - 1 } else { 0 },
        HeightAction::Down5 => if z >= 5 { z - 5 } else { 0 },
        HeightAction::Floor => 0,
        HeightAction::Half => height / 2,
        HeightAction::Ceiling => height - 1,
    }
}

/// Moves `z` up by `step` layers, stopping at the ceiling.
fn move_up(z: u32, step: u32, universe_height: u32) -> (r: u32)
    requires
        z <= universe_height - 1 || z + step <= u32::MAX,
    ensures
        r == layer_up(z as int, step as int, universe_height as int),
{
    if universe_height >= 1 && z <= universe_height - 1 {
        if universe_height - 1 - z >= step {
            z + step
        } else {
            universe_height - 1
        }
    } else {
        z + step
    }
}

impl HeightData {
    /// The view of a universe `universe_height` layers high when it is
    /// loaded: halfway up.
    pub fn for_universe(universe_height: u32) -> (h: Self)
        ensures
            h.current_z == starting_layer(universe_height as int),
            2 * h.current_z <= universe_height < 2 * h.current_z + 2,
    {
        HeightData { current_z: universe_height / 2 }
    }

    /// Takes `action` in a universe `universe_height` layers high.
    pub fn apply(&mut self, action: HeightAction, universe_height: u32)
        requires
            action_allowed(old(self).current_z as int, action, universe_height as int),
        ensures
            final(self).current_z == layer_after(
                old(self).current_z as int,
                action,
                universe_height as int,
            ),
            action == HeightAction::Half ==> 2 * final(self).current_z <= universe_height < 2
                * final(self).current_z + 2,
            action == HeightAction::Ceiling ==> final(self).current_z + 1 == universe_height,
            action == HeightAction::Floor ==> final(self).current_z == 0,
    {
        match action {
            HeightAction::Up5 => {
                self.current_z = move_up(self.current_z, 5, universe_height);
            },
            HeightAction::Up1 => {
                self.current_z = move_up(self.current_z, 1, universe_height);
            },
            HeightAction::Down1 => {
                if self.current_z > 0 {
                    self.current_z = self.current_z - 1;
                }
            },
            HeightAction::Down5 => {
                if self.current_z >= 5 {
                    self.current_z = self.current_z - 5;
                } else {
                    self.current_z = 0;
                }
            },
            HeightAction::Floor => {
                self.current_z = 0;
            },
            HeightAction::Half => {
                self.current_z = universe_height / 2;
            },
            HeightAction::Ceiling => {
                self.current_z = universe_height - 1;
            },
        }
    }
}

/// The view starts halfway up the universe: twice the starting layer is the
/// height, or one less than it when the height is odd, for every height.
pub proof fn lemma_starting_layer_is_half(height: u32)
    ensures
        2 * starting_layer(height as int) <= height < 2 * starting_layer(height as int) + 2,
{
}

/// The Half button gives half the universe's height rounded down, and the
/// Ceiling button the layer just below the height, from every layer.
pub proof fn lemma_half_and_ceiling_buttons(z: u32, height: u32)
    ensures
        2 * layer_after(z as int, HeightAction::Half, height as int) <= height < 2 * layer_after(
            z as int,
            HeightAction::Half,
            height as int,
        ) + 2,
        layer_after(z as int, HeightAction::Ceiling, height as int) + 1 == height,
        layer_after(z as int, HeightAction::Half, height as int) == starting_layer(height as int),
{
}

/// The view starts on a layer of the universe, for every universe that has
/// layers.
pub proof fn lemma_starting_layer_in_universe(height: u32)
    requires
        height >= 1,
    ensures
        0 <= starting_layer(height as int) < height,
{
}

/// A view on a layer of the universe stays on a layer of the universe,
/// whichever button is pressed.
pub proof fn lemma_view_stays_in_universe(z: u32, action: HeightAction, height: u32)
    requires
        z < height,
    ensures
        action_allowed(z as int, action, height as int),
        0 <= layer_after(z as int, action, height as int) < height,
{
}

/// Five layers down is the same as one layer down five times, the floor
/// included: neither goes below it.
pub proof fn lemma_down5_is_five_down1(z: u32, height: u32)
    ensures
        layer_after(z as int, HeightAction::Down5, height as int) == layer_after(
            layer_after(
                layer_after(
                    layer_after(
                        layer_after(z as int, HeightAction::Down1, height as int),
                        HeightAction::Down1,
                        height as int,
                    ),
                    HeightAction::Down1,
                    height as int,
                ),
                HeightAction::Down1,
                height as int,
            ),
            HeightAction::Down1,
            height as int,
        ),
{
}

/// Five layers up is the same as one layer up five times, the ceiling
/// included: neither goes past it.
pub proof fn lemma_up5_is_five_up1(z: u32, height: u32)
    ensures
        layer_after(z as int, HeightAction::Up5, height as int) == layer_after(
            layer_after(
                layer_after(
                    layer_after(
                        layer_after(z as int, HeightAction::Up1, height as int),
                        HeightAction::Up1,
                        height as int,
                    ),
                    HeightAction::Up1,
                    height as int,
                ),
                HeightAction::Up1,
                height as int,
            ),
            HeightAction::Up1,
            height as int,
        ),
{
}

/// Below the ceiling, one layer down undoes one layer up.
pub proof fn lemma_down1_undoes_up1(z: u32, height: u32)
    requires
        z + 1 < height,
    ensures
        layer_after(
            layer_after(z as int, HeightAction::Up1, height as int),
            HeightAction::Down1,
            height as int,
        ) == z,
{
}

/// Above the floor and inside the universe, one layer up undoes one layer
/// down.
pub proof fn lemma_up1_undoes_down1(z: u32, height: u32)
    requires
        0 < z < height,
    ensures
        layer_after(
            layer_after(z as int, HeightAction::Down1, height as int),
            HeightAction::Up1,
            height as int,
        ) == z,
{
}

/// Every button gives a layer that fits the view: never below the floor and
/// never past the largest `u32`; moving up never lowers the view and never
/// takes it past the ceiling from below it, and moving down never raises it;
/// the jumps to the floor, the half and the ceiling do not depend on where
/// the view was, and the half is not above the ceiling.
pub proof fn lemma_layer_bounds(z: u32, action: HeightAction, height: u32)
    requires
        action_allowed(z as int, action, height as int),
    ensures
        0 <= layer_after(z as int, action, height as int) <= u32::MAX,
        (action == HeightAction::Up1 || action == HeightAction::Up5) ==> layer_after(
            z as int,
            action,
            height as int,
        ) >= z,
        (action == HeightAction::Up1 || action == HeightAction::Up5) && z < height ==> layer_after(
            z as int,
            action,
            height as int,
        ) < height,
        (action == HeightAction::Up1 || action == HeightAction::Up5) && z + 1 < height
            ==> layer_after(z as int, action, height as int) > z,
        (action == HeightAction::Down1 || action == HeightAction::Down5) ==> layer_after(
            z as int,
            action,
            height as int,
        ) <= z,
        forall|w: u32|
            (action == HeightAction::Floor || action == HeightAction::Half || action
                == HeightAction::Ceiling) ==> #[trigger] layer_after(w as int, action, height as int)
                == layer_after(z as int, action, height as int),
        (action == HeightAction::Half && height >= 1) ==> layer_after(
            z as int,
            action,
            height as int,
        ) <= layer_after(z as int, HeightAction::Ceiling, height as int),
{
}

} // verus!
