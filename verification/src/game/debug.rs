use vstd::prelude::*;

use crate::game::collision::Rectangle;

verus! {

/// Length of the debug axes drawn along the map edges, in pixels.
pub const AXIS_HEIGHT: i32 = 2000;

/// Distance between two ticks on a debug axis, in pixels.
pub const AXIS_INCREMENTS: i32 = 50;

/// Number of ticks (and labels) on each debug axis: the axis length over the
/// tick spacing.
pub const NUM_INCREMENTS: i32 = 40;

/// Whether the collision boxes are shown.
#[derive(Debug, Clone, Copy, PartialEq, Eq, Structural)]
pub struct DrawToggleResource {
    pub draw_collision_rectangles: bool,
}

impl Default for DrawToggleResource {
    fn default() -> (r: DrawToggleResource)
        ensures
            !r.draw_collision_rectangles,
    {
        DrawToggleResource { draw_collision_rectangles: false }
    }
}

/// The toggle after one frame: each frame in which the key is held flips it.
pub open spec fn toggled(shown: bool, key_pressed: bool) -> bool {
    if key_pressed {
        !shown
    } else {
        shown
    }
}

/// The boxes whose outlines a frame adds: all of them in order on the frame
/// the toggle is switched on, none otherwise.
pub open spec fn boxes_to_draw(rectangles: Seq<Rectangle>, shown: bool, key_pressed: bool) -> Seq<
    Rectangle,
> {
    if key_pressed && !shown {
        rectangles
    } else {
        Seq::empty()
    }
}

/// Holding the key for two frames in a row puts the toggle back where it was,
/// and the boxes are drawn in exactly one of the two frames: the one that
/// switches the overlay on.
pub proof fn lemma_toggle_twice(rectangles: Seq<Rectangle>, shown: bool)
    ensures
        toggled(toggled(shown, true), true) == shown,
        boxes_to_draw(rectangles, shown, true) + boxes_to_draw(
            rectangles,
            toggled(shown, true),
            true,
        ) == rectangles,
{
    assert(Seq::<Rectangle>::empty() + rectangles == rectangles);
    assert(rectangles + Seq::<Rectangle>::empty() == rectangles);
}

/// Without the key the overlay stays as it is and nothing new is drawn.
pub proof fn lemma_toggle_idle(rectangles: Seq<Rectangle>, shown: bool)
    ensures
        toggled(shown, false) == shown,
        boxes_to_draw(rectangles, shown, false) == Seq::<Rectangle>::empty(),
{
}

/// Whatever the boxes: a frame that switches the overlay on draws all of
/// them, in order; a frame that switches it off, or leaves it as it is, draws
/// none; and the key flips the overlay.
pub proof fn lemma_overlay_draws_when_switched_on(rectangles: Seq<Rectangle>, shown: bool)
    ensures
        boxes_to_draw(rectangles, false, true) == rectangles,
        boxes_to_draw(rectangles, true, true).len() == 0,
        boxes_to_draw(rectangles, shown, false).len() == 0,
        toggled(shown, true) == !shown,
        toggled(shown, false) == shown,
{
}

/// One frame of the collision overlay: flips the toggle while the key is held
/// and returns the boxes to draw, which are all of `rectangles` exactly when
/// the toggle has just been switched on.
pub fn draw_collision_rectangles(
    rectangles: &Vec<Rectangle>,
    toggle: &mut DrawToggleResource,
    key_pressed: bool,
) -> (to_draw: Vec<Rectangle>)
    ensures
        final(toggle).draw_collision_rectangles == toggled(
            old(toggle).draw_collision_rectangles,
            key_pressed,
        ),
        to_draw@ == boxes_to_draw(rectangles@, old(toggle).draw_collision_rectangles, key_pressed),
        final(toggle).draw_collision_rectangles == (old(toggle).draw_collision_rectangles
            != key_pressed),
        key_pressed && !old(toggle).draw_collision_rectangles ==> to_draw@ == rectangles@,
        !(key_pressed && !old(toggle).draw_collision_rectangles) ==> to_draw@.len() == 0,
{
    let initial_values = *toggle;
    if key_pressed {
        toggle.draw_collision_rectangles = !toggle.draw_collision_rectangles;
    }
    if initial_values.draw_collision_rectangles != toggle.draw_collision_rectangles
        && toggle.draw_collision_rectangles {
        rectangles.clone()
    } else {
        Vec::new()
    }
}

/// The values along a debug axis at which ticks and labels stand:
/// `AXIS_INCREMENTS`, `2 * AXIS_INCREMENTS`, ..., up to `AXIS_HEIGHT`.
pub fn axis_increment_values() -> (v: Vec<i32>)
    ensures
        v@.len() == NUM_INCREMENTS,
        NUM_INCREMENTS * AXIS_INCREMENTS == AXIS_HEIGHT,
        forall|i: int| 0 <= i < v@.len() ==> #[trigger] v@[i] == (i + 1) * AXIS_INCREMENTS,
        v@.last() == AXIS_HEIGHT,
{
    let mut v: Vec<i32> = Vec::new();
    let mut count: i32 = 1;
    while count <= NUM_INCREMENTS
        invariant
            1 <= count <= NUM_INCREMENTS + 1,
            v@.len() == count - 1,
            forall|i: int| 0 <= i < v@.len() ==> #[trigger] v@[i] == (i + 1) * AXIS_INCREMENTS,
        decreases NUM_INCREMENTS + 1 - count,
    {
        v.push(count * AXIS_INCREMENTS);
        count = count + 1;
    }
    v
}

} // verus!
