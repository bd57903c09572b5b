use vstd::prelude::*;

use crate::game::collision;
use crate::game::player::PlayerInput;

verus! {

/// One action of the driving agent.
#[derive(Debug, Clone, Copy, PartialEq, Eq, Structural)]
pub enum Direction {
    Left,
    Up,
    Right,
    Down,
}

/// The input after one action: Left and Right set the steering, Up and Down
/// the throttle; the other axis is kept.
pub open spec fn spec_apply_direction(input: PlayerInput, d: Direction) -> PlayerInput {
    match d {
        Direction::Left => PlayerInput { steering: -1i8, ..input },
        Direction::Right => PlayerInput { steering: 1i8, ..input },
        Direction::Up => PlayerInput { throttle: 1i8, ..input },
        Direction::Down => PlayerInput { throttle: -1i8, ..input },
    }
}

/// The input after the actions `dirs`, taken in order.
pub open spec fn spec_apply_directions(input: PlayerInput, dirs: Seq<Direction>) -> PlayerInput
    decreases dirs.len(),
{
    if dirs.len() == 0 {
        input
    } else {
        spec_apply_direction(spec_apply_directions(input, dirs.drop_last()), dirs.last())
    }
}

/// Taking the actions `a` and then the actions `b` leaves the same input as
/// taking `a` followed by `b` in one go.
pub proof fn lemma_apply_directions_append(input: PlayerInput, a: Seq<Direction>, b: Seq<Direction>)
    ensures
        spec_apply_directions(input, a + b) == spec_apply_directions(
            spec_apply_directions(input, a),
            b,
        ),
    decreases b.len(),
{
    if b.len() == 0 {
        assert(a + b == a);
    } else {
        assert((a + b).drop_last() == a + b.drop_last());
        assert((a + b).last() == b.last());
        lemma_apply_directions_append(input, a, b.drop_last());
    }
}

/// The agent's actions keep each axis of a well-formed input at `-1`, `0`
/// or `1`.
pub proof fn lemma_apply_directions_wf(input: PlayerInput, dirs: Seq<Direction>)
    requires
        input.wf(),
    ensures
        spec_apply_directions(input, dirs).wf(),
    decreases dirs.len(),
{
    if dirs.len() > 0 {
        lemma_apply_directions_wf(input, dirs.drop_last());
    }
}

/// The last action that names an axis decides it: after actions ending in
/// `d`, the axis that `d` sets has the value `d` gives it.
pub proof fn lemma_last_direction_wins(input: PlayerInput, dirs: Seq<Direction>)
    requires
        dirs.len() > 0,
    ensures
        dirs.last() == Direction::Left ==> spec_apply_directions(input, dirs).steering == -1,
        dirs.last() == Direction::Right ==> spec_apply_directions(input, dirs).steering == 1,
        dirs.last() == Direction::Up ==> spec_apply_directions(input, dirs).throttle == 1,
        dirs.last() == Direction::Down ==> spec_apply_directions(input, dirs).throttle == -1,
{
}

/// Each action changes only its own axis: Left and Right set the steering to
/// `-1` and `1` and keep the throttle; Up and Down set the throttle to `1` and
/// `-1` and keep the steering.
pub proof fn lemma_direction_changes_only_its_axis(input: PlayerInput, d: Direction)
    ensures
        d == Direction::Left ==> spec_apply_direction(input, d).steering == -1
            && spec_apply_direction(input, d).throttle == input.throttle,
        d == Direction::Right ==> spec_apply_direction(input, d).steering == 1
            && spec_apply_direction(input, d).throttle == input.throttle,
        d == Direction::Up ==> spec_apply_direction(input, d).throttle == 1
            && spec_apply_direction(input, d).steering == input.steering,
        d == Direction::Down ==> spec_apply_direction(input, d).throttle == -1
            && spec_apply_direction(input, d).steering == input.steering,
{
}

/// Applies one action of the agent to the car's input.
pub fn apply_direction(input: &mut PlayerInput, d: Direction)
    ensures
        *final(input) == spec_apply_direction(*old(input), d),
        d == Direction::Left ==> final(input).steering == -1 && final(input).throttle == old(
            input,
        ).throttle,
        d == Direction::Right ==> final(input).steering == 1 && final(input).throttle == old(
            input,
        ).throttle,
        d == Direction::Up ==> final(input).throttle == 1 && final(input).steering == old(
            input,
        ).steering,
        d == Direction::Down ==> final(input).throttle == -1 && final(input).steering == old(
            input,
        ).steering,
{
    match d {
        Direction::Left => input.steering = -1,
        Direction::Right => input.steering = 1,
        Direction::Up => input.throttle = 1,
        Direction::Down => input.throttle = -1,
    }
}

/// Acts on what the agent chose for the first car: with no choice the game is
/// to end (`true` comes back and the input is kept); otherwise each action is
/// applied to the input in turn and `false` comes back.
pub fn car_move_agent(input: &mut PlayerInput, action: Option<Vec<Direction>>) -> (exit: bool)
    ensures
        exit <==> action is None,
        action is None ==> *final(input) == *old(input),
        action matches Some(dirs) ==> *final(input) == spec_apply_directions(*old(input), dirs@),
{
    match action {
        None => true,
        Some(dirs) => {
            let mut i: usize = 0;
            while i < dirs.len()
                invariant
                    i <= dirs@.len(),
                    *input == spec_apply_directions(*old(input), dirs@.take(i as int)),
                decreases dirs@.len() - i,
            {
                proof {
                    let t = dirs@.take(i + 1);
                    assert(t.drop_last() == dirs@.take(i as int));
                    assert(t.last() == dirs@[i as int]);
                }
                apply_direction(input, dirs[i]);
                i = i + 1;
            }
            proof {
                assert(dirs@.take(dirs@.len() as int) == dirs@);
            }
            false
        },
    }
}

/// A parked car as the agent sees it: the centre of its collision box.
#[derive(Debug, Clone, Copy, PartialEq, Eq, Structural)]
pub struct Rectangle {
    pub x: i32,
    pub y: i32,
}

/// A car as the agent sees it: position, velocity and heading, each
/// truncated towards zero to whole pixels.
#[derive(Debug, Clone, Copy, PartialEq, Eq, Structural)]
pub struct PlayerState {
    pub x: i32,
    pub y: i32,
    pub x_velocity: i32,
    pub y_velocity: i32,
    pub x_heading: i32,
    pub y_heading: i32,
}

/// The parked cars that the agent observes: the centre of each collision box,
/// in the same order.
pub fn observed_rectangles(rectangles: &Vec<collision::Rectangle>) -> (obs: Vec<Rectangle>)
    ensures
        obs@.len() == rectangles@.len(),
        forall|i: int|
            0 <= i < obs@.len() ==> #[trigger] obs@[i] == (Rectangle {
                x: rectangles@[i].x,
                y: rectangles@[i].y,
            }),
{
    let mut obs: Vec<Rectangle> = Vec::new();
    let mut i: usize = 0;
    while i < rectangles.len()
        invariant
            i <= rectangles@.len(),
            obs@.len() == i,
            forall|j: int|
                0 <= j < i ==> #[trigger] obs@[j] == (Rectangle {
                    x: rectangles@[j].x,
                    y: rectangles@[j].y,
                }),
        decreases rectangles@.len() - i,
    {
        let r = rectangles[i];
        obs.push(Rectangle { x: r.x, y: r.y });
        i = i + 1;
    }
    obs
}

} // verus!
