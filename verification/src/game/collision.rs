use vstd::prelude::*;

verus! {

/// Width of a car sprite, and of its collision box, in pixels.
pub const CAR_WIDTH_PX: i32 = 44;

/// Height of a car sprite, and of its collision box, in pixels.
pub const CAR_HEIGHT_PX: i32 = 74;

/// A collision box on the pixel grid: its centre and its size. The angle a
/// moving car's box is turned by is carried beside it by the physics.
#[derive(Debug, Clone, Copy, PartialEq, Eq, Structural)]
pub struct Rectangle {
    pub x: i32,
    pub y: i32,
    pub width: i32,
    pub height: i32,
}

/// The box of a car centred at `(x, y)`.
pub open spec fn spec_car_rectangle(x: i32, y: i32) -> Rectangle {
    Rectangle { x, y, width: CAR_WIDTH_PX, height: CAR_HEIGHT_PX }
}

/// Wherever a car stands, its box is centred on it and is 44 pixels wide and
/// 74 pixels long.
pub proof fn lemma_car_box_everywhere(x: i32, y: i32)
    ensures
        spec_car_rectangle(x, y).x == x,
        spec_car_rectangle(x, y).y == y,
        spec_car_rectangle(x, y).width == 44,
        spec_car_rectangle(x, y).height == 74,
        CAR_WIDTH_PX == 44,
        CAR_HEIGHT_PX == 74,
{
}

/// The collision box of a car centred at `(x, y)`.
pub fn car_rectangle(x: i32, y: i32) -> (r: Rectangle)
    ensures
        r == spec_car_rectangle(x, y),
        r == (Rectangle { x, y, width: 44, height: 74 }),
{
    Rectangle { x, y, width: CAR_WIDTH_PX, height: CAR_HEIGHT_PX }
}

/// The boxes of parked cars at the positions `a + b`: those of `a`, then
/// those of `b`; so the arena can be built in batches.
pub proof fn lemma_car_rectangles_append(a: Seq<(i32, i32)>, b: Seq<(i32, i32)>)
    ensures
        (a + b).map_values(|p: (i32, i32)| spec_car_rectangle(p.0, p.1)) == a.map_values(
            |p: (i32, i32)| spec_car_rectangle(p.0, p.1),
        ) + b.map_values(|p: (i32, i32)| spec_car_rectangle(p.0, p.1)),
{
    assert((a + b).map_values(|p: (i32, i32)| spec_car_rectangle(p.0, p.1)) =~= a.map_values(
        |p: (i32, i32)| spec_car_rectangle(p.0, p.1),
    ) + b.map_values(|p: (i32, i32)| spec_car_rectangle(p.0, p.1)));
}

/// Adds to `rectangles` the boxes of the parked cars at `positions`, in order:
/// the static collision of the arena.
pub fn build_collision(rectangles: &mut Vec<Rectangle>, positions: &Vec<(i32, i32)>)
    ensures
        final(rectangles)@.len() == old(rectangles)@.len() + positions@.len(),
        final(rectangles)@ == old(rectangles)@ + positions@.map_values(
            |p: (i32, i32)| spec_car_rectangle(p.0, p.1),
        ),
        forall|i: int| 0 <= i < old(rectangles)@.len() ==> #[trigger] final(rectangles)@[i] == old(
            rectangles,
        )@[i],
        forall|i: int|
            0 <= i < positions@.len() ==> #[trigger] final(rectangles)@[old(rectangles)@.len() + i]
                == (Rectangle { x: positions@[i].0, y: positions@[i].1, width: 44, height: 74 }),
{
    let ghost start = rectangles@;
    let mut i: usize = 0;
    while i < positions.len()
        invariant
            i <= positions@.len(),
            rectangles@ == start + positions@.take(i as int).map_values(
                |p: (i32, i32)| spec_car_rectangle(p.0, p.1),
            ),
        decreases positions@.len() - i,
    {
        let (x, y) = positions[i];
        rectangles.push(car_rectangle(x, y));
        proof {
            assert(positions@.take(i + 1) == positions@.take(i as int).push(positions@[i as int]));
        }
        i = i + 1;
    }
    proof {
        assert(positions@.take(positions@.len() as int) == positions@);
        assert forall|i: int| 0 <= i < positions@.len() implies #[trigger] rectangles@[start.len()
            + i] == (Rectangle { x: positions@[i].0, y: positions@[i].1, width: 44, height: 74 }) by {
            assert(rectangles@[start.len() + i] == spec_car_rectangle(positions@[i].0, positions@[i].1));
        }
    }
}

} // verus!
