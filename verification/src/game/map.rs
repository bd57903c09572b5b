use vstd::prelude::*;

use crate::game::state::AppState;

verus! {

/// Number of car pictures on the car sprite sheet.
pub const NUM_CAR_SPRITES: usize = 5;

/// A random `usize`, drawn by `rand::random` from the thread-local generator.
/// Nothing is promised of the value: any `usize` may come back.
#[verifier::external_body]
fn random_usize() -> (r: usize) {
    rand::random::<usize>()
}

/// The sprite sheet picture shown for a car that drew `draw`.
pub fn car_sprite_index(draw: usize) -> (index: usize)
    ensures
        index == draw % NUM_CAR_SPRITES,
        index < NUM_CAR_SPRITES,
{
    draw % NUM_CAR_SPRITES
}

/// The pictures shown by cars that drew `draws`: the `i`-th car shows the
/// picture of the `i`-th draw.
pub fn car_sprite_indices(draws: &Vec<usize>) -> (indices: Vec<usize>)
    ensures
        indices@.len() == draws@.len(),
        forall|i: int|
            0 <= i < indices@.len() ==> #[trigger] indices@[i] == draws@[i] % NUM_CAR_SPRITES,
{
    let mut indices: Vec<usize> = Vec::new();
    let mut i: usize = 0;
    while i < draws.len()
        invariant
            i <= draws@.len(),
            indices@.len() == i,
            forall|j: int|
                0 <= j < indices@.len() ==> #[trigger] indices@[j] == draws@[j] % NUM_CAR_SPRITES,
        decreases draws@.len() - i,
    {
        indices.push(car_sprite_index(draws[i]));
        i = i + 1;
    }
    indices
}

/// A randomly chosen sprite sheet picture for each of `num_cars` parked cars:
/// one draw of the random source per car, each mapped to its picture by
/// `car_sprite_indices`.
pub fn on_car_loaded(num_cars: usize) -> (indices: Vec<usize>)
    ensures
        indices@.len() == num_cars,
        forall|i: int| 0 <= i < indices@.len() ==> #[trigger] indices@[i] < NUM_CAR_SPRITES,
{
    let mut draws: Vec<usize> = Vec::new();
    let mut i: usize = 0;
    while i < num_cars
        invariant
            i <= num_cars,
            draws@.len() == i,
        decreases num_cars - i,
    {
        draws.push(random_usize());
        i = i + 1;
    }
    car_sprite_indices(&draws)
}

/// Half of `v`, rounded towards zero.
pub open spec fn half_towards_zero(v: int) -> int {
    if v >= 0 {
        v / 2
    } else {
        -((-v) / 2)
    }
}

/// The size of the loaded level, in pixels.
#[derive(Debug, Clone, Copy, PartialEq, Eq, Structural)]
pub struct MapData {
    pub width: i32,
    pub height: i32,
}

impl MapData {
    /// The point the camera is moved to once the level is known: half the
    /// width and half the height, each rounded towards zero.
    pub fn center(&self) -> (c: (i32, i32))
        ensures
            c.0 == half_towards_zero(self.width as int),
            c.1 == half_towards_zero(self.height as int),
    {
        (self.width / 2, self.height / 2)
    }
}

/// What the level loader reported in a frame, without the level's name.
#[derive(Debug, Clone, Copy, PartialEq, Eq, Structural)]
pub enum LevelEventKind {
    SpawnTriggered,
    Spawned,
    Transformed,
    Despawned,
}

/// How many of `events` report that the level has spawned.
pub open spec fn spawned_count(events: Seq<LevelEventKind>) -> nat
    decreases events.len(),
{
    if events.len() == 0 {
        0
    } else {
        spawned_count(events.drop_last()) + if events.last() == LevelEventKind::Spawned {
            1nat
        } else {
            0nat
        }
    }
}

/// Only reports of a spawned level count: a frame holds no such report exactly
/// when its count is zero, and the count never exceeds the number of reports.
pub proof fn lemma_spawned_count_counts_spawns(events: Seq<LevelEventKind>)
    ensures
        spawned_count(events) == 0 <==> forall|i: int|
            0 <= i < events.len() ==> #[trigger] events[i] != LevelEventKind::Spawned,
        spawned_count(events) <= events.len(),
    decreases events.len(),
{
    if events.len() > 0 {
        let rest = events.drop_last();
        lemma_spawned_count_counts_spawns(rest);
        assert forall|i: int| 0 <= i < rest.len() implies #[trigger] rest[i] == events[i] by {}
        if spawned_count(events) == 0 {
            assert forall|i: int| 0 <= i < events.len() implies #[trigger] events[i]
                != LevelEventKind::Spawned by {
                if i < rest.len() {
                    assert(rest[i] == events[i]);
                }
            }
        }
        if forall|i: int| 0 <= i < events.len() ==> #[trigger] events[i] != LevelEventKind::Spawned {
            assert(events[events.len() - 1] != LevelEventKind::Spawned);
            assert forall|i: int| 0 <= i < rest.len() implies #[trigger] rest[i]
                != LevelEventKind::Spawned by {
                assert(events[i] != LevelEventKind::Spawned);
            }
        }
    }
}

/// Only a report that the level has spawned moves a frame on: none of the
/// other reports changes the state, in whatever number they come.
pub proof fn lemma_other_reports_keep_loading(events: Seq<LevelEventKind>)
    requires
        forall|i: int| 0 <= i < events.len() ==> #[trigger] events[i] != LevelEventKind::Spawned,
    ensures
        spawned_count(events) == 0,
{
    lemma_spawned_count_counts_spawns(events);
}

/// While loading, reads the level loader's reports of one frame: once the
/// level has spawned the game moves on to `AppState::Loaded`; otherwise it
/// keeps loading (`None`). A frame may report the spawn at most once, since a
/// second request to change the state in the same frame is refused.
pub fn wait_for_level_spawned(events: &Vec<LevelEventKind>) -> (next: Option<AppState>)
    requires
        spawned_count(events@) <= 1,
    ensures
        next == (if spawned_count(events@) > 0 {
            Some(AppState::Loaded)
        } else {
            None
        }),
        next is Some <==> exists|i: int|
            0 <= i < events@.len() && #[trigger] events@[i] == LevelEventKind::Spawned,
        next is Some ==> next == Some(AppState::Loaded),
{
    let mut next: Option<AppState> = None;
    let mut i: usize = 0;
    while i < events.len()
        invariant
            i <= events@.len(),
            next == (if spawned_count(events@.take(i as int)) > 0 {
                Some(AppState::Loaded)
            } else {
                None
            }),
        decreases events@.len() - i,
    {
        proof {
            let t = events@.take(i + 1);
            assert(t.drop_last() == events@.take(i as int));
            assert(t.last() == events@[i as int]);
        }
        match events[i] {
            LevelEventKind::Spawned => next = Some(AppState::Loaded),
            _ => {},
        }
        i = i + 1;
    }
    proof {
        assert(events@.take(events@.len() as int) == events@);
        lemma_spawned_count_counts_spawns(events@);
    }
    next
}

} // verus!
