pub mod collision;
pub mod debug;
pub mod map;
pub mod player;
pub mod state;

use vstd::prelude::*;

verus! {

/// Sent when a car leaves the arena or runs into a parked car.
#[derive(Debug, Clone, Copy, PartialEq, Eq)]
pub struct GameOverEvent;

} // verus!
