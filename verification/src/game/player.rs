use vstd::prelude::*;

verus! {

/// Which stage of setting up the player cars the game is in.
#[derive(Debug, Clone, Copy, PartialEq, Eq, Hash, Structural)]
pub enum PlayerLoadState {
    Setup,
    GraphicsLoaded,
    Finished,
}

impl PlayerLoadState {
    /// Position of the state in the player setup flow.
    pub open spec fn rank(self) -> nat {
        match self {
            PlayerLoadState::Setup => 0,
            PlayerLoadState::GraphicsLoaded => 1,
            PlayerLoadState::Finished => 2,
        }
    }

    /// The state the player setup moves on to: the car textures are loaded,
    /// then the players are spawned; a finished setup has no successor.
    pub open spec fn spec_next(self) -> Option<PlayerLoadState> {
        match self {
            PlayerLoadState::Setup => Some(PlayerLoadState::GraphicsLoaded),
            PlayerLoadState::GraphicsLoaded => Some(PlayerLoadState::Finished),
            PlayerLoadState::Finished => None,
        }
    }

    /// The state that the player setup moves on to from this one, if any.
    pub fn next(self) -> (r: Option<PlayerLoadState>)
        ensures
            r == self.spec_next(),
    {
        match self {
            PlayerLoadState::Setup => Some(PlayerLoadState::GraphicsLoaded),
            PlayerLoadState::GraphicsLoaded => Some(PlayerLoadState::Finished),
            PlayerLoadState::Finished => None,
        }
    }
}

/// The state the player setup starts in: with graphics the car textures must
/// be loaded first; without them the game starts right at spawning players.
pub fn check_graphics_setup(graphics: bool) -> (r: PlayerLoadState)
    ensures
        r == (if graphics {
            PlayerLoadState::Setup
        } else {
            PlayerLoadState::GraphicsLoaded
        }),
{
    if graphics {
        PlayerLoadState::Setup
    } else {
        PlayerLoadState::GraphicsLoaded
    }
}

/// Each step of the player setup moves exactly one stage forward; only a
/// finished setup has no next state.
pub proof fn lemma_player_load_state_advances(s: PlayerLoadState)
    ensures
        s.spec_next() is None <==> s == PlayerLoadState::Finished,
        s.spec_next() matches Some(t) ==> t.rank() == s.rank() + 1,
{
}

/// What the driver asks of a car. Each axis is `-1`, `0` or `1`:
/// `throttle` is reverse / idle / forward; `steering` turns the front wheels
/// clockwise / not at all / counter-clockwise.
#[derive(Debug, Clone, Copy, PartialEq, Eq, Structural)]
pub struct PlayerInput {
    pub throttle: i8,
    pub steering: i8,
}

impl PlayerInput {
    /// Both axes hold one of `-1`, `0`, `1`.
    pub open spec fn wf(self) -> bool {
        &&& -1 <= self.throttle <= 1
        &&& -1 <= self.steering <= 1
    }

    /// No throttle and no steering.
    pub open spec fn neutral() -> PlayerInput {
        PlayerInput { throttle: 0, steering: 0 }
    }
}

impl Default for PlayerInput {
    fn default() -> (r: PlayerInput)
        ensures
            r == PlayerInput::neutral(),
    {
        PlayerInput { throttle: 0, steering: 0 }
    }
}

/// The value of an axis driven by two keys, where the key checked last
/// (`negative`) wins when both are held.
pub open spec fn axis_from_keys(negative: bool, positive: bool) -> int {
    if negative {
        -1
    } else if positive {
        1
    } else {
        0
    }
}

/// The input given by the arrow keys held down: Up and Down drive the
/// throttle (Down wins), Left and Right the steering (Right wins).
pub fn get_keyboard_input(up: bool, down: bool, left: bool, right: bool) -> (input: PlayerInput)
    ensures
        input.throttle == axis_from_keys(down, up),
        input.steering == axis_from_keys(right, left),
        input.wf(),
{
    let mut input = PlayerInput { throttle: 0, steering: 0 };
    if up {
        input.throttle = 1;
    }
    if down {
        input.throttle = -1;
    }
    if left {
        input.steering = 1;
    }
    if right {
        input.steering = -1;
    }
    input
}

/// The input that drives a car this frame: the agent's last choice for a
/// car under its control, the arrow keys held down otherwise.
pub fn tick_input(
    is_ai: bool,
    ai_input: PlayerInput,
    up: bool,
    down: bool,
    left: bool,
    right: bool,
) -> (input: PlayerInput)
    ensures
        is_ai ==> input == ai_input,
        !is_ai ==> input.throttle == axis_from_keys(down, up) && input.steering == axis_from_keys(
            right,
            left,
        ),
{
    if is_ai {
        ai_input
    } else {
        get_keyboard_input(up, down, left, right)
    }
}

} // verus!
