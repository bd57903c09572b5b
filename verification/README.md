# Musical Cars

A small top-down driving game: one car drives around an arena of parked cars,
steered from the keyboard or by a learned agent, and the game ends when it runs
into a parked car or leaves the arena.

- `src/` is the verified library: the loading flow (`game::state`,
  `game::player::PlayerLoadState`), the mapping of keys and agent actions to a
  car's input (`game::player`, `ai`), the collision boxes of the parked cars
  (`game::collision`), the debug overlay toggle and axis ticks
  (`game::debug`), and the map bookkeeping (`game::map`).
- `app/` is the game executable built on Bevy: plugins and systems, the
  floating point car physics and the separating-axis collision test.
- `tests/` runs the library on concrete values.
