//! Game rules of Musical Cars: the loading flow, the mapping of keys and
//! agent actions to car input, the static collision layout, the debug
//! overlay toggle and the map bookkeeping. The engine glue, the floating
//! point car physics and the rotated-rectangle collision test live in the
//! application crate.

pub mod ai;
pub mod game;
