//! Grid-based snake game logic: the per-frame state machine and the
//! touch-gesture classifier that steers it.
pub mod game;
pub mod gesture;
pub mod grid;
pub mod random;
