//! The logic of a terminal snake game: the rectilinear chain that models the
//! snake's body and the wall, and the small state machines around it.

pub mod point;
pub mod rectilinear;
pub mod overlap;
pub mod laws;
pub mod menu;
pub mod keyboard;
pub mod timing;
pub mod graphics;
pub mod apple;
pub mod round;
pub mod game;
