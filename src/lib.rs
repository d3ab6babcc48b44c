//! Frame-by-frame rules of a few small game scenes: a repeating timer,
//! a periodic greeting, the player's ground, dash and jump state, and the
//! mapping from keys to movement. Everything here works on plain values; the
//! engine wiring around it lives outside the library.

pub mod timer;
pub mod greeting;
pub mod player;
pub mod controls;
pub mod sky;
