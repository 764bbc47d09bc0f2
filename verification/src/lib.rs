//! The rules of a side-scrolling runner: a character that is one of six
//! states, the obstacles it meets, and the world that scrolls past it.
//!
//! Nothing here draws, plays a sound or reads a key. A tick takes the keys
//! that are held and hands back the next state; drawing hands back the list
//! of pictures to put on the canvas.

pub mod engine;
pub mod game;
pub mod segments;
pub mod sound;

pub use engine::Rect;
pub use game::obstacle::{Barrier, Obstacle, Platform};
pub use segments::{FIRST_PLATFORM, HIGH_PLATFORM, LOW_PLATFORM};
