//! Verified core of a small runner game for a 128x64 monochrome screen:
//! the character's jump/fall state machine, a fixed-capacity scrolling
//! obstacle queue with recycling, a wrapping ground scroller, axis-aligned
//! collision detection, scoring, and the playing/game-over orchestrator.
//!
//! Rendering, input sampling and frame pacing are left to the caller; the
//! library works on plain integer coordinates.

pub mod game;
pub mod geometry;
pub mod obstacle_queue;
pub mod rng;
pub mod sprites;
