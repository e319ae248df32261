//! Core simulation engine for a side-scrolling flap-and-dodge arcade game.
//!
//! The library is deterministic and integer-only: world lengths are measured
//! in thousandths of a world unit ("milliunits"), velocities in milliunits
//! per second, and time in milliseconds. A host loop owns a [`session::Session`],
//! feeds it one `tick` per rendered frame, and reads back entity positions,
//! the score and the game state for display.

use vstd::prelude::*;

pub mod config;
pub mod entities;
pub mod geom;
pub mod physics;
pub mod session;
pub mod spawner;
pub mod timer;

verus! {

} // verus!
