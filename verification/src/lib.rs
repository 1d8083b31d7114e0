//! Discrete, queued avatar movement on a cardinal grid.
//!
//! The library drives a player avatar through a continuous scene while keeping
//! its logical orientation locked to the four cardinal directions.  Raw input
//! edges are debounced and turned into movement intents; intents wait in a
//! FIFO queue; a per-tick executor contextualizes the head of the queue into a
//! time-bounded motion (a straight translation or a rotation to an exact
//! target yaw) and interpolates it across ticks.  Before the first real
//! movement a one-time alignment command snaps the avatar to the nearest
//! cardinal direction.
//!
//! All quantities are integers: yaw in degrees, time in milliseconds and
//! positions in fixed-point world units.  Rendering, the entity system and
//! floating-point presentation live outside the library and exchange plain
//! values with it.

pub mod cardinal;
pub mod intent;
pub mod pose;
pub mod state;
pub mod executor;
pub mod input;
pub mod plugin;
pub mod laws;
