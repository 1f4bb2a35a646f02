//! Verified core of a multi-console emulator front-end.
//!
//! The heart of the crate is the PlayStation presentation pipeline: the
//! 24-bit VRAM format-conversion kernel, the source-texture bridge, the
//! blit-region math, the presentation-loop state machine, frame pacing and
//! the input latch.  Around it stand the launcher's pure pieces: ROM-type
//! detection, watch/range parsers, framebuffer pixel mapping and the
//! game-selection navigation logic.

pub mod audio;
pub mod automation;
pub mod bridge;
pub mod c64;
pub mod controller;
pub mod display;
pub mod draw;
pub mod image;
pub mod latch;
pub mod launcher;
pub mod metadata;
pub mod observe;
pub mod pacing;
pub mod plugins;
pub mod present;
pub mod quicksave;
pub mod region;
pub mod systems;
pub mod unpack;
