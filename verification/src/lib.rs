//! Verified core of a retro terminal presentation engine.
//!
//! The library classifies raw script lines into typed presentation
//! segments, lays out each segment inside a fixed-width bordered frame
//! (including exact truncation and padding), drives the interactive
//! navigation state machine, and gates file-change notifications through
//! a debounce window.  All I/O (terminal, filesystem, configuration
//! sources) lives outside the library and hands it plain values.

use vstd::prelude::*;

pub mod config;
pub mod nav;
pub mod render;
pub mod segment;
pub mod text;
pub mod theme;
pub mod watch;

verus! {

/// A frame width below this value is clamped up to it.
pub const MIN_FRAME_WIDTH: usize = 40;

} // verus!
