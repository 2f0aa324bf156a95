//! The decisions of a single-window application that clears its surface to a
//! colour following the cursor: how the presentation surface is configured,
//! when it is reconfigured, and how the shell reacts to each event.
//!
//! The library performs no windowing and no GPU work itself. A caller owns the
//! window and the device, reports what happened, and carries out the
//! [`app::Action`] it gets back.

pub mod geometry;
pub mod surface;
pub mod event;
pub mod color;
pub mod state;
pub mod app;
pub mod laws;
