//! Core logic of an interactive split-screen 3D viewport.
//!
//! The library models the state that drives the viewport: the vertex and
//! geometry data for the reference grid, the screen multiplexer that splits
//! the window into two regions and routes input events, the renderer's
//! resource state together with the per-frame draw decisions, and the
//! application loop's dispatch and frame-tick steps.  The host program owns
//! the window and the GPU device; it feeds events in as plain values and
//! carries the returned plans out to the GPU.

pub mod vertex;
pub mod shapes;
pub mod screen_multiplexer;
pub mod primitive_renderer;
pub mod app_loop;
