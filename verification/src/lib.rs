//! Core of a GPU-rendered analog clock.
//!
//! The library models the renderer's decisions exactly: geometry and colors
//! are held in micro-units (millionths of a scene unit), angles in
//! microdegrees, and every call the renderer must make against the graphics
//! API is described as a [`gpu::GpuCommand`] value. A thin unverified shell
//! owns the window and the graphics context, executes the command sequences
//! that this library produces, and reports outcomes (compile results, queried
//! uniform locations, decoded image properties) back as plain values.

pub mod clock;
pub mod face;
pub mod gpu;
pub mod hand;
pub mod mesh;
pub mod shader;
pub mod texture;
pub mod units;
pub mod vertex;
