//! The decision logic of a small cube viewer: the cube's geometry, the layout
//! of a vertex buffer, the pipeline toggles, the camera and the frame loop.
//!
//! Nothing here talks to a graphics driver. Every operation that would is
//! returned as a [`command::Command`], a plain value that the caller carries
//! out in order. Real-valued quantities are held as IEEE-754 binary32 bit
//! patterns in `u32`, so that all reasoning is over integers.

pub mod camera;
pub mod command;
pub mod cube;
pub mod frame;
pub mod render_state;
pub mod shader;
pub mod vertex;
