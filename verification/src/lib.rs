//! Frame orchestration and camera control for a compute-driven viewer.
//!
//! The crate holds the decisions of the viewer as plain values: which GPU
//! resources exist and how they are bound, how many workgroups cover the
//! offscreen target, where the composited image sits on the surface, which
//! input reaches the camera in a tick, and how frames are counted. Calls
//! into the graphics device are made by the program around this library.

pub mod binary32;
pub mod camera;
pub mod fpscounter;
pub mod gpu;
pub mod input;
pub mod limits;
pub mod words;
pub mod pipelines;
pub mod renderer;
