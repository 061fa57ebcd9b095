//! A minimal real-time rendering host library.
//!
//! The library holds the decision logic of a windowed GPU renderer: how the
//! presentation surface configuration is chosen and maintained across resizes
//! and surface loss, how the fixed render pipeline and mesh are described, and
//! how each frame's command sequence is ordered and paced. The calls into the
//! windowing toolkit and the GPU backend are I/O at the edge of the program
//! and live in the surrounding application, which drives this library's state
//! machine and performs the actions it decides on.

pub mod frame_loop;
pub mod mesh_builder;
pub mod pipeline_builder;
pub mod surface;
