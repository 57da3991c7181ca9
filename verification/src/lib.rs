//! Decision core of a cube renderer built on an explicit GPU API.
//!
//! The library holds the parts of the renderer that decide and compute:
//! adapter and queue-family selection, the swapchain selection policy,
//! memory-type and depth-format selection, buffer and descriptor planning,
//! pipeline-state and command-stream planning, the integer-grid cube and
//! wireframe geometry, the resource teardown/rebuild ordering, and the
//! per-frame state machine.
//! Every function here carries a contract checked by Verus.
//!
//! The GPU calls themselves (unsafe, driver-bound) live outside the library;
//! they hand plain values in and carry the decisions out.

pub mod buffers;
pub mod camera;
pub mod commands;
pub mod descriptors;
pub mod error;
pub mod frame;
pub mod images;
pub mod instance;
pub mod lifecycle;
pub mod pipeline;
pub mod swapchain;
pub mod vertex;
