//! Task dispatch across a foreign-call boundary: task and result records,
//! the known execution backends, an ordered registry that routes each task
//! to the first backend claiming its kind, and the rules that turn backend
//! outcomes and decode failures into result records.

pub mod model;
pub mod agents;
pub mod registry;
pub mod boundary;
pub mod buffers;
