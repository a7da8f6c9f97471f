//! Verified core of an interactive vector-field ray-deflection viewer.
//!
//! The crate models the camera mathematics and the per-frame orchestration of
//! such a tool: an arcball camera over exact fixed-point arithmetic, the
//! uniform payload derived from it, the pointer/drag state machine, the
//! atomic shader-reload bookkeeping and the dirty-flag-gated frame scheduler.
//! Window, GPU and GUI plumbing stay outside; they exchange plain values with
//! this library.

pub mod fixed;
pub mod linalg;
pub mod arcball;
pub mod camera;
pub mod view;
pub mod scheduler;
pub mod shader;
pub mod functions;
pub mod vertices;
pub mod ray_samples;
