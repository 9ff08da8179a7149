//! Verified core of an interactive, GPU-textured image viewport.
//!
//! The library covers the two engineering-hard parts of such a viewport:
//! the pointer-interaction state machine with its pan/zoom transform
//! arithmetic (exact fixed-point, so every property is proved without
//! floating-point tolerance), and the model of the cached GPU pipeline
//! state with its asset-swap lifecycle.  The host window, the file dialog,
//! and the actual GPU submissions live outside the library and consume the
//! plain values it produces.

pub mod transform;
pub mod interaction;
pub mod scene;
pub mod pipeline;
