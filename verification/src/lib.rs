//! Core logic of a small Wavefront OBJ model viewer.
//!
//! The crate covers the parts of the viewer that can be stated and proved:
//! the fly-camera state machine, the mesh-to-vertex-list normalization with
//! its bounding box, the fixed-timestep frame pacing arithmetic, and the
//! extension gate for drag-and-drop reloads. Window creation, GPU uploads,
//! shader programs and the floating-point matrix math live in the host
//! application around this library.

pub mod camera;
pub mod mesh;
pub mod pump;
pub mod reload;
