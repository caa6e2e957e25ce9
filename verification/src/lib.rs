//! Verified core of a small interactive rendering demo.
//!
//! The demo draws ten copies of an icosahedron above a ground plane and
//! moves a camera in fixed steps on key presses.  Everything the demo
//! decides or computes over plain values lives here, with contracts:
//! the camera controller (key press to position step and exit flag), the
//! flattening of a loaded mesh's polygon indices into a vertex list, the
//! fixed ground-plane geometry, and the placement of the drawn instances.
//! Window handling, shader compilation, floating-point matrix math and
//! file loading stay outside the library, in the surrounding program.

pub mod camera;
pub mod mesh;
pub mod scene;
