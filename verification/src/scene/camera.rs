use vstd::prelude::*;
use crate::util::matrix_util::MuckableMatrix;

verus! {

/// The camera of a scene. A perspective camera is placed by the matrix that
/// takes the world to the camera's own frame and sees what lies between its
/// near and far planes, through a window of the given aspect; the three
/// numbers are held by their single-precision bit patterns. What a frame
/// needs of the camera, the matrix from the world to the clipped view and
/// the position of the eye, is floating-point arithmetic on these fields and
/// reaches the renderer as arguments.
#[derive(Clone, Copy, Debug, PartialEq, Eq)]
pub enum Camera {
    PerspectiveCamera { world_to_local: MuckableMatrix, near: u32, far: u32, aspect: u32 },
}

} // verus!
