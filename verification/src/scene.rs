//! The scene graph: nodes, meshes, the camera and the scene that holds them.

pub mod camera;
pub mod mesh;
pub mod object3d;
pub mod scene;
