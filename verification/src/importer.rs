//! Turning the polygons and materials of a mesh file into scene nodes.

pub mod defaults;
pub mod obj;
