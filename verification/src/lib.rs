//! A small retained-mode 3D renderer core: a scene graph whose traversal
//! decides, frame by frame, which device resources come into being, which
//! uniforms are rewritten and which draw calls are issued.
//!
//! The library never touches a device. Every resource it asks for is entered
//! in a table and known by its position there; every write and draw is
//! recorded as a plain value. The caller carries the records out: it has the
//! device make what the tables hold and sends the frame's recording to the
//! queue.
//!
//! Numbers that are floating point on the device are held here by their
//! IEEE-754 bit patterns, and the library does no arithmetic on them. A
//! cumulative transform is therefore kept as the run of matrices it is the
//! product of; the caller multiplies and inverts when it fills a node's
//! buffer. Likewise the caller derives from the camera the two things a
//! frame needs of it, and hands the importer the normal of each face.

pub mod engine;
pub mod importer;
pub mod renderer;
pub mod scene;
pub mod util;
