//! Settings and switches of the surrounding engine.

pub mod mouse_service;
pub mod service;
pub mod winit;
