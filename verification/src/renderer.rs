//! Device resources, materials, lights and the recording of a frame.

pub mod bind_material;
pub mod draw_impl;
pub mod draw_state;
pub mod light;
pub mod material;
pub mod render;
pub mod staging_belt_and_command_encoder;
pub mod wgpu_handles;
