//! GPU resource and frame-synchronisation core of a real-time renderer.
//!
//! The crate holds the decisions of the renderer: which swapchain to build,
//! which memory type to pick, in which order GPU objects are made and
//! released, how a command buffer is reused, and how the render loop moves
//! between its states. Every GPU call itself is made by the caller, who
//! performs the action a function hands out and reports what came back.

pub mod app;
pub mod input_manager;
pub mod metrics;
pub mod model;
pub mod shaders;
pub mod vulkan;
pub mod window_state;
