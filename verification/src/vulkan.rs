//! Decisions about the graphics device, the surface and the swapchain.

pub mod command_buffers;
pub mod command_pools;
pub mod fence_semaphores;
pub mod framebuffer;
pub mod graphics;
pub mod pipeline;
pub mod record;
pub mod recreation;
pub mod surface;
pub mod surface_resources;
pub mod swapchain;
pub mod views;
