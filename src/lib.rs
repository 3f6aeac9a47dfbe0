//! Frame lifecycle and resource-management core of a single-pipeline
//! forward renderer: the decisions that sit between explicit GPU calls.

pub mod bits;
pub mod commands;
pub mod descriptors;
pub mod device;
pub mod engine;
pub mod error;
pub mod frame;
pub mod memory;
pub mod mipmaps;
pub mod sampling;
pub mod swapchain;
pub mod transfer;
