//! The GPU resource and frame-orchestration rules of a Vulkan renderer,
//! stated and proved: device and swapchain choices, render targets, shader
//! variants, per-object resource bundles, mesh deduplication, staging-buffer
//! bytes and the per-frame fence protocol. The graphics calls themselves are
//! made by the caller, which hands in what the device reports and performs
//! what these rules decide.

pub mod device;
pub mod frame;
pub mod loader;
pub mod mesh;
pub mod model;
pub mod scene;
pub mod shader;
pub mod swapchain;
pub mod targets;
pub mod texture;
pub mod upload;
pub mod vertex;
