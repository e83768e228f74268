//! A hardware-abstraction graphics backend core: status-code translation,
//! device/instance bootstrap, resource-kind binding, command submission and
//! fence synchronization, verified against a model of the native layer.

pub mod device;
pub mod native;
pub mod resources;
pub mod status;

pub use device::Device;
pub use resources::Fence;
pub use resources::Resources;
pub use status::VkResult;
