//! Decision logic of a Vulkan orchestration layer.

pub mod api_version;
pub mod choice_laws;
pub mod debug;
pub mod debug_window;
pub mod device;
pub mod diagnostic;
pub mod error;
pub mod format;
pub mod format_laws;
pub mod framegraph;
pub mod live_link;
pub mod memory;
pub mod pipeline;
pub mod queue;
pub mod sums;
pub mod text;
pub mod vulkan;
