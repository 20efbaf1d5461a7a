//! Device memory and the resources in it.

pub mod allocator;
pub mod bitmap;
pub mod block_laws;
pub mod frame_alloc;
pub mod readback;
pub mod release;
pub mod resources;
pub mod slab;
pub mod staging;
pub mod typed;
