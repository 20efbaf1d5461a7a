//! Pipelines, descriptors and acceleration structures.

pub mod accel_laws;
pub mod accel_struct;
pub mod binding_laws;
pub mod bindless;
pub mod builder_laws;
pub mod builders;
pub mod cache;
pub mod descriptor;
pub mod renderpass;
