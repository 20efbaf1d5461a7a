//! Diagnostics for developers.

pub mod vuid_kb;
pub mod vuid_table;
