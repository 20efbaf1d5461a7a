//! Live link to a viewer: a ring of fixed-size records in shared memory.

pub mod bridge;
pub mod bridge_laws;
pub mod continuation;
pub mod cross_queue;
pub mod handlers;
pub mod kinds;
pub mod profile;
pub mod readback;
pub mod record;
pub mod report_laws;
pub mod ring;
pub mod wire;
