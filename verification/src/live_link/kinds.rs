//! The numbers that stand for kinds of events and resources and for severities.

use vstd::prelude::*;

verus! {

/// Event kind: a node of the graph is registered or updated.
pub const KIND_NODE_REGISTER: u32 = 1;

/// Event kind: an edge between two nodes is registered.
pub const KIND_EDGE_REGISTER: u32 = 2;

/// Event kind: a submission to a queue completed.
pub const KIND_SUBMISSION: u32 = 3;

/// Event kind: a pass ran.
pub const KIND_PASS: u32 = 4;

/// Event kind: memory was allocated.
pub const KIND_ALLOCATION: u32 = 5;

/// Event kind: memory was freed.
pub const KIND_FREE: u32 = 6;

/// Event kind: a resource changed its layout.
pub const KIND_TRANSITION: u32 = 7;

/// Event kind: a node is removed.
pub const KIND_NODE_REMOVE: u32 = 8;

/// Event kind: an edge becomes active or inactive.
pub const KIND_EDGE_TOGGLE: u32 = 9;

/// Kind of node: a pass.
pub const NODE_KIND_PASS: u32 = 0;

/// Kind of node: a resource.
pub const NODE_KIND_RESOURCE: u32 = 1;

/// Kind of node: a submission.
pub const NODE_KIND_SUBMIT: u32 = 2;

/// Event kind: a handle is bound to a name.
pub const KIND_RESOURCE_NAME: u32 = 10;

/// Event kind: a message of the validation layer.
pub const KIND_VALIDATION: u32 = 11;

/// Event kind: a time that was measured on the device.
pub const KIND_GPU_TIMESTAMP: u32 = 12;

/// Event kind: counters of a pipeline.
pub const KIND_PIPELINE_STATS: u32 = 13;

/// Event kind: the budget of a memory heap.
pub const KIND_BUDGET: u32 = 14;

/// Event kind: a cycle or an unmatched semaphore between queues.
pub const KIND_SYNC_CYCLE_DETECTED: u32 = 15;

/// Event kind: a guard band was overwritten.
pub const KIND_CANARY_CORRUPTION: u32 = 16;

/// Event kind: counters of an allocator with guard bands.
pub const KIND_HARDENED_STATS: u32 = 17;

/// Event kind: a run of a determinism check.
pub const KIND_DETERMINISM_RUN: u32 = 18;

/// Event kind: a capture that differs from that of the first run.
pub const KIND_DETERMINISM_DIVERGENCE: u32 = 19;

/// Event kind: text that did not fit the record before.
pub const KIND_TEXT_CONTINUATION: u32 = 20;

/// Event kind: a message of a shader.
pub const KIND_SHADER_PRINTF: u32 = 21;

/// Event kind: a hang of the device.
pub const KIND_HANG_DETECTED: u32 = 22;

/// Event kind: a breadcrumb of a hang.
pub const KIND_BREADCRUMB: u32 = 23;

/// Event kind: what is known of a lost device.
pub const KIND_DEVICE_FAULT: u32 = 24;

/// Event kind: an object was created.
pub const KIND_OBJECT_REGISTERED: u32 = 25;

/// Event kind: an object was destroyed.
pub const KIND_OBJECT_DESTROYED: u32 = 26;

/// Event kind: a descriptor set refers to a resource that is gone.
pub const KIND_DESCRIPTOR_ISSUE: u32 = 27;

/// Event kind: an access after a write without a barrier.
pub const KIND_ALIASING_CONFLICT: u32 = 28;

/// Event kind: a pipeline does not fit what is bound.
pub const KIND_PIPELINE_ISSUE: u32 = 29;

/// Event kind: a place in the program that allocates.
pub const KIND_ALLOC_SITE_SNAPSHOT: u32 = 30;

/// Pipeline issue: the number of descriptor sets.
pub const PIPELINE_ISSUE_DESCRIPTOR_COUNT: u32 = 0;

/// Pipeline issue: a push constant range outside the layout.
pub const PIPELINE_ISSUE_PUSH_CONSTANT_RANGE: u32 = 1;

/// Pipeline issue: layouts that are not compatible.
pub const PIPELINE_ISSUE_LAYOUT_COMPATIBILITY: u32 = 2;

/// Pipeline issue: shader stages whose interfaces do not match.
pub const PIPELINE_ISSUE_STAGE_INTERFACE: u32 = 3;

/// Kind of resource: `VkBuffer`.
pub const RES_KIND_BUFFER: u32 = 0;

/// Kind of resource: `VkImage`.
pub const RES_KIND_IMAGE: u32 = 1;

/// Kind of resource: `VkDeviceMemory`.
pub const RES_KIND_DEVICE_MEMORY: u32 = 2;

/// Kind of resource: `VkSampler`.
pub const RES_KIND_SAMPLER: u32 = 3;

/// Kind of resource: `VkPipeline`.
pub const RES_KIND_PIPELINE: u32 = 4;

/// Kind of resource: any other.
pub const RES_KIND_OTHER: u32 = 255;

/// Severity of a message: information.
pub const VAL_SEVERITY_INFO: u32 = 0;

/// Severity of a message: warning.
pub const VAL_SEVERITY_WARNING: u32 = 1;

/// Severity of a message: error.
pub const VAL_SEVERITY_ERROR: u32 = 2;

/// Severity of a queue mark: information.
pub const SYNC_SEVERITY_INFO: u32 = 0;

/// Severity of a queue mark: a semaphore is signaled without a waiter, or waited on without a
/// signaler.
pub const SYNC_SEVERITY_ORPHAN: u32 = 1;

/// Severity of a queue mark: submissions wait for each other.
pub const SYNC_SEVERITY_CYCLE: u32 = 2;

} // verus!
