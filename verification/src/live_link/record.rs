//! The events of the live link, one function for each kind.
//!
//! The caller hands in the time. Texts that do not fit their field are cut off there; for messages,
//! descriptions, sources and paths the rest follows in continuation records.

use crate::live_link::continuation;
use crate::live_link::kinds;
use crate::live_link::ring;
use crate::live_link::ring::{Entry, LiveLink};
use crate::live_link::wire;
use vstd::prelude::*;

verus! {

/// The payload of [`LiveLink::record_shader_printf`].
pub open spec fn shader_printf_payload(
    stage: u32, message_id: i32, location: Seq<char>, message: Seq<char>,
) -> Seq<u8> {
    wire::word(stage as int) + wire::word(wire::bits_of(message_id as int)) + wire::zeros(4)
        + wire::field(location, 64) + wire::field(message, 156)
}

/// The payload of [`LiveLink::record_hang_detected`].
pub open spec fn hang_detected_payload(
    fence_handle: u64,
    elapsed_ns: u64,
    label: Seq<char>,
    last_completed_id: u32,
    first_pending_id: u32,
    last_completed_label: Seq<char>,
    first_pending_label: Seq<char>,
    total_breadcrumbs: u32,
) -> Seq<u8> {
    wire::long(fence_handle as int) + wire::long(elapsed_ns as int)
        + wire::word(last_completed_id as int) + wire::word(first_pending_id as int)
        + wire::word(total_breadcrumbs as int) + wire::zeros(4) + wire::field(label, 64)
        + wire::field(last_completed_label, 64) + wire::field(first_pending_label, 64)
}

/// The payload of [`LiveLink::record_breadcrumb`].
pub open spec fn breadcrumb_payload(
    parent_seq: u32, crumb_id: u32, completed: bool, label: Seq<char>,
) -> Seq<u8> {
    wire::word(parent_seq as int) + wire::word(crumb_id as int)
        + wire::word(wire::flag(completed)) + wire::zeros(4) + wire::field(label, 96)
}

/// The payload of [`LiveLink::record_device_fault`].
pub open spec fn device_fault_payload(
    description: Seq<char>,
    address_info_count: u32,
    vendor_info_count: u32,
    vendor_binary_size: u32,
    has_fault_info_ext: bool,
    has_checkpoints_ext: bool,
    has_markers_ext: bool,
    checkpoint_count: u32,
    marker_total: u32,
    marker_fired: u32,
) -> Seq<u8> {
    wire::field(description, 128) + wire::word(address_info_count as int)
        + wire::word(vendor_info_count as int) + wire::word(vendor_binary_size as int)
        + wire::word(wire::flag(has_fault_info_ext))
        + wire::word(wire::flag(has_checkpoints_ext)) + wire::word(wire::flag(has_markers_ext))
        + wire::word(checkpoint_count as int) + wire::word(marker_total as int)
        + wire::word(marker_fired as int)
}

/// The payload of [`LiveLink::record_object_registered`].
pub open spec fn object_registered_payload(
    handle: u64,
    object_type: u32,
    name: Seq<char>,
    creation_file: Seq<char>,
    creation_line: u32,
    creation_column: u32,
    creation_function: Seq<char>,
) -> Seq<u8> {
    wire::long(handle as int) + wire::word(object_type as int)
        + wire::word(creation_line as int) + wire::word(creation_column as int) + wire::zeros(4)
        + wire::field(name, 64) + wire::field(creation_file, 96)
        + wire::field(creation_function, 48)
}

/// The payload of [`LiveLink::record_object_destroyed`].
pub open spec fn object_destroyed_payload(
    handle: u64, object_type: u32, usage_count: u64,
) -> Seq<u8> {
    wire::long(handle as int) + wire::word(object_type as int) + wire::zeros(4)
        + wire::long(usage_count as int)
}

/// The payload of [`LiveLink::record_descriptor_issue`].
pub open spec fn descriptor_issue_payload(
    set_handle: u64,
    binding: u32,
    resource_kind: u32,
    dead_handle: u64,
    set_name: Seq<char>,
    description: Seq<char>,
) -> Seq<u8> {
    wire::long(set_handle as int) + wire::long(dead_handle as int)
        + wire::word(binding as int) + wire::word(resource_kind as int) + wire::zeros(8)
        + wire::field(set_name, 64) + wire::field(description, 96)
}

/// The payload of [`LiveLink::record_aliasing_conflict`].
pub open spec fn aliasing_conflict_payload(
    handle: u64,
    write_op_index: u32,
    conflict_op_index: u32,
    write_stage: u32,
    conflict_stage: u32,
    access_type: u32,
    name: Seq<char>,
    write_label: Seq<char>,
    conflict_label: Seq<char>,
    description: Seq<char>,
) -> Seq<u8> {
    wire::long(handle as int) + wire::word(write_op_index as int)
        + wire::word(conflict_op_index as int) + wire::word(write_stage as int)
        + wire::word(conflict_stage as int) + wire::word(access_type as int) + wire::zeros(4)
        + wire::field(name, 32) + wire::field(write_label, 48) + wire::field(conflict_label, 48)
        + wire::field(description, 64)
}

/// The payload of [`LiveLink::record_pipeline_issue`].
pub open spec fn pipeline_issue_payload(
    pipeline: u64, kind: u32, pipeline_name: Seq<char>, description: Seq<char>,
) -> Seq<u8> {
    wire::long(pipeline as int) + wire::word(kind as int) + wire::zeros(4)
        + wire::field(pipeline_name, 32) + wire::field(description, 156)
}

/// The payload of [`LiveLink::record_alloc_site`].
pub open spec fn alloc_site_payload(
    epoch: u64,
    site_index: u32,
    function: Seq<char>,
    file: Seq<char>,
    line: u32,
    total_allocs: u64,
    total_bytes: u64,
    active_allocs: u64,
    active_bytes: u64,
    peak_active_allocs: u64,
    peak_active_bytes: u64,
) -> Seq<u8> {
    wire::long(epoch as int) + wire::long(total_allocs as int)
        + wire::long(total_bytes as int) + wire::long(active_allocs as int)
        + wire::long(active_bytes as int) + wire::long(peak_active_allocs as int)
        + wire::long(peak_active_bytes as int) + wire::word(line as int)
        + wire::word(site_index as int) + wire::field(function, 64) + wire::field(file, 88)
}

/// The payload of [`LiveLink::record_node`].
pub open spec fn node_payload(
    node_id: u32, kind_tag: u32, label: Seq<char>,
) -> Seq<u8> {
    wire::word(node_id as int) + wire::word(kind_tag as int) + wire::field(label, 64)
}

/// The payload of [`LiveLink::record_node_remove`].
pub open spec fn node_remove_payload(
    node_id: u32,
) -> Seq<u8> {
    wire::word(node_id as int)
}

/// The payload of [`LiveLink::record_edge`].
pub open spec fn edge_payload(
    from: u32, to: u32,
) -> Seq<u8> {
    wire::word(from as int) + wire::word(to as int) + wire::zeros(4)
}

/// The payload of [`LiveLink::record_edge_toggle`].
pub open spec fn edge_toggle_payload(
    from: u32, to: u32, active: bool,
) -> Seq<u8> {
    wire::word(from as int) + wire::word(to as int) + wire::word(wire::flag(active))
}

/// The payload of [`LiveLink::record_pass`].
pub open spec fn pass_payload(
    node_id: u32, label: Seq<char>, duration_ns: u64,
) -> Seq<u8> {
    wire::word(node_id as int) + wire::zeros(4) + wire::long(duration_ns as int)
        + wire::field(label, 64)
}

/// The payload of [`LiveLink::record_submission`].
pub open spec fn submission_payload(
    queue_family: u32, queue_index: u32, label: Seq<char>, duration_ns: u64,
) -> Seq<u8> {
    wire::word(queue_family as int) + wire::word(queue_index as int) + wire::zeros(8)
        + wire::long(duration_ns as int) + wire::field(label, 64)
}

/// The payload of [`LiveLink::record_allocation`].
pub open spec fn allocation_payload(
    memory: u64, offset: u64, size: u64, site: Seq<char>,
) -> Seq<u8> {
    wire::long(memory as int) + wire::long(offset as int) + wire::long(size as int)
        + wire::field(site, 64)
}

/// The payload of [`LiveLink::record_free`].
pub open spec fn free_payload(
    memory: u64, offset: u64, size: u64,
) -> Seq<u8> {
    wire::long(memory as int) + wire::long(offset as int) + wire::long(size as int)
}

/// The payload of [`LiveLink::record_resource_name`].
pub open spec fn resource_name_payload(
    handle: u64, kind: u32, name: Seq<char>,
) -> Seq<u8> {
    wire::long(handle as int) + wire::word(kind as int) + wire::zeros(4)
        + wire::field(name, 64)
}

/// The payload of [`LiveLink::record_validation`].
pub open spec fn validation_payload(
    severity: u32,
    node_id: u32,
    function: Seq<char>,
    vuid: Seq<char>,
    message: Seq<char>,
    object_type: u32,
    object_handle: u64,
) -> Seq<u8> {
    wire::word(severity as int) + wire::word(node_id as int)
        + wire::word(object_type as int) + wire::zeros(4) + wire::long(object_handle as int)
        + wire::field(function, 48) + wire::field(vuid, 64) + wire::field(message, 96)
}

/// The payload of [`LiveLink::record_gpu_timestamp`].
pub open spec fn gpu_timestamp_payload(
    queue_family: u32,
    queue_index: u32,
    stage: u32,
    begin_ns: u64,
    duration_ns: u64,
    label: Seq<char>,
) -> Seq<u8> {
    wire::word(queue_family as int) + wire::word(queue_index as int)
        + wire::word(stage as int) + wire::zeros(4) + wire::long(begin_ns as int)
        + wire::long(duration_ns as int) + wire::field(label, 64)
}

/// The payload of [`LiveLink::record_pipeline_stats`].
pub open spec fn pipeline_stats_payload(
    label: Seq<char>,
    vs_invocations: u64,
    fs_invocations: u64,
    cs_invocations: u64,
    ia_vertices: u64,
    ia_primitives: u64,
    clipping_invocations: u64,
    clipping_primitives: u64,
    gs_invocations: u64,
    gs_primitives: u64,
    tcs_patches: u64,
    tes_invocations: u64,
) -> Seq<u8> {
    wire::long(vs_invocations as int) + wire::long(fs_invocations as int)
        + wire::long(cs_invocations as int) + wire::long(ia_vertices as int)
        + wire::long(ia_primitives as int) + wire::long(clipping_invocations as int)
        + wire::long(clipping_primitives as int) + wire::long(gs_invocations as int)
        + wire::long(gs_primitives as int) + wire::long(tcs_patches as int)
        + wire::long(tes_invocations as int) + wire::field(label, 64)
}

/// The payload of [`LiveLink::record_budget`].
pub open spec fn budget_payload(
    heap_idx: u32,
    flags: u32,
    used: u64,
    budget: u64,
    heap_size: u64,
) -> Seq<u8> {
    wire::word(heap_idx as int) + wire::word(flags as int) + wire::long(used as int)
        + wire::long(budget as int) + wire::long(heap_size as int)
}

/// The payload of [`LiveLink::record_sync_cycle`].
pub open spec fn sync_cycle_payload(
    queue_family: u32,
    queue_index: u32,
    severity: u32,
    ttl_ms: u32,
    related_queue_family: u32,
    related_queue_index: u32,
    description: Seq<char>,
) -> Seq<u8> {
    wire::word(queue_family as int) + wire::word(queue_index as int)
        + wire::word(severity as int) + wire::word(ttl_ms as int)
        + wire::word(related_queue_family as int) + wire::word(related_queue_index as int)
        + wire::zeros(8) + wire::field(description, 96)
}

/// The payload of [`LiveLink::record_canary_corruption`].
pub open spec fn canary_corruption_payload(
    memory: u64,
    user_offset: u64,
    user_size: u64,
    guard_size: u64,
    canary: u64,
    region: u32,
    severity: u32,
    first_corrupted_byte: u32,
    corrupted_count: u32,
    expected_byte: u8,
    actual_byte: u8,
    hex_expected: Seq<u8>,
    hex_actual: Seq<u8>,
    source: Seq<char>,
    description: Seq<char>,
) -> Seq<u8> {
    wire::long(memory as int) + wire::long(user_offset as int)
        + wire::long(user_size as int) + wire::long(guard_size as int)
        + wire::long(canary as int) + wire::word(region as int) + wire::word(severity as int)
        + wire::word(first_corrupted_byte as int) + wire::word(corrupted_count as int)
        + seq![expected_byte] + seq![actual_byte] + wire::zeros(6) + hex_expected + hex_actual
        + wire::field(source, 48) + wire::field(description, 80)
}

/// The payload of [`LiveLink::record_hardened_stats`].
pub open spec fn hardened_stats_payload(
    total_allocs: u64,
    total_frees: u64,
    active_allocs: u64,
    active_bytes: u64,
    quarantine_entries: u64,
    quarantine_bytes: u64,
    corruptions_detected: u64,
    peak_allocs: u64,
    peak_bytes: u64,
) -> Seq<u8> {
    wire::long(total_allocs as int) + wire::long(total_frees as int)
        + wire::long(active_allocs as int) + wire::long(active_bytes as int)
        + wire::long(quarantine_entries as int) + wire::long(quarantine_bytes as int)
        + wire::long(corruptions_detected as int) + wire::long(peak_allocs as int)
        + wire::long(peak_bytes as int)
}

/// The payload of [`LiveLink::record_determinism_run`].
pub open spec fn determinism_run_payload(
    run_index: u32,
    seed: u64,
    frame_idx: u32,
    buffer_count: u32,
    image_count: u32,
    aggregate_hash: u64,
    matches_baseline: bool,
    session_label: Seq<char>,
) -> Seq<u8> {
    wire::long(aggregate_hash as int) + wire::long(seed as int)
        + wire::word(run_index as int) + wire::word(frame_idx as int)
        + wire::word(buffer_count as int) + wire::word(image_count as int)
        + wire::word(wire::flag(matches_baseline)) + wire::zeros(4)
        + wire::field(session_label, 64)
}

/// The payload of [`LiveLink::record_determinism_divergence`].
pub open spec fn determinism_divergence_payload(
    run_index: u32,
    capture_kind: u32,
    baseline_hash: u64,
    current_hash: u64,
    dim_a: u32,
    dim_b: u32,
    capture_label: Seq<char>,
    diff_bitmap_path: Seq<char>,
) -> Seq<u8> {
    wire::long(baseline_hash as int) + wire::long(current_hash as int)
        + wire::word(run_index as int) + wire::word(capture_kind as int)
        + wire::word(dim_a as int) + wire::word(dim_b as int) + wire::field(capture_label, 64)
        + wire::field(diff_bitmap_path, 96)
}

/// The records of [`LiveLink::record_shader_printf`] where the first gets a number.
pub open spec fn shader_printf_entries(
    now_ns: u64,
    seq: int,
    stage: u32,
    message_id: i32,
    location: Seq<char>,
    message: Seq<char>,
) -> Seq<Entry> {
    seq![
        Entry {
            now_ns,
            kind: kinds::KIND_SHADER_PRINTF,
            payload: shader_printf_payload(
                stage, message_id, location, message,
            ),
        },
    ] + continuation::overflow_entries(
        now_ns,
        seq,
        1,
        message,
        155,
    ) + continuation::overflow_entries(
        now_ns,
        seq,
        2,
        location,
        63,
    )
}

/// The records of [`LiveLink::record_device_fault`] where the first gets a number.
pub open spec fn device_fault_entries(
    now_ns: u64,
    seq: int,
    description: Seq<char>,
    address_info_count: u32,
    vendor_info_count: u32,
    vendor_binary_size: u32,
    has_fault_info_ext: bool,
    has_checkpoints_ext: bool,
    has_markers_ext: bool,
    checkpoint_count: u32,
    marker_total: u32,
    marker_fired: u32,
) -> Seq<Entry> {
    seq![
        Entry {
            now_ns,
            kind: kinds::KIND_DEVICE_FAULT,
            payload: device_fault_payload(
                description,
                address_info_count,
                vendor_info_count,
                vendor_binary_size,
                has_fault_info_ext,
                has_checkpoints_ext,
                has_markers_ext,
                checkpoint_count,
                marker_total,
                marker_fired,
            ),
        },
    ] + continuation::overflow_entries(
        now_ns,
        seq,
        0,
        description,
        127,
    )
}

/// The records of [`LiveLink::record_pipeline_issue`] where the first gets a number.
pub open spec fn pipeline_issue_entries(
    now_ns: u64,
    seq: int,
    pipeline: u64,
    kind: u32,
    pipeline_name: Seq<char>,
    description: Seq<char>,
) -> Seq<Entry> {
    seq![
        Entry {
            now_ns,
            kind: kinds::KIND_PIPELINE_ISSUE,
            payload: pipeline_issue_payload(
                pipeline, kind, pipeline_name, description,
            ),
        },
    ] + continuation::overflow_entries(
        now_ns,
        seq,
        0,
        description,
        155,
    )
}

/// The records of [`LiveLink::record_validation`] where the first gets a number.
pub open spec fn validation_entries(
    now_ns: u64,
    seq: int,
    severity: u32,
    node_id: u32,
    function: Seq<char>,
    vuid: Seq<char>,
    message: Seq<char>,
    object_type: u32,
    object_handle: u64,
) -> Seq<Entry> {
    seq![
        Entry {
            now_ns,
            kind: kinds::KIND_VALIDATION,
            payload: validation_payload(
                severity,
                node_id,
                function,
                vuid,
                message,
                object_type,
                object_handle,
            ),
        },
    ] + continuation::overflow_entries(
        now_ns,
        seq,
        1,
        message,
        95,
    )
}

/// The records of [`LiveLink::record_canary_corruption`] where the first gets a number.
pub open spec fn canary_corruption_entries(
    now_ns: u64,
    seq: int,
    memory: u64,
    user_offset: u64,
    user_size: u64,
    guard_size: u64,
    canary: u64,
    region: u32,
    severity: u32,
    first_corrupted_byte: u32,
    corrupted_count: u32,
    expected_byte: u8,
    actual_byte: u8,
    hex_expected: Seq<u8>,
    hex_actual: Seq<u8>,
    source: Seq<char>,
    description: Seq<char>,
) -> Seq<Entry> {
    seq![
        Entry {
            now_ns,
            kind: kinds::KIND_CANARY_CORRUPTION,
            payload: canary_corruption_payload(
                memory,
                user_offset,
                user_size,
                guard_size,
                canary,
                region,
                severity,
                first_corrupted_byte,
                corrupted_count,
                expected_byte,
                actual_byte,
                hex_expected,
                hex_actual,
                source,
                description,
            ),
        },
    ] + continuation::overflow_entries(
        now_ns,
        seq,
        0,
        description,
        79,
    ) + continuation::overflow_entries(
        now_ns,
        seq,
        2,
        source,
        47,
    )
}

/// The records of [`LiveLink::record_determinism_divergence`] where the first gets a number.
pub open spec fn determinism_divergence_entries(
    now_ns: u64,
    seq: int,
    run_index: u32,
    capture_kind: u32,
    baseline_hash: u64,
    current_hash: u64,
    dim_a: u32,
    dim_b: u32,
    capture_label: Seq<char>,
    diff_bitmap_path: Seq<char>,
) -> Seq<Entry> {
    seq![
        Entry {
            now_ns,
            kind: kinds::KIND_DETERMINISM_DIVERGENCE,
            payload: determinism_divergence_payload(
                run_index,
                capture_kind,
                baseline_hash,
                current_hash,
                dim_a,
                dim_b,
                capture_label,
                diff_bitmap_path,
            ),
        },
    ] + continuation::overflow_entries(
        now_ns,
        seq,
        0,
        diff_bitmap_path,
        95,
    )
}

impl LiveLink {
    /// Records a message of a shader. The stage is 0 where unknown, else 1 vertex, 2 fragment, 3 compute,
    /// 4 raygen, 5 miss, 6 closest hit, 7 any hit, 8 intersection, 9 callable, 10 task, 11 mesh,
    /// 12 tessellation control, 13 tessellation evaluation, 14 geometry.
    pub fn record_shader_printf(
        &mut self,
        now_ns: u64,
        stage: u32,
        message_id: i32,
        location: &str,
        message: &str,
    )
        requires
            old(self)@.wf(),
        ensures
            final(self)@.wf(),
            final(self)@ == old(self)@.submitted_all(
                shader_printf_entries(
                    now_ns,
                    old(self)@.next_seq(),
                    stage,
                    message_id,
                    location@,
                    message@,
                ),
            ),
    {
        let ghost before = self@;
        let mut p: Vec<u8> = Vec::new();
        wire::push_word(&mut p, stage);
        assert(p@ =~= wire::word(stage as int));
        wire::push_signed(&mut p, message_id);
        wire::push_zeros(&mut p, 4);
        wire::push_field(&mut p, location, 64);
        wire::push_field(&mut p, message, 156);
        let ghost e = Entry { now_ns, kind: kinds::KIND_SHADER_PRINTF, payload: p@ };
        let seq: u32 = self.submit(now_ns, kinds::KIND_SHADER_PRINTF, p);
        proof {
            ring::lemma_submitted_one(before, e);
        }
        self.submit_overflow(now_ns, seq, 1, message, 155);
        proof {
            ring::lemma_submitted_parts(
                before,
                seq![e],
                continuation::overflow_entries(now_ns, seq as int, 1, message@, 155),
            );
        }
        self.submit_overflow(now_ns, seq, 2, location, 63);
        proof {
            ring::lemma_submitted_parts(
                before,
                seq![e] + continuation::overflow_entries(now_ns, seq as int, 1, message@, 155),
                continuation::overflow_entries(now_ns, seq as int, 2, location@, 63),
            );
        }
    }

    /// Records a hang. The number that comes back is what the breadcrumbs of the hang refer to.
    pub fn record_hang_detected(
        &mut self,
        now_ns: u64,
        fence_handle: u64,
        elapsed_ns: u64,
        label: &str,
        last_completed_id: u32,
        first_pending_id: u32,
        last_completed_label: &str,
        first_pending_label: &str,
        total_breadcrumbs: u32,
    ) -> (seq: u32)
        requires
            old(self)@.wf(),
        ensures
            final(self)@.wf(),
            final(self)@ == old(self)@.submitted(
                Entry {
                    now_ns,
                    kind: kinds::KIND_HANG_DETECTED,
                    payload: hang_detected_payload(
                        fence_handle,
                        elapsed_ns,
                        label@,
                        last_completed_id,
                        first_pending_id,
                        last_completed_label@,
                        first_pending_label@,
                        total_breadcrumbs,
                    ),
                },
            ),
            seq == old(self)@.next_seq(),
    {
        let mut p: Vec<u8> = Vec::new();
        wire::push_long(&mut p, fence_handle);
        assert(p@ =~= wire::long(fence_handle as int));
        wire::push_long(&mut p, elapsed_ns);
        wire::push_word(&mut p, last_completed_id);
        wire::push_word(&mut p, first_pending_id);
        wire::push_word(&mut p, total_breadcrumbs);
        wire::push_zeros(&mut p, 4);
        wire::push_field(&mut p, label, 64);
        wire::push_field(&mut p, last_completed_label, 64);
        wire::push_field(&mut p, first_pending_label, 64);
        self.submit(now_ns, kinds::KIND_HANG_DETECTED, p)
    }

    /// Records a breadcrumb of a hang that was recorded before.
    pub fn record_breadcrumb(
        &mut self,
        now_ns: u64,
        parent_seq: u32,
        crumb_id: u32,
        completed: bool,
        label: &str,
    )
        requires
            old(self)@.wf(),
        ensures
            final(self)@.wf(),
            final(self)@ == old(self)@.submitted(
                Entry {
                    now_ns,
                    kind: kinds::KIND_BREADCRUMB,
                    payload: breadcrumb_payload(
                        parent_seq, crumb_id, completed, label@,
                    ),
                },
            ),
    {
        let mut p: Vec<u8> = Vec::new();
        wire::push_word(&mut p, parent_seq);
        assert(p@ =~= wire::word(parent_seq as int));
        wire::push_word(&mut p, crumb_id);
        wire::push_flag(&mut p, completed);
        wire::push_zeros(&mut p, 4);
        wire::push_field(&mut p, label, 96);
        self.submit(now_ns, kinds::KIND_BREADCRUMB, p);
    }

    /// Records what is known of a lost device.
    pub fn record_device_fault(
        &mut self,
        now_ns: u64,
        description: &str,
        address_info_count: u32,
        vendor_info_count: u32,
        vendor_binary_size: u32,
        has_fault_info_ext: bool,
        has_checkpoints_ext: bool,
        has_markers_ext: bool,
        checkpoint_count: u32,
        marker_total: u32,
        marker_fired: u32,
    )
        requires
            old(self)@.wf(),
        ensures
            final(self)@.wf(),
            final(self)@ == old(self)@.submitted_all(
                device_fault_entries(
                    now_ns,
                    old(self)@.next_seq(),
                    description@,
                    address_info_count,
                    vendor_info_count,
                    vendor_binary_size,
                    has_fault_info_ext,
                    has_checkpoints_ext,
                    has_markers_ext,
                    checkpoint_count,
                    marker_total,
                    marker_fired,
                ),
            ),
    {
        let ghost before = self@;
        let mut p: Vec<u8> = Vec::new();
        wire::push_field(&mut p, description, 128);
        assert(p@ =~= wire::field(description@, 128));
        wire::push_word(&mut p, address_info_count);
        wire::push_word(&mut p, vendor_info_count);
        wire::push_word(&mut p, vendor_binary_size);
        wire::push_flag(&mut p, has_fault_info_ext);
        wire::push_flag(&mut p, has_checkpoints_ext);
        wire::push_flag(&mut p, has_markers_ext);
        wire::push_word(&mut p, checkpoint_count);
        wire::push_word(&mut p, marker_total);
        wire::push_word(&mut p, marker_fired);
        let ghost e = Entry { now_ns, kind: kinds::KIND_DEVICE_FAULT, payload: p@ };
        let seq: u32 = self.submit(now_ns, kinds::KIND_DEVICE_FAULT, p);
        proof {
            ring::lemma_submitted_one(before, e);
        }
        self.submit_overflow(now_ns, seq, 0, description, 127);
        proof {
            ring::lemma_submitted_parts(
                before,
                seq![e],
                continuation::overflow_entries(now_ns, seq as int, 0, description@, 127),
            );
        }
    }

    /// Records that an object was created, and where.
    pub fn record_object_registered(
        &mut self,
        now_ns: u64,
        handle: u64,
        object_type: u32,
        name: &str,
        creation_file: &str,
        creation_line: u32,
        creation_column: u32,
        creation_function: &str,
    )
        requires
            old(self)@.wf(),
        ensures
            final(self)@.wf(),
            final(self)@ == old(self)@.submitted(
                Entry {
                    now_ns,
                    kind: kinds::KIND_OBJECT_REGISTERED,
                    payload: object_registered_payload(
                        handle,
                        object_type,
                        name@,
                        creation_file@,
                        creation_line,
                        creation_column,
                        creation_function@,
                    ),
                },
            ),
    {
        let mut p: Vec<u8> = Vec::new();
        wire::push_long(&mut p, handle);
        assert(p@ =~= wire::long(handle as int));
        wire::push_word(&mut p, object_type);
        wire::push_word(&mut p, creation_line);
        wire::push_word(&mut p, creation_column);
        wire::push_zeros(&mut p, 4);
        wire::push_field(&mut p, name, 64);
        wire::push_field(&mut p, creation_file, 96);
        wire::push_field(&mut p, creation_function, 48);
        self.submit(now_ns, kinds::KIND_OBJECT_REGISTERED, p);
    }

    /// Records that an object was destroyed, and how often it was used.
    pub fn record_object_destroyed(
        &mut self,
        now_ns: u64,
        handle: u64,
        object_type: u32,
        usage_count: u64,
    )
        requires
            old(self)@.wf(),
        ensures
            final(self)@.wf(),
            final(self)@ == old(self)@.submitted(
                Entry {
                    now_ns,
                    kind: kinds::KIND_OBJECT_DESTROYED,
                    payload: object_destroyed_payload(
                        handle, object_type, usage_count,
                    ),
                },
            ),
    {
        let mut p: Vec<u8> = Vec::new();
        wire::push_long(&mut p, handle);
        assert(p@ =~= wire::long(handle as int));
        wire::push_word(&mut p, object_type);
        wire::push_zeros(&mut p, 4);
        wire::push_long(&mut p, usage_count);
        self.submit(now_ns, kinds::KIND_OBJECT_DESTROYED, p);
    }

    /// Records that a descriptor set refers to a resource that is gone.
    pub fn record_descriptor_issue(
        &mut self,
        now_ns: u64,
        set_handle: u64,
        binding: u32,
        resource_kind: u32,
        dead_handle: u64,
        set_name: &str,
        description: &str,
    )
        requires
            old(self)@.wf(),
        ensures
            final(self)@.wf(),
            final(self)@ == old(self)@.submitted(
                Entry {
                    now_ns,
                    kind: kinds::KIND_DESCRIPTOR_ISSUE,
                    payload: descriptor_issue_payload(
                        set_handle,
                        binding,
                        resource_kind,
                        dead_handle,
                        set_name@,
                        description@,
                    ),
                },
            ),
    {
        let mut p: Vec<u8> = Vec::new();
        wire::push_long(&mut p, set_handle);
        assert(p@ =~= wire::long(set_handle as int));
        wire::push_long(&mut p, dead_handle);
        wire::push_word(&mut p, binding);
        wire::push_word(&mut p, resource_kind);
        wire::push_zeros(&mut p, 8);
        wire::push_field(&mut p, set_name, 64);
        wire::push_field(&mut p, description, 96);
        self.submit(now_ns, kinds::KIND_DESCRIPTOR_ISSUE, p);
    }

    /// Records that a resource was accessed after a write without a barrier. The access type is 0 for a
    /// read and 1 for a write.
    pub fn record_aliasing_conflict(
        &mut self,
        now_ns: u64,
        handle: u64,
        write_op_index: u32,
        conflict_op_index: u32,
        write_stage: u32,
        conflict_stage: u32,
        access_type: u32,
        name: &str,
        write_label: &str,
        conflict_label: &str,
        description: &str,
    )
        requires
            old(self)@.wf(),
        ensures
            final(self)@.wf(),
            final(self)@ == old(self)@.submitted(
                Entry {
                    now_ns,
                    kind: kinds::KIND_ALIASING_CONFLICT,
                    payload: aliasing_conflict_payload(
                        handle,
                        write_op_index,
                        conflict_op_index,
                        write_stage,
                        conflict_stage,
                        access_type,
                        name@,
                        write_label@,
                        conflict_label@,
                        description@,
                    ),
                },
            ),
    {
        let mut p: Vec<u8> = Vec::new();
        wire::push_long(&mut p, handle);
        assert(p@ =~= wire::long(handle as int));
        wire::push_word(&mut p, write_op_index);
        wire::push_word(&mut p, conflict_op_index);
        wire::push_word(&mut p, write_stage);
        wire::push_word(&mut p, conflict_stage);
        wire::push_word(&mut p, access_type);
        wire::push_zeros(&mut p, 4);
        wire::push_field(&mut p, name, 32);
        wire::push_field(&mut p, write_label, 48);
        wire::push_field(&mut p, conflict_label, 48);
        wire::push_field(&mut p, description, 64);
        self.submit(now_ns, kinds::KIND_ALIASING_CONFLICT, p);
    }

    /// Records that a pipeline does not fit what is bound.
    pub fn record_pipeline_issue(
        &mut self,
        now_ns: u64,
        pipeline: u64,
        kind: u32,
        pipeline_name: &str,
        description: &str,
    )
        requires
            old(self)@.wf(),
        ensures
            final(self)@.wf(),
            final(self)@ == old(self)@.submitted_all(
                pipeline_issue_entries(
                    now_ns,
                    old(self)@.next_seq(),
                    pipeline,
                    kind,
                    pipeline_name@,
                    description@,
                ),
            ),
    {
        let ghost before = self@;
        let mut p: Vec<u8> = Vec::new();
        wire::push_long(&mut p, pipeline);
        assert(p@ =~= wire::long(pipeline as int));
        wire::push_word(&mut p, kind);
        wire::push_zeros(&mut p, 4);
        wire::push_field(&mut p, pipeline_name, 32);
        wire::push_field(&mut p, description, 156);
        let ghost e = Entry { now_ns, kind: kinds::KIND_PIPELINE_ISSUE, payload: p@ };
        let seq: u32 = self.submit(now_ns, kinds::KIND_PIPELINE_ISSUE, p);
        proof {
            ring::lemma_submitted_one(before, e);
        }
        self.submit_overflow(now_ns, seq, 0, description, 155);
        proof {
            ring::lemma_submitted_parts(
                before,
                seq![e],
                continuation::overflow_entries(now_ns, seq as int, 0, description@, 155),
            );
        }
    }

    /// Records a place in the program that allocates. The places of one snapshot share an epoch, and the
    /// index is the rank within it.
    pub fn record_alloc_site(
        &mut self,
        now_ns: u64,
        epoch: u64,
        site_index: u32,
        function: &str,
        file: &str,
        line: u32,
        total_allocs: u64,
        total_bytes: u64,
        active_allocs: u64,
        active_bytes: u64,
        peak_active_allocs: u64,
        peak_active_bytes: u64,
    )
        requires
            old(self)@.wf(),
        ensures
            final(self)@.wf(),
            final(self)@ == old(self)@.submitted(
                Entry {
                    now_ns,
                    kind: kinds::KIND_ALLOC_SITE_SNAPSHOT,
                    payload: alloc_site_payload(
                        epoch,
                        site_index,
                        function@,
                        file@,
                        line,
                        total_allocs,
                        total_bytes,
                        active_allocs,
                        active_bytes,
                        peak_active_allocs,
                        peak_active_bytes,
                    ),
                },
            ),
    {
        let mut p: Vec<u8> = Vec::new();
        wire::push_long(&mut p, epoch);
        assert(p@ =~= wire::long(epoch as int));
        wire::push_long(&mut p, total_allocs);
        wire::push_long(&mut p, total_bytes);
        wire::push_long(&mut p, active_allocs);
        wire::push_long(&mut p, active_bytes);
        wire::push_long(&mut p, peak_active_allocs);
        wire::push_long(&mut p, peak_active_bytes);
        wire::push_word(&mut p, line);
        wire::push_word(&mut p, site_index);
        wire::push_field(&mut p, function, 64);
        wire::push_field(&mut p, file, 88);
        self.submit(now_ns, kinds::KIND_ALLOC_SITE_SNAPSHOT, p);
    }

    /// Registers or updates a node of the graph.
    pub fn record_node(
        &mut self,
        now_ns: u64,
        node_id: u32,
        kind_tag: u32,
        label: &str,
    )
        requires
            old(self)@.wf(),
        ensures
            final(self)@.wf(),
            final(self)@ == old(self)@.submitted(
                Entry {
                    now_ns,
                    kind: kinds::KIND_NODE_REGISTER,
                    payload: node_payload(
                        node_id, kind_tag, label@,
                    ),
                },
            ),
    {
        let mut p: Vec<u8> = Vec::new();
        wire::push_word(&mut p, node_id);
        assert(p@ =~= wire::word(node_id as int));
        wire::push_word(&mut p, kind_tag);
        wire::push_field(&mut p, label, 64);
        self.submit(now_ns, kinds::KIND_NODE_REGISTER, p);
    }

    /// Removes a node and the edges at it.
    pub fn record_node_remove(
        &mut self, now_ns: u64, node_id: u32,
    )
        requires
            old(self)@.wf(),
        ensures
            final(self)@.wf(),
            final(self)@ == old(self)@.submitted(
                Entry {
                    now_ns,
                    kind: kinds::KIND_NODE_REMOVE,
                    payload: node_remove_payload(
                        node_id,
                    ),
                },
            ),
    {
        let mut p: Vec<u8> = Vec::new();
        wire::push_word(&mut p, node_id);
        assert(p@ =~= wire::word(node_id as int));
        self.submit(now_ns, kinds::KIND_NODE_REMOVE, p);
    }

    /// Registers an edge between two nodes.
    pub fn record_edge(
        &mut self, now_ns: u64, from: u32, to: u32,
    )
        requires
            old(self)@.wf(),
        ensures
            final(self)@.wf(),
            final(self)@ == old(self)@.submitted(
                Entry {
                    now_ns,
                    kind: kinds::KIND_EDGE_REGISTER,
                    payload: edge_payload(
                        from, to,
                    ),
                },
            ),
    {
        let mut p: Vec<u8> = Vec::new();
        wire::push_word(&mut p, from);
        assert(p@ =~= wire::word(from as int));
        wire::push_word(&mut p, to);
        wire::push_zeros(&mut p, 4);
        self.submit(now_ns, kinds::KIND_EDGE_REGISTER, p);
    }

    /// Shows an edge as active or not.
    pub fn record_edge_toggle(
        &mut self,
        now_ns: u64,
        from: u32,
        to: u32,
        active: bool,
    )
        requires
            old(self)@.wf(),
        ensures
            final(self)@.wf(),
            final(self)@ == old(self)@.submitted(
                Entry {
                    now_ns,
                    kind: kinds::KIND_EDGE_TOGGLE,
                    payload: edge_toggle_payload(
                        from, to, active,
                    ),
                },
            ),
    {
        let mut p: Vec<u8> = Vec::new();
        wire::push_word(&mut p, from);
        assert(p@ =~= wire::word(from as int));
        wire::push_word(&mut p, to);
        wire::push_flag(&mut p, active);
        self.submit(now_ns, kinds::KIND_EDGE_TOGGLE, p);
    }

    /// Records that a pass ran.
    pub fn record_pass(
        &mut self,
        now_ns: u64,
        node_id: u32,
        label: &str,
        duration_ns: u64,
    )
        requires
            old(self)@.wf(),
        ensures
            final(self)@.wf(),
            final(self)@ == old(self)@.submitted(
                Entry {
                    now_ns,
                    kind: kinds::KIND_PASS,
                    payload: pass_payload(
                        node_id, label@, duration_ns,
                    ),
                },
            ),
    {
        let mut p: Vec<u8> = Vec::new();
        wire::push_word(&mut p, node_id);
        assert(p@ =~= wire::word(node_id as int));
        wire::push_zeros(&mut p, 4);
        wire::push_long(&mut p, duration_ns);
        wire::push_field(&mut p, label, 64);
        self.submit(now_ns, kinds::KIND_PASS, p);
    }

    /// Records that a submission to a queue completed.
    pub fn record_submission(
        &mut self,
        now_ns: u64,
        queue_family: u32,
        queue_index: u32,
        label: &str,
        duration_ns: u64,
    )
        requires
            old(self)@.wf(),
        ensures
            final(self)@.wf(),
            final(self)@ == old(self)@.submitted(
                Entry {
                    now_ns,
                    kind: kinds::KIND_SUBMISSION,
                    payload: submission_payload(
                        queue_family, queue_index, label@, duration_ns,
                    ),
                },
            ),
    {
        let mut p: Vec<u8> = Vec::new();
        wire::push_word(&mut p, queue_family);
        assert(p@ =~= wire::word(queue_family as int));
        wire::push_word(&mut p, queue_index);
        wire::push_zeros(&mut p, 8);
        wire::push_long(&mut p, duration_ns);
        wire::push_field(&mut p, label, 64);
        self.submit(now_ns, kinds::KIND_SUBMISSION, p);
    }

    /// Records an allocation.
    pub fn record_allocation(
        &mut self,
        now_ns: u64,
        memory: u64,
        offset: u64,
        size: u64,
        site: &str,
    )
        requires
            old(self)@.wf(),
        ensures
            final(self)@.wf(),
            final(self)@ == old(self)@.submitted(
                Entry {
                    now_ns,
                    kind: kinds::KIND_ALLOCATION,
                    payload: allocation_payload(
                        memory, offset, size, site@,
                    ),
                },
            ),
    {
        let mut p: Vec<u8> = Vec::new();
        wire::push_long(&mut p, memory);
        assert(p@ =~= wire::long(memory as int));
        wire::push_long(&mut p, offset);
        wire::push_long(&mut p, size);
        wire::push_field(&mut p, site, 64);
        self.submit(now_ns, kinds::KIND_ALLOCATION, p);
    }

    /// Records that an allocation was freed.
    pub fn record_free(
        &mut self,
        now_ns: u64,
        memory: u64,
        offset: u64,
        size: u64,
    )
        requires
            old(self)@.wf(),
        ensures
            final(self)@.wf(),
            final(self)@ == old(self)@.submitted(
                Entry {
                    now_ns,
                    kind: kinds::KIND_FREE,
                    payload: free_payload(
                        memory, offset, size,
                    ),
                },
            ),
    {
        let mut p: Vec<u8> = Vec::new();
        wire::push_long(&mut p, memory);
        assert(p@ =~= wire::long(memory as int));
        wire::push_long(&mut p, offset);
        wire::push_long(&mut p, size);
        self.submit(now_ns, kinds::KIND_FREE, p);
    }

    /// Binds a handle to a name.
    pub fn record_resource_name(
        &mut self,
        now_ns: u64,
        handle: u64,
        kind: u32,
        name: &str,
    )
        requires
            old(self)@.wf(),
        ensures
            final(self)@.wf(),
            final(self)@ == old(self)@.submitted(
                Entry {
                    now_ns,
                    kind: kinds::KIND_RESOURCE_NAME,
                    payload: resource_name_payload(
                        handle, kind, name@,
                    ),
                },
            ),
    {
        let mut p: Vec<u8> = Vec::new();
        wire::push_long(&mut p, handle);
        assert(p@ =~= wire::long(handle as int));
        wire::push_word(&mut p, kind);
        wire::push_zeros(&mut p, 4);
        wire::push_field(&mut p, name, 64);
        self.submit(now_ns, kinds::KIND_RESOURCE_NAME, p);
    }

    /// Records a message of the validation layer.
    pub fn record_validation(
        &mut self,
        now_ns: u64,
        severity: u32,
        node_id: u32,
        function: &str,
        vuid: &str,
        message: &str,
        object_type: u32,
        object_handle: u64,
    )
        requires
            old(self)@.wf(),
        ensures
            final(self)@.wf(),
            final(self)@ == old(self)@.submitted_all(
                validation_entries(
                    now_ns,
                    old(self)@.next_seq(),
                    severity,
                    node_id,
                    function@,
                    vuid@,
                    message@,
                    object_type,
                    object_handle,
                ),
            ),
    {
        let ghost before = self@;
        let mut p: Vec<u8> = Vec::new();
        wire::push_word(&mut p, severity);
        assert(p@ =~= wire::word(severity as int));
        wire::push_word(&mut p, node_id);
        wire::push_word(&mut p, object_type);
        wire::push_zeros(&mut p, 4);
        wire::push_long(&mut p, object_handle);
        wire::push_field(&mut p, function, 48);
        wire::push_field(&mut p, vuid, 64);
        wire::push_field(&mut p, message, 96);
        let ghost e = Entry { now_ns, kind: kinds::KIND_VALIDATION, payload: p@ };
        let seq: u32 = self.submit(now_ns, kinds::KIND_VALIDATION, p);
        proof {
            ring::lemma_submitted_one(before, e);
        }
        self.submit_overflow(now_ns, seq, 1, message, 95);
        proof {
            ring::lemma_submitted_parts(
                before,
                seq![e],
                continuation::overflow_entries(now_ns, seq as int, 1, message@, 95),
            );
        }
    }

    /// Records a time that was measured on the device.
    pub fn record_gpu_timestamp(
        &mut self,
        now_ns: u64,
        queue_family: u32,
        queue_index: u32,
        stage: u32,
        begin_ns: u64,
        duration_ns: u64,
        label: &str,
    )
        requires
            old(self)@.wf(),
        ensures
            final(self)@.wf(),
            final(self)@ == old(self)@.submitted(
                Entry {
                    now_ns,
                    kind: kinds::KIND_GPU_TIMESTAMP,
                    payload: gpu_timestamp_payload(
                        queue_family,
                        queue_index,
                        stage,
                        begin_ns,
                        duration_ns,
                        label@,
                    ),
                },
            ),
    {
        let mut p: Vec<u8> = Vec::new();
        wire::push_word(&mut p, queue_family);
        assert(p@ =~= wire::word(queue_family as int));
        wire::push_word(&mut p, queue_index);
        wire::push_word(&mut p, stage);
        wire::push_zeros(&mut p, 4);
        wire::push_long(&mut p, begin_ns);
        wire::push_long(&mut p, duration_ns);
        wire::push_field(&mut p, label, 64);
        self.submit(now_ns, kinds::KIND_GPU_TIMESTAMP, p);
    }

    /// Records the counters of a pipeline.
    pub fn record_pipeline_stats(
        &mut self,
        now_ns: u64,
        label: &str,
        vs_invocations: u64,
        fs_invocations: u64,
        cs_invocations: u64,
        ia_vertices: u64,
        ia_primitives: u64,
        clipping_invocations: u64,
        clipping_primitives: u64,
        gs_invocations: u64,
        gs_primitives: u64,
        tcs_patches: u64,
        tes_invocations: u64,
    )
        requires
            old(self)@.wf(),
        ensures
            final(self)@.wf(),
            final(self)@ == old(self)@.submitted(
                Entry {
                    now_ns,
                    kind: kinds::KIND_PIPELINE_STATS,
                    payload: pipeline_stats_payload(
                        label@,
                        vs_invocations,
                        fs_invocations,
                        cs_invocations,
                        ia_vertices,
                        ia_primitives,
                        clipping_invocations,
                        clipping_primitives,
                        gs_invocations,
                        gs_primitives,
                        tcs_patches,
                        tes_invocations,
                    ),
                },
            ),
    {
        let mut p: Vec<u8> = Vec::new();
        wire::push_long(&mut p, vs_invocations);
        assert(p@ =~= wire::long(vs_invocations as int));
        wire::push_long(&mut p, fs_invocations);
        wire::push_long(&mut p, cs_invocations);
        wire::push_long(&mut p, ia_vertices);
        wire::push_long(&mut p, ia_primitives);
        wire::push_long(&mut p, clipping_invocations);
        wire::push_long(&mut p, clipping_primitives);
        wire::push_long(&mut p, gs_invocations);
        wire::push_long(&mut p, gs_primitives);
        wire::push_long(&mut p, tcs_patches);
        wire::push_long(&mut p, tes_invocations);
        wire::push_field(&mut p, label, 64);
        self.submit(now_ns, kinds::KIND_PIPELINE_STATS, p);
    }

    /// Records the budget of a memory heap.
    pub fn record_budget(
        &mut self,
        now_ns: u64,
        heap_idx: u32,
        flags: u32,
        used: u64,
        budget: u64,
        heap_size: u64,
    )
        requires
            old(self)@.wf(),
        ensures
            final(self)@.wf(),
            final(self)@ == old(self)@.submitted(
                Entry {
                    now_ns,
                    kind: kinds::KIND_BUDGET,
                    payload: budget_payload(
                        heap_idx,
                        flags,
                        used,
                        budget,
                        heap_size,
                    ),
                },
            ),
    {
        let mut p: Vec<u8> = Vec::new();
        wire::push_word(&mut p, heap_idx);
        assert(p@ =~= wire::word(heap_idx as int));
        wire::push_word(&mut p, flags);
        wire::push_long(&mut p, used);
        wire::push_long(&mut p, budget);
        wire::push_long(&mut p, heap_size);
        self.submit(now_ns, kinds::KIND_BUDGET, p);
    }

    /// Marks a queue that takes part in a cycle or has an unmatched semaphore. The mark stays for the
    /// given time.
    pub fn record_sync_cycle(
        &mut self,
        now_ns: u64,
        queue_family: u32,
        queue_index: u32,
        severity: u32,
        ttl_ms: u32,
        related_queue_family: u32,
        related_queue_index: u32,
        description: &str,
    )
        requires
            old(self)@.wf(),
        ensures
            final(self)@.wf(),
            final(self)@ == old(self)@.submitted(
                Entry {
                    now_ns,
                    kind: kinds::KIND_SYNC_CYCLE_DETECTED,
                    payload: sync_cycle_payload(
                        queue_family,
                        queue_index,
                        severity,
                        ttl_ms,
                        related_queue_family,
                        related_queue_index,
                        description@,
                    ),
                },
            ),
    {
        let mut p: Vec<u8> = Vec::new();
        wire::push_word(&mut p, queue_family);
        assert(p@ =~= wire::word(queue_family as int));
        wire::push_word(&mut p, queue_index);
        wire::push_word(&mut p, severity);
        wire::push_word(&mut p, ttl_ms);
        wire::push_word(&mut p, related_queue_family);
        wire::push_word(&mut p, related_queue_index);
        wire::push_zeros(&mut p, 8);
        wire::push_field(&mut p, description, 96);
        self.submit(now_ns, kinds::KIND_SYNC_CYCLE_DETECTED, p);
    }

    /// Records that a guard band was overwritten. The region is 0 for the front guard and 1 for the back
    /// guard; the two windows are centred on the first byte that differs.
    pub fn record_canary_corruption(
        &mut self,
        now_ns: u64,
        memory: u64,
        user_offset: u64,
        user_size: u64,
        guard_size: u64,
        canary: u64,
        region: u32,
        severity: u32,
        first_corrupted_byte: u32,
        corrupted_count: u32,
        expected_byte: u8,
        actual_byte: u8,
        hex_expected: &[u8; 16],
        hex_actual: &[u8; 16],
        source: &str,
        description: &str,
    )
        requires
            old(self)@.wf(),
        ensures
            final(self)@.wf(),
            final(self)@ == old(self)@.submitted_all(
                canary_corruption_entries(
                    now_ns,
                    old(self)@.next_seq(),
                    memory,
                    user_offset,
                    user_size,
                    guard_size,
                    canary,
                    region,
                    severity,
                    first_corrupted_byte,
                    corrupted_count,
                    expected_byte,
                    actual_byte,
                    hex_expected@,
                    hex_actual@,
                    source@,
                    description@,
                ),
            ),
    {
        let ghost before = self@;
        let mut p: Vec<u8> = Vec::new();
        wire::push_long(&mut p, memory);
        assert(p@ =~= wire::long(memory as int));
        wire::push_long(&mut p, user_offset);
        wire::push_long(&mut p, user_size);
        wire::push_long(&mut p, guard_size);
        wire::push_long(&mut p, canary);
        wire::push_word(&mut p, region);
        wire::push_word(&mut p, severity);
        wire::push_word(&mut p, first_corrupted_byte);
        wire::push_word(&mut p, corrupted_count);
        let ghost q = p@;
        p.push(expected_byte);
        assert(p@ =~= q + seq![expected_byte]);
        let ghost q = p@;
        p.push(actual_byte);
        assert(p@ =~= q + seq![actual_byte]);
        wire::push_zeros(&mut p, 6);
        wire::push_bytes(&mut p, hex_expected.as_slice(), 0, 16);
        assert(hex_expected@.subrange(0, 16) =~= hex_expected@);
        wire::push_bytes(&mut p, hex_actual.as_slice(), 0, 16);
        assert(hex_actual@.subrange(0, 16) =~= hex_actual@);
        wire::push_field(&mut p, source, 48);
        wire::push_field(&mut p, description, 80);
        let ghost e = Entry { now_ns, kind: kinds::KIND_CANARY_CORRUPTION, payload: p@ };
        let seq: u32 = self.submit(now_ns, kinds::KIND_CANARY_CORRUPTION, p);
        proof {
            ring::lemma_submitted_one(before, e);
        }
        self.submit_overflow(now_ns, seq, 0, description, 79);
        proof {
            ring::lemma_submitted_parts(
                before,
                seq![e],
                continuation::overflow_entries(now_ns, seq as int, 0, description@, 79),
            );
        }
        self.submit_overflow(now_ns, seq, 2, source, 47);
        proof {
            ring::lemma_submitted_parts(
                before,
                seq![e] + continuation::overflow_entries(now_ns, seq as int, 0, description@, 79),
                continuation::overflow_entries(now_ns, seq as int, 2, source@, 47),
            );
        }
    }

    /// Records the counters of an allocator with guard bands.
    pub fn record_hardened_stats(
        &mut self,
        now_ns: u64,
        total_allocs: u64,
        total_frees: u64,
        active_allocs: u64,
        active_bytes: u64,
        quarantine_entries: u64,
        quarantine_bytes: u64,
        corruptions_detected: u64,
        peak_allocs: u64,
        peak_bytes: u64,
    )
        requires
            old(self)@.wf(),
        ensures
            final(self)@.wf(),
            final(self)@ == old(self)@.submitted(
                Entry {
                    now_ns,
                    kind: kinds::KIND_HARDENED_STATS,
                    payload: hardened_stats_payload(
                        total_allocs,
                        total_frees,
                        active_allocs,
                        active_bytes,
                        quarantine_entries,
                        quarantine_bytes,
                        corruptions_detected,
                        peak_allocs,
                        peak_bytes,
                    ),
                },
            ),
    {
        let mut p: Vec<u8> = Vec::new();
        wire::push_long(&mut p, total_allocs);
        assert(p@ =~= wire::long(total_allocs as int));
        wire::push_long(&mut p, total_frees);
        wire::push_long(&mut p, active_allocs);
        wire::push_long(&mut p, active_bytes);
        wire::push_long(&mut p, quarantine_entries);
        wire::push_long(&mut p, quarantine_bytes);
        wire::push_long(&mut p, corruptions_detected);
        wire::push_long(&mut p, peak_allocs);
        wire::push_long(&mut p, peak_bytes);
        self.submit(now_ns, kinds::KIND_HARDENED_STATS, p);
    }

    /// Records a run of a determinism check.
    pub fn record_determinism_run(
        &mut self,
        now_ns: u64,
        run_index: u32,
        seed: u64,
        frame_idx: u32,
        buffer_count: u32,
        image_count: u32,
        aggregate_hash: u64,
        matches_baseline: bool,
        session_label: &str,
    )
        requires
            old(self)@.wf(),
        ensures
            final(self)@.wf(),
            final(self)@ == old(self)@.submitted(
                Entry {
                    now_ns,
                    kind: kinds::KIND_DETERMINISM_RUN,
                    payload: determinism_run_payload(
                        run_index,
                        seed,
                        frame_idx,
                        buffer_count,
                        image_count,
                        aggregate_hash,
                        matches_baseline,
                        session_label@,
                    ),
                },
            ),
    {
        let mut p: Vec<u8> = Vec::new();
        wire::push_long(&mut p, aggregate_hash);
        assert(p@ =~= wire::long(aggregate_hash as int));
        wire::push_long(&mut p, seed);
        wire::push_word(&mut p, run_index);
        wire::push_word(&mut p, frame_idx);
        wire::push_word(&mut p, buffer_count);
        wire::push_word(&mut p, image_count);
        wire::push_flag(&mut p, matches_baseline);
        wire::push_zeros(&mut p, 4);
        wire::push_field(&mut p, session_label, 64);
        self.submit(now_ns, kinds::KIND_DETERMINISM_RUN, p);
    }

    /// Records that a capture differs from that of the first run. The kind is 0 for a buffer and 1 for an
    /// image.
    pub fn record_determinism_divergence(
        &mut self,
        now_ns: u64,
        run_index: u32,
        capture_kind: u32,
        baseline_hash: u64,
        current_hash: u64,
        dim_a: u32,
        dim_b: u32,
        capture_label: &str,
        diff_bitmap_path: &str,
    )
        requires
            old(self)@.wf(),
        ensures
            final(self)@.wf(),
            final(self)@ == old(self)@.submitted_all(
                determinism_divergence_entries(
                    now_ns,
                    old(self)@.next_seq(),
                    run_index,
                    capture_kind,
                    baseline_hash,
                    current_hash,
                    dim_a,
                    dim_b,
                    capture_label@,
                    diff_bitmap_path@,
                ),
            ),
    {
        let ghost before = self@;
        let mut p: Vec<u8> = Vec::new();
        wire::push_long(&mut p, baseline_hash);
        assert(p@ =~= wire::long(baseline_hash as int));
        wire::push_long(&mut p, current_hash);
        wire::push_word(&mut p, run_index);
        wire::push_word(&mut p, capture_kind);
        wire::push_word(&mut p, dim_a);
        wire::push_word(&mut p, dim_b);
        wire::push_field(&mut p, capture_label, 64);
        wire::push_field(&mut p, diff_bitmap_path, 96);
        let ghost e = Entry { now_ns, kind: kinds::KIND_DETERMINISM_DIVERGENCE, payload: p@ };
        let seq: u32 = self.submit(now_ns, kinds::KIND_DETERMINISM_DIVERGENCE, p);
        proof {
            ring::lemma_submitted_one(before, e);
        }
        self.submit_overflow(now_ns, seq, 0, diff_bitmap_path, 95);
        proof {
            ring::lemma_submitted_parts(
                before,
                seq![e],
                continuation::overflow_entries(now_ns, seq as int, 0, diff_bitmap_path@, 95),
            );
        }
    }
}

} // verus!
