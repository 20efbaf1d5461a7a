//! The ring that the viewer reads, and what is written to it.

use ignis::live_link::bridge::{
    bridge_aliasing_to_live_link, bridge_descriptor_audit_to_live_link,
    bridge_device_fault_to_live_link, bridge_hang_detector_to_live_link,
    bridge_lifetime_to_live_link, bridge_pipeline_audit_to_live_link,
    bridge_shader_printf_to_live_link, bridge_validation_to_live_link, stage_to_u32,
    vk_type_to_u32, AliasingIssue, Breadcrumb, DescriptorIssue, DeviceFaultData, DiagnosticObject,
    FaultInfo, LayerSeverity, LifetimeEvent, PipelineIssue, ResourceTouch, ShaderPrintfMessage,
    ValidationDiagnostic,
};
use ignis::live_link::cross_queue::{
    bridge_cross_queue_to_live_link, mark_ttl_ms, CrossQueueReport, Orphan, TrackedSubmission,
};
use ignis::live_link::handlers::{DebugHandlers, DebugTool, Handler};
use ignis::live_link::kinds;
use ignis::live_link::profile::{
    bridge_alloc_profiler_to_live_link, next_epoch, rank_sites, AllocSite,
};
use ignis::live_link::ring::{mapping_name, ring_bytes, LiveLink, LiveLinkError};

fn link() -> LiveLink {
    LiveLink::create(64, 77, 1000)
}

fn record(link: &LiveLink, idx: u64) -> Vec<u8> {
    let at = link.slot_offset(idx);
    link.bytes()[at..at + 256].to_vec()
}

fn word(bytes: &[u8], at: usize) -> u32 {
    u32::from_le_bytes([bytes[at], bytes[at + 1], bytes[at + 2], bytes[at + 3]])
}

fn long(bytes: &[u8], at: usize) -> u64 {
    word(bytes, at) as u64 | (word(bytes, at + 4) as u64) << 32
}

fn text(bytes: &[u8], at: usize, n: usize) -> String {
    let field = &bytes[at..at + n];
    let end = field.iter().position(|b| *b == 0).unwrap_or(n);
    String::from_utf8_lossy(&field[..end]).to_string()
}

fn kind(r: &[u8]) -> u32 {
    word(r, 16)
}

#[test]
fn ring_starts_with_its_header() {
    let l = link();
    let b = l.bytes();
    assert_eq!(b.len(), 64 + 64 * 256);
    assert_eq!(ring_bytes(64), 64 + 64 * 256);
    assert_eq!(long(b, 0), 0x49474E5356495A30);
    assert_eq!(word(b, 8), 1);
    assert_eq!(word(b, 12), 77);
    assert_eq!(word(b, 16), 64);
    assert_eq!(word(b, 20), 256);
    assert_eq!(long(b, 24), 0);
    assert_eq!(long(b, 32), 0);
    assert_eq!(long(b, 40), 1000);
    assert_eq!(mapping_name("demo"), "Local\\demo");
}

#[test]
fn heartbeat_is_in_the_header() {
    let mut l = link();
    l.record_node(5, 1, 2, "n");
    let before = record(&l, 0);
    l.heartbeat(2222);
    assert_eq!(long(l.bytes(), 40), 2222);
    assert_eq!(record(&l, 0), before);
}

#[test]
fn record_is_in_its_slot() {
    let mut l = link();
    l.record_node(9, 3, kinds::NODE_KIND_SUBMIT, "render");
    assert_eq!(l.write_index(), 1);
    assert_eq!(long(l.bytes(), 24), 1);
    let r = record(&l, 0);
    assert_eq!(long(&r, 0), 9);
    assert_eq!(kind(&r), kinds::KIND_NODE_REGISTER);
    assert_eq!(word(&r, 20), 0);
    assert_eq!(word(&r, 24), 3);
    assert_eq!(word(&r, 28), 2);
    assert_eq!(text(&r, 32, 64), "render");
}

#[test]
fn ring_goes_round() {
    let mut l = link();
    for i in 0..70u32 {
        l.record_node_remove(0, i);
    }
    assert_eq!(l.write_index(), 70);
    assert_eq!(l.slot_offset(64), l.slot_offset(0));
    assert_eq!(word(&record(&l, 69), 24), 69);
    assert_eq!(word(&record(&l, 69), 20), 69);
    assert_eq!(word(&record(&l, 6), 24), 6);
    assert_eq!(word(&record(&l, 0), 24), 64);
}

#[test]
fn simple_records_have_their_fields() {
    let mut l = link();
    l.record_edge(0, 1, 2);
    l.record_edge_toggle(0, 1, 2, true);
    l.record_pass(0, 7, "shadow", 500);
    l.record_submission(0, 1, 2, "frame", 600);
    l.record_allocation(0, 10, 20, 30, "main.rs:1");
    l.record_free(0, 10, 20, 30);
    l.record_resource_name(0, 99, kinds::RES_KIND_IMAGE, "gbuffer");
    l.record_budget(0, 1, 2, 3, 4, 5);
    l.record_gpu_timestamp(0, 1, 2, 3, 4, 5, "t");
    assert_eq!((word(&record(&l, 0), 24), word(&record(&l, 0), 28)), (1, 2));
    assert_eq!(word(&record(&l, 1), 32), 1);
    let pass = record(&l, 2);
    assert_eq!(kind(&pass), kinds::KIND_PASS);
    assert_eq!(word(&pass, 24), 7);
    assert_eq!(long(&pass, 32), 500);
    assert_eq!(text(&pass, 40, 64), "shadow");
    let submission = record(&l, 3);
    assert_eq!((word(&submission, 24), word(&submission, 28)), (1, 2));
    assert_eq!(long(&submission, 40), 600);
    assert_eq!(text(&submission, 48, 64), "frame");
    let allocation = record(&l, 4);
    assert_eq!((long(&allocation, 24), long(&allocation, 32), long(&allocation, 40)), (10, 20, 30));
    assert_eq!(text(&allocation, 48, 64), "main.rs:1");
    assert_eq!(kind(&record(&l, 5)), kinds::KIND_FREE);
    let name = record(&l, 6);
    assert_eq!((long(&name, 24), word(&name, 32)), (99, 1));
    assert_eq!(text(&name, 40, 64), "gbuffer");
    let budget = record(&l, 7);
    assert_eq!((long(&budget, 32), long(&budget, 40), long(&budget, 48)), (3, 4, 5));
    let stamp = record(&l, 8);
    assert_eq!((long(&stamp, 40), long(&stamp, 48)), (4, 5));
    assert_eq!(text(&stamp, 56, 64), "t");
}

#[test]
fn counters_have_their_fields() {
    let mut l = link();
    l.record_pipeline_stats(0, "p", 1, 2, 3, 4, 5, 6, 7, 8, 9, 10, 11);
    l.record_hardened_stats(0, 1, 2, 3, 4, 5, 6, 7, 8, 9);
    l.record_determinism_run(0, 1, 2, 3, 4, 5, 6, true, "s");
    let stats = record(&l, 0);
    for k in 0..11 {
        assert_eq!(long(&stats, 24 + 8 * k), k as u64 + 1);
    }
    assert_eq!(text(&stats, 24 + 88, 64), "p");
    let hardened = record(&l, 1);
    for k in 0..9 {
        assert_eq!(long(&hardened, 24 + 8 * k), k as u64 + 1);
    }
    let run = record(&l, 2);
    assert_eq!((long(&run, 24), long(&run, 32)), (6, 2));
    assert_eq!((word(&run, 40), word(&run, 44), word(&run, 48), word(&run, 52)), (1, 3, 4, 5));
    assert_eq!(word(&run, 56), 1);
    assert_eq!(text(&run, 64, 64), "s");
}

fn rejoined(l: &LiveLink, parent: u64, field: u32, kept: &str) -> String {
    let mut all = kept.as_bytes().to_vec();
    let mut last = false;
    for idx in 0..l.write_index() {
        let r = record(l, idx);
        if kind(&r) == kinds::KIND_TEXT_CONTINUATION
            && word(&r, 24) == parent as u32
            && word(&r, 28) == field
        {
            assert!(!last);
            let n = word(&r, 32) as usize;
            last = word(&r, 36) == 1;
            all.extend_from_slice(&r[40..40 + n]);
        }
    }
    String::from_utf8_lossy(&all).to_string()
}

#[test]
fn long_text_continues_in_further_records() {
    let mut l = link();
    let message: String = (0..600).map(|i| (b'a' + (i % 26) as u8) as char).collect();
    let location: String = (0..100).map(|i| (b'A' + (i % 26) as u8) as char).collect();
    l.record_shader_printf(0, 2, -5, &location, &message);
    let r = record(&l, 0);
    assert_eq!(kind(&r), kinds::KIND_SHADER_PRINTF);
    assert_eq!(word(&r, 28) as i32, -5);
    assert_eq!(rejoined(&l, 0, 1, &text(&r, 24 + 76, 156)), message);
    assert_eq!(rejoined(&l, 0, 2, &text(&r, 24 + 12, 64)), location);
}

#[test]
fn short_text_needs_no_further_record() {
    let mut l = link();
    l.record_validation(0, kinds::VAL_SEVERITY_ERROR, 0, "vkFoo", "VUID-1", "short", 1, 2);
    assert_eq!(l.write_index(), 1);
    let r = record(&l, 0);
    assert_eq!(word(&r, 24), 2);
    assert_eq!(long(&r, 40), 2);
    assert_eq!(text(&r, 48, 48), "vkFoo");
    assert_eq!(text(&r, 96, 64), "VUID-1");
    assert_eq!(text(&r, 160, 96), "short");
}

#[test]
fn corruption_keeps_its_bytes() {
    let mut l = link();
    let expected: [u8; 16] = [7; 16];
    let actual: [u8; 16] = [9; 16];
    l.record_canary_corruption(
        0, 1, 2, 3, 4, 5, 1, 2, 3, 4, 0xAA, 0xBB, &expected, &actual, "free", "broken",
    );
    let r = record(&l, 0);
    assert_eq!(kind(&r), kinds::KIND_CANARY_CORRUPTION);
    assert_eq!((r[24 + 56], r[24 + 57]), (0xAA, 0xBB));
    assert_eq!(&r[24 + 64..24 + 80], &expected);
    assert_eq!(&r[24 + 80..24 + 96], &actual);
    assert_eq!(text(&r, 24 + 96, 48), "free");
    assert_eq!(text(&r, 24 + 144, 80), "broken");
}

#[test]
fn divergence_and_sync_marks() {
    let mut l = link();
    l.record_determinism_divergence(0, 1, 2, 3, 4, 5, 6, "cap", "diff.png");
    l.record_sync_cycle(0, 1, 2, kinds::SYNC_SEVERITY_CYCLE, 1500, 0, 0, "a->b");
    let d = record(&l, 0);
    assert_eq!((long(&d, 24), long(&d, 32)), (3, 4));
    assert_eq!(text(&d, 56, 64), "cap");
    assert_eq!(text(&d, 120, 96), "diff.png");
    let s = record(&l, 1);
    assert_eq!((word(&s, 32), word(&s, 36)), (2, 1500));
    assert_eq!(text(&s, 56, 96), "a->b");
}

#[test]
fn types_and_stages_have_their_numbers() {
    assert_eq!(vk_type_to_u32("VkBuffer"), 0);
    assert_eq!(vk_type_to_u32("VkPipeline"), 4);
    assert_eq!(vk_type_to_u32("VkQueue"), 255);
    let stages = [
        "VERTEX", "FRAGMENT", "COMPUTE", "RAYGEN", "MISS", "CLOSEST_HIT", "ANY_HIT",
        "INTERSECTION", "CALLABLE", "TASK", "MESH", "TESS_CONTROL", "TESS_EVAL", "GEOMETRY",
    ];
    for (i, s) in stages.iter().enumerate() {
        assert_eq!(stage_to_u32(s), i as u32 + 1);
    }
    assert_eq!(stage_to_u32("vertex"), 0);
}

#[test]
fn validation_messages_are_told() {
    let mut l = link();
    let diag = ValidationDiagnostic {
        severity: LayerSeverity::Warning,
        function: "vkQueueSubmit".to_string(),
        vuid: "VUID-x-00070".to_string(),
        raw_body: "body".to_string(),
        objects: vec![
            DiagnosticObject { vk_type: "VkImage".to_string(), handle: 0xF00 },
            DiagnosticObject { vk_type: "VkBuffer".to_string(), handle: 0xF01 },
        ],
    };
    bridge_validation_to_live_link(&mut l, 3, &diag);
    let r = record(&l, 0);
    assert_eq!(word(&r, 24), kinds::VAL_SEVERITY_WARNING);
    assert_eq!(word(&r, 32), kinds::RES_KIND_IMAGE);
    assert_eq!(long(&r, 40), 0xF00);
    assert_eq!(text(&r, 160, 96), "body");
}

#[test]
fn printf_messages_are_told() {
    let mut l = link();
    bridge_shader_printf_to_live_link(
        &mut l,
        3,
        &ShaderPrintfMessage {
            shader_stage: "COMPUTE".to_string(),
            message_id: 12,
            location: None,
            formatted: "x = 1".to_string(),
        },
    );
    let r = record(&l, 0);
    assert_eq!((word(&r, 24), word(&r, 28)), (3, 12));
    assert_eq!(text(&r, 36, 64), "");
    assert_eq!(text(&r, 100, 156), "x = 1");
}

#[test]
fn hang_is_followed_by_its_trail() {
    let mut l = link();
    let trail = vec![
        Breadcrumb { id: 1, label: "clear".to_string(), completed: true },
        Breadcrumb { id: 2, label: "draw".to_string(), completed: true },
        Breadcrumb { id: 3, label: "blit".to_string(), completed: false },
    ];
    bridge_hang_detector_to_live_link(&mut l, 3, &trail);
    assert_eq!(l.write_index(), 4);
    let hang = record(&l, 0);
    assert_eq!(kind(&hang), kinds::KIND_HANG_DETECTED);
    assert_eq!((word(&hang, 40), word(&hang, 44), word(&hang, 48)), (2, 3, 3));
    assert_eq!(text(&hang, 56, 64), "submission");
    assert_eq!(text(&hang, 120, 64), "draw");
    assert_eq!(text(&hang, 184, 64), "blit");
    let crumb = record(&l, 3);
    assert_eq!((word(&crumb, 24), word(&crumb, 28), word(&crumb, 32)), (0, 3, 0));
}

#[test]
fn lifetimes_are_told() {
    let mut l = link();
    bridge_lifetime_to_live_link(
        &mut l,
        3,
        &LifetimeEvent::Registered {
            handle: 9,
            object_type: 19,
            name: "pipe".to_string(),
            file: "a.rs".to_string(),
            line: 10,
            column: 20,
            function: "f".to_string(),
        },
    );
    bridge_lifetime_to_live_link(
        &mut l,
        3,
        &LifetimeEvent::Unregistered { handle: 9, object_type: 19, usage_count: None },
    );
    let r = record(&l, 0);
    assert_eq!((word(&r, 32), word(&r, 36), word(&r, 40)), (19, 10, 20));
    assert_eq!(text(&r, 48, 64), "pipe");
    let d = record(&l, 1);
    assert_eq!(kind(&d), kinds::KIND_OBJECT_DESTROYED);
    assert_eq!(long(&d, 40), 0);
}

#[test]
fn audits_are_told() {
    let mut l = link();
    bridge_descriptor_audit_to_live_link(
        &mut l,
        3,
        &vec![DescriptorIssue {
            set_handle: 0x10,
            binding: 2,
            resource_kind: "ImageView".to_string(),
            dead_handle: 0x20,
            set_name: None,
        }],
    );
    let touch = |operation_index: u32| ResourceTouch {
        operation_index,
        stage: 8,
        label: "op".to_string(),
    };
    bridge_aliasing_to_live_link(
        &mut l,
        3,
        &vec![AliasingIssue {
            handle: 5,
            name: Some("tex".to_string()),
            resource_kind: "image".to_string(),
            write_access: touch(1),
            conflict_access: touch(4),
            conflict_writes: true,
        }],
    );
    bridge_pipeline_audit_to_live_link(
        &mut l,
        3,
        &vec![PipelineIssue {
            pipeline: 6,
            pipeline_name: None,
            description: "too few sets".to_string(),
        }],
    );
    let d = record(&l, 0);
    assert_eq!((word(&d, 40), word(&d, 44)), (2, kinds::RES_KIND_IMAGE));
    assert_eq!(
        text(&d, 120, 96),
        "ImageView 0x20 destroyed but still bound at set 0x10 binding 2"
    );
    let a = record(&l, 1);
    assert_eq!((word(&a, 32), word(&a, 36), word(&a, 48)), (1, 4, 1));
    assert_eq!(text(&a, 56, 32), "tex");
    let p = (2..l.write_index())
        .map(|i| record(&l, i))
        .find(|r| kind(r) == kinds::KIND_PIPELINE_ISSUE);
    match p {
        Some(p) => {
            assert_eq!(word(&p, 32), kinds::PIPELINE_ISSUE_DESCRIPTOR_COUNT);
            assert_eq!(text(&p, 72, 156), "too few sets");
        }
        None => unreachable!(),
    }
}

#[test]
fn device_faults_are_told() {
    let mut l = link();
    bridge_device_fault_to_live_link(
        &mut l,
        3,
        &DeviceFaultData {
            fault_info: Some(FaultInfo {
                description: "page fault".to_string(),
                address_infos: 1,
                vendor_infos: 2,
                vendor_binary: 3,
            }),
            supports_fault_info: true,
            supports_checkpoints: false,
            supports_buffer_markers: true,
            checkpoints: 4,
            buffer_markers: vec![true, false, true],
        },
    );
    let r = record(&l, 0);
    assert_eq!(text(&r, 24, 128), "page fault");
    let words: Vec<u32> = (0..9).map(|k| word(&r, 24 + 128 + 4 * k)).collect();
    assert_eq!(words, vec![1, 2, 3, 1, 0, 1, 4, 3, 2]);
}

#[test]
fn queue_cycles_are_told_twice() {
    let mut l = link();
    let report = CrossQueueReport {
        cycles: vec![vec![4, 9]],
        orphan_signals: vec![Orphan {
            semaphore: 0xAB,
            seq: 4,
            label: "main".to_string(),
            queue: (1, 0),
        }],
        orphan_waits: vec![],
    };
    let snap = vec![
        TrackedSubmission { seq: 4, queue_family: 1, queue_index: 0 },
        TrackedSubmission { seq: 9, queue_family: 2, queue_index: 3 },
    ];
    bridge_cross_queue_to_live_link(&mut l, 3, &report, &snap, 500);
    let first = record(&l, 0);
    assert_eq!(kind(&first), kinds::KIND_VALIDATION);
    assert_eq!(text(&first, 48, 48), "CrossQueueAnalysis");
    assert_eq!(text(&first, 96, 64), "IGN-XQ-CYCLE-0");
    let marks: Vec<Vec<u8>> = (0..l.write_index())
        .map(|i| record(&l, i))
        .filter(|r| kind(r) == kinds::KIND_SYNC_CYCLE_DETECTED)
        .collect();
    assert_eq!(marks.len(), 3);
    assert_eq!((word(&marks[1], 24), word(&marks[1], 28)), (2, 3));
    assert_eq!((word(&marks[0], 32), word(&marks[0], 36)), (2, 1500));
    assert_eq!(text(&marks[0], 56, 96), "cycle0: #4->#9");
    assert_eq!(word(&marks[2], 32), kinds::SYNC_SEVERITY_ORPHAN);
    assert_eq!(text(&marks[2], 56, 96), "orphan signal: sem 0xab from main");
    assert_eq!(mark_ttl_ms(500), 1500);
    assert_eq!(mark_ttl_ms(5000), 10_000);
    assert_eq!(mark_ttl_ms(u64::MAX), 10_000);
}

fn alloc_site(function: &str, active_bytes: u64) -> AllocSite {
    AllocSite {
        function: function.to_string(),
        file: "a.rs".to_string(),
        line: 1,
        total_allocs: 1,
        total_bytes: 2,
        active_allocs: 3,
        active_bytes,
        peak_active_allocs: 5,
        peak_active_bytes: 6,
    }
}

#[test]
fn largest_sites_are_told_first() {
    let mut l = link();
    let sites = vec![alloc_site("a", 10), alloc_site("b", 30), alloc_site("c", 10)];
    assert_eq!(rank_sites(&sites), vec![1, 0, 2]);
    bridge_alloc_profiler_to_live_link(&mut l, 3, 8, &sites, 2);
    assert_eq!(l.write_index(), 2);
    let first = record(&l, 0);
    assert_eq!(long(&first, 24), 8);
    assert_eq!(long(&first, 56), 30);
    assert_eq!(word(&first, 84), 0);
    assert_eq!(text(&first, 88, 64), "b");
    assert_eq!(text(&record(&l, 1), 88, 64), "a");
    assert_eq!(next_epoch(8), 9);
    assert_eq!(next_epoch(u64::MAX), 0);
}

#[test]
fn link_errors_in_words() {
    assert_eq!(LiveLinkError::CreateFailed(5).message(), "CreateFileMappingW failed (err=5)");
    assert_eq!(LiveLinkError::MapFailed(6).message(), "MapViewOfFile failed (err=6)");
    assert_eq!(
        LiveLinkError::Unsupported.message(),
        "live link is only supported on Windows"
    );
}

#[test]
fn handler_takes_the_place_of_the_one_before() {
    let diag = ValidationDiagnostic {
        severity: LayerSeverity::Error,
        function: "f".to_string(),
        vuid: "v".to_string(),
        raw_body: "b".to_string(),
        objects: vec![],
    };
    let msg = ShaderPrintfMessage {
        shader_stage: "COMPUTE".to_string(),
        message_id: 5,
        location: None,
        formatted: "hi".to_string(),
    };
    let mut l = link();
    let mut handlers = DebugHandlers::new();
    assert_eq!(handlers.tell_validation(&mut l, 1, &diag), None);
    assert_eq!(l.write_index(), 0);
    handlers.install(DebugTool::Validation, Handler::Application(7));
    handlers.install(DebugTool::HangDetector, Handler::Application(8));
    assert_eq!(handlers.tell_validation(&mut l, 1, &diag), Some(7));
    assert_eq!(l.write_index(), 0);
    handlers.install(DebugTool::Validation, Handler::LiveLink);
    assert_eq!(handlers.tell_validation(&mut l, 1, &diag), None);
    assert_eq!(l.write_index(), 1);
    assert_eq!(handlers.tell_shader_printf(&mut l, 1, &msg), None);
    assert_eq!(l.write_index(), 1);
    assert_eq!(handlers.tell_hang(&mut l, 1, &vec![]), Some(8));
    assert_eq!(l.write_index(), 1);
    handlers.install(DebugTool::ShaderPrintf, Handler::LiveLink);
    handlers.install(DebugTool::HangDetector, Handler::LiveLink);
    assert_eq!(handlers.tell_shader_printf(&mut l, 1, &msg), None);
    assert_eq!(handlers.tell_hang(&mut l, 1, &vec![]), None);
    assert_eq!(l.write_index(), 3);
    handlers.install(DebugTool::Validation, Handler::Application(9));
    assert_eq!(handlers.tell_validation(&mut l, 1, &diag), Some(9));
    assert_eq!(l.write_index(), 3);
}
