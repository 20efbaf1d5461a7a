//! What the viewer is told of what the debug tools report.
//!
//! Where a record has its values is stated in [`readback`](crate::live_link::readback).

use crate::live_link::bridge;
use crate::live_link::bridge::{
    AliasingIssue, Breadcrumb, DescriptorIssue, DeviceFaultData, LayerSeverity, LifetimeEvent,
    PipelineIssue, ShaderPrintfMessage, ValidationDiagnostic,
};
use crate::live_link::readback;
use crate::live_link::record;
use crate::live_link::ring;
use crate::live_link::ring::{Entry, RingState};
use crate::text;
use vstd::prelude::*;

verus! {

/// Records that are written one after the other stand in the slots that follow each other, as long
/// as none is overwritten, and are counted.
pub proof fn law_records_stand_in_order(s: RingState, es: Seq<Entry>, i: int)
    requires
        s.wf(),
        es.len() <= s.capacity,
        s.write_idx + es.len() <= u64::MAX,
        0 <= i < es.len(),
        forall|k: int| 0 <= k < es.len() ==> (#[trigger] es[k]).payload.len() <= 232,
    ensures
        ({
            let t = s.submitted_all(es);
            let at = 64 + ((s.write_idx + i) % s.capacity) * 256;
            let r = t.bytes.subrange(at, at + 256);
            &&& t.write_idx == s.write_idx + es.len()
            &&& t.capacity == s.capacity
            &&& readback::long_at(t.bytes, 24) == t.write_idx
            &&& readback::long_at(r, 0) == es[i].now_ns
            &&& readback::word_at(r, 16) == es[i].kind
            &&& readback::word_at(r, 20) == (s.write_idx + i) % 4294967296
            &&& forall|j: int|
                24 <= j < 256 ==> #[trigger] r[j] == if j - 24 < es[i].payload.len() {
                    es[i].payload[j - 24]
                } else {
                    0
                }
        }),
    decreases es.len(),
{
    let front = es.drop_last();
    let before = s.submitted_all(front);
    lemma_counts(s, front);
    readback::law_ring_counts_its_records(before, es.last());
    if i == es.len() - 1 {
        readback::lemma_record(before, es.last());
    } else {
        assert forall|k: int| 0 <= k < front.len() implies (#[trigger] front[k]).payload.len()
            <= 232 by {
            assert(front[k] == es[k]);
        }
        law_records_stand_in_order(s, front, i);
        ring::law_recent_records_stay(before, es.last(), s.write_idx + i);
    }
}

proof fn lemma_counts(s: RingState, es: Seq<Entry>)
    requires
        s.wf(),
        s.write_idx + es.len() <= u64::MAX,
    ensures
        s.submitted_all(es).wf(),
        s.submitted_all(es).write_idx == s.write_idx + es.len(),
        s.submitted_all(es).capacity == s.capacity,
    decreases es.len(),
{
    if es.len() > 0 {
        lemma_counts(s, es.drop_last());
        ring::law_submitted_record_is_in_its_slot(s.submitted_all(es.drop_last()), es.last());
    }
}

/// The severity of a message as the viewer is told it.
pub proof fn law_errors_outrank_warnings()
    ensures
        LayerSeverity::Error.number() == 2,
        LayerSeverity::Warning.number() == 1,
        LayerSeverity::Info.number() == 0,
{
}

/// The kind of an object as the viewer is told it: five types have a number of their own.
pub proof fn law_kind_of_an_object(name: Seq<char>)
    ensures
        name == "VkBuffer"@ ==> bridge::kind_of_type(name) == 0,
        name == "VkImage"@ ==> bridge::kind_of_type(name) == 1,
        name == "VkDeviceMemory"@ ==> bridge::kind_of_type(name) == 2,
        name == "VkSampler"@ ==> bridge::kind_of_type(name) == 3,
        name == "VkPipeline"@ ==> bridge::kind_of_type(name) == 4,
        name != "VkBuffer"@ && name != "VkImage"@ && name != "VkDeviceMemory"@ && name
            != "VkSampler"@ && name != "VkPipeline"@ ==> bridge::kind_of_type(name) == 255,
{
    reveal_strlit("VkBuffer");
    reveal_strlit("VkImage");
    reveal_strlit("VkDeviceMemory");
    reveal_strlit("VkSampler");
    reveal_strlit("VkPipeline");
    assert("VkBuffer"@.len() == 8);
    assert("VkImage"@.len() == 7);
    assert("VkDeviceMemory"@.len() == 14);
    assert("VkSampler"@.len() == 9);
    assert("VkPipeline"@.len() == 10);
}

/// The kind of a bound resource as the viewer is told it. A view is told as its image.
pub proof fn law_kind_of_a_bound_resource(name: Seq<char>)
    ensures
        name == "Buffer"@ ==> bridge::kind_of_resource(name) == 0,
        name == "Image"@ ==> bridge::kind_of_resource(name) == 1,
        name == "ImageView"@ ==> bridge::kind_of_resource(name) == 1,
        name == "Sampler"@ ==> bridge::kind_of_resource(name) == 3,
        name != "Buffer"@ && name != "Image"@ && name != "ImageView"@ && name != "Sampler"@
            ==> bridge::kind_of_resource(name) == 255,
{
    reveal_strlit("Buffer");
    reveal_strlit("Image");
    reveal_strlit("ImageView");
    reveal_strlit("Sampler");
    assert("Buffer"@.len() == 6);
    assert("Image"@.len() == 5);
    assert("ImageView"@.len() == 9);
    assert("Sampler"@.len() == 7);
}

/// The names of the shader stages, in the order of their numbers.
pub open spec fn stage_names() -> Seq<Seq<char>> {
    seq![
        "VERTEX"@,
        "FRAGMENT"@,
        "COMPUTE"@,
        "RAYGEN"@,
        "MISS"@,
        "CLOSEST_HIT"@,
        "ANY_HIT"@,
        "INTERSECTION"@,
        "CALLABLE"@,
        "TASK"@,
        "MESH"@,
        "TESS_CONTROL"@,
        "TESS_EVAL"@,
        "GEOMETRY"@,
    ]
}

/// A shader stage is told by its number, counted from one; a name that is not known by zero.
pub proof fn law_stages_are_numbered_from_one(name: Seq<char>, i: int)
    ensures
        0 <= i < 14 && name == stage_names()[i] ==> bridge::number_of_stage(name) == i + 1,
        bridge::number_of_stage(name) == 0 <==> !stage_names().contains(name),
{
    reveal_strlit("VERTEX");
    reveal_strlit("FRAGMENT");
    reveal_strlit("COMPUTE");
    reveal_strlit("RAYGEN");
    reveal_strlit("MISS");
    reveal_strlit("CLOSEST_HIT");
    reveal_strlit("ANY_HIT");
    reveal_strlit("INTERSECTION");
    reveal_strlit("CALLABLE");
    reveal_strlit("TASK");
    reveal_strlit("MESH");
    reveal_strlit("TESS_CONTROL");
    reveal_strlit("TESS_EVAL");
    reveal_strlit("GEOMETRY");
    let names = stage_names();
    assert(names.len() == 14);
    let n = bridge::number_of_stage(name);
    if n != 0 {
        assert(names[n - 1] == name);
    }
    if names.contains(name) {
        let k = choose|k: int| 0 <= k < names.len() && names[k] == name;
        lemma_stage_number(name, k);
    }
    if 0 <= i < 14 && name == names[i] {
        lemma_stage_number(name, i);
    }
}

proof fn lemma_stage_number(name: Seq<char>, i: int)
    requires
        0 <= i < 14,
        name == stage_names()[i],
    ensures
        bridge::number_of_stage(name) == i + 1,
{
    reveal_strlit("VERTEX");
    reveal_strlit("FRAGMENT");
    reveal_strlit("COMPUTE");
    reveal_strlit("RAYGEN");
    reveal_strlit("MISS");
    reveal_strlit("CLOSEST_HIT");
    reveal_strlit("ANY_HIT");
    reveal_strlit("INTERSECTION");
    reveal_strlit("CALLABLE");
    reveal_strlit("TASK");
    reveal_strlit("MESH");
    reveal_strlit("TESS_CONTROL");
    reveal_strlit("TESS_EVAL");
    reveal_strlit("GEOMETRY");
    let v = "VERTEX"@;
    let f = "FRAGMENT"@;
    let c = "COMPUTE"@;
    let rg = "RAYGEN"@;
    let m = "MISS"@;
    let ch = "CLOSEST_HIT"@;
    let ah = "ANY_HIT"@;
    let x = "INTERSECTION"@;
    let cl = "CALLABLE"@;
    let t = "TASK"@;
    let me = "MESH"@;
    let tc = "TESS_CONTROL"@;
    let te = "TESS_EVAL"@;
    let g = "GEOMETRY"@;
    assert(v[0] == 'V' && f[0] == 'F' && c[0] == 'C' && c[1] == 'O' && rg[0] == 'R' && m[0] == 'M'
        && m[1] == 'I' && ch[0] == 'C' && ch[1] == 'L' && ah[0] == 'A' && x[0] == 'I' && cl[0]
        == 'C' && cl[1] == 'A' && t[0] == 'T' && t[1] == 'A' && me[0] == 'M' && me[1] == 'E'
        && tc[0] == 'T' && tc[1] == 'E' && tc[5] == 'C' && te[0] == 'T' && te[1] == 'E' && te[5]
        == 'E' && g[0] == 'G');
}

/// A message of the validation layer is told with the numbers of its severity and of the type of
/// the first object that it is about, with the handle of that object, and with its texts.
pub proof fn law_validation_message_is_told(
    s: RingState,
    now_ns: u64,
    diag: ValidationDiagnostic,
    severity: u32,
    object_type: u32,
    object_handle: u64,
)
    requires
        severity == diag.severity.number(),
        diag.objects@.len() > 0 ==> object_handle == diag.objects@[0].handle && object_type
            == bridge::kind_of_type(diag.objects@[0].vk_type@),
        diag.objects@.len() == 0 ==> object_handle == 0 && object_type == 0,
    ensures
        bridge::with_validation(s, now_ns, diag) == s.submitted_all(
            record::validation_entries(
                now_ns,
                s.write_idx % 4294967296,
                severity,
                0,
                diag.function@,
                diag.vuid@,
                diag.raw_body@,
                object_type,
                object_handle,
            ),
        ),
{
}

/// What a shader prints is told with the number of its stage, with the number of the message, with
/// its place, if that is known, and with its text.
pub proof fn law_shader_message_is_told(
    s: RingState,
    now_ns: u64,
    msg: ShaderPrintfMessage,
    location: Seq<char>,
)
    requires
        msg.location matches Some(l) ==> location == l@,
        msg.location is None ==> location.len() == 0,
    ensures
        bridge::with_shader_printf(s, now_ns, msg) == s.submitted_all(
            record::shader_printf_entries(
                now_ns,
                s.write_idx % 4294967296,
                bridge::number_of_stage(msg.shader_stage@),
                msg.message_id,
                location,
                msg.formatted@,
            ),
        ),
{
    reveal_strlit("");
    if msg.location is None {
        assert(location =~= ""@);
    }
}

/// A breadcrumb is the last completed one: none behind it is completed. With no completed one the
/// number is zero and the text empty.
pub proof fn law_last_done_is_the_last_completed(trail: Seq<Breadcrumb>, k: int)
    ensures
        0 <= k < trail.len() && trail[k].completed && (forall|j: int|
            k < j < trail.len() ==> !(#[trigger] trail[j]).completed) ==> bridge::last_done(trail)
            == (trail[k].id, trail[k].label@),
        (forall|j: int| 0 <= j < trail.len() ==> !(#[trigger] trail[j]).completed)
            ==> bridge::last_done(trail).0 == 0 && bridge::last_done(trail).1.len() == 0,
    decreases trail.len(),
{
    reveal_strlit("");
    if trail.len() > 0 {
        let front = trail.drop_last();
        law_last_done_is_the_last_completed(front, k);
        assert(forall|j: int| 0 <= j < front.len() ==> front[j] == trail[j]);
        assert(trail.last() == trail[trail.len() - 1]);
    }
}

/// A breadcrumb is the first that is pending: all before it are completed. With none pending the
/// number is zero and the text empty.
pub proof fn law_first_pending_is_the_first_that_is_not_completed(trail: Seq<Breadcrumb>, k: int)
    ensures
        0 <= k < trail.len() && !trail[k].completed && (forall|j: int|
            0 <= j < k ==> (#[trigger] trail[j]).completed) ==> bridge::first_pending(trail) == (
            trail[k].id,
            trail[k].label@,
        ),
        (forall|j: int| 0 <= j < trail.len() ==> (#[trigger] trail[j]).completed)
            ==> bridge::first_pending(trail).0 == 0 && bridge::first_pending(trail).1.len() == 0,
    decreases trail.len(),
{
    reveal_strlit("");
    if trail.len() > 0 {
        let rest = trail.drop_first();
        law_first_pending_is_the_first_that_is_not_completed(rest, k - 1);
        assert(forall|j: int| 0 <= j < rest.len() ==> rest[j] == #[trigger] trail[j + 1]);
        if forall|j: int| 0 <= j < trail.len() ==> (#[trigger] trail[j]).completed {
            assert(forall|j: int| 0 <= j < rest.len() ==> (#[trigger] rest[j]).completed);
        }
        if 0 < k < trail.len() && (forall|j: int| 0 <= j < k ==> (#[trigger] trail[j]).completed) {
            assert(trail[0].completed);
            assert(forall|j: int| 0 <= j < k - 1 ==> (#[trigger] rest[j]).completed);
            assert(rest[k - 1] == trail[k]);
        }
    }
}

/// A hang is told in one record, and every breadcrumb behind it in one record each, in order and
/// with the number of the record of the hang.
pub proof fn law_hang_is_told_with_its_trail(s: RingState, now_ns: u64, trail: Seq<Breadcrumb>)
    ensures
        bridge::with_hang(s, now_ns, trail) == s.submitted(
            Entry {
                now_ns,
                kind: 22,
                payload: record::hang_detected_payload(
                    0,
                    0,
                    "submission"@,
                    bridge::last_done(trail).0,
                    bridge::first_pending(trail).0,
                    bridge::last_done(trail).1,
                    bridge::first_pending(trail).1,
                    trail.len() as u32,
                ),
            },
        ).submitted_all(
            Seq::new(
                trail.len(),
                |i: int|
                    Entry {
                        now_ns,
                        kind: 23,
                        payload: record::breadcrumb_payload(
                            (s.write_idx % 4294967296) as u32,
                            trail[i].id,
                            trail[i].completed,
                            trail[i].label@,
                        ),
                    },
            ),
        ),
{
    let t = s.submitted(
        Entry {
            now_ns,
            kind: 22,
            payload: record::hang_detected_payload(
                0,
                0,
                "submission"@,
                bridge::last_done(trail).0,
                bridge::first_pending(trail).0,
                bridge::last_done(trail).1,
                bridge::first_pending(trail).1,
                trail.len() as u32,
            ),
        },
    );
    lemma_crumbs(t, now_ns, (s.write_idx % 4294967296) as u32, trail, trail.len() as int);
}

proof fn lemma_crumbs(s: RingState, now_ns: u64, parent: u32, trail: Seq<Breadcrumb>, n: int)
    requires
        0 <= n <= trail.len(),
    ensures
        bridge::after_crumbs(s, now_ns, parent, trail, n) == s.submitted_all(
            Seq::new(
                n as nat,
                |i: int|
                    Entry {
                        now_ns,
                        kind: 23,
                        payload: record::breadcrumb_payload(
                            parent,
                            trail[i].id,
                            trail[i].completed,
                            trail[i].label@,
                        ),
                    },
            ),
        ),
    decreases n,
{
    let f = |i: int|
        Entry {
            now_ns,
            kind: 23,
            payload: record::breadcrumb_payload(
                parent,
                trail[i].id,
                trail[i].completed,
                trail[i].label@,
            ),
        };
    if n > 0 {
        lemma_crumbs(s, now_ns, parent, trail, n - 1);
        assert(Seq::new(n as nat, f).drop_last() =~= Seq::new((n - 1) as nat, f));
    }
}

/// A created object is told with where it was created, a destroyed one with how often it was used,
/// if that is known.
pub proof fn law_life_of_an_object_is_told(now_ns: u64, event: LifetimeEvent)
    ensures
        bridge::lifetime_entry(now_ns, event).now_ns == now_ns,
        event matches LifetimeEvent::Registered {
            handle,
            object_type,
            name,
            file,
            line,
            column,
            function,
        } ==> bridge::lifetime_entry(now_ns, event).kind == 25 && bridge::lifetime_entry(
            now_ns,
            event,
        ).payload == record::object_registered_payload(
            handle,
            object_type,
            name@,
            file@,
            line,
            column,
            function@,
        ),
        event matches LifetimeEvent::Unregistered { handle, object_type, usage_count: Some(n) }
            ==> bridge::lifetime_entry(now_ns, event).kind == 26 && bridge::lifetime_entry(
            now_ns,
            event,
        ).payload == record::object_destroyed_payload(handle, object_type, n),
        event matches LifetimeEvent::Unregistered { handle, object_type, usage_count: None }
            ==> bridge::lifetime_entry(now_ns, event).kind == 26 && bridge::lifetime_entry(
            now_ns,
            event,
        ).payload == record::object_destroyed_payload(handle, object_type, 0),
{
}

/// Every stale descriptor is told, in order, with its handles and in words that name them.
pub proof fn law_every_stale_descriptor_is_told(
    s: RingState,
    now_ns: u64,
    issues: Seq<DescriptorIssue>,
    n: int,
)
    requires
        0 <= n <= issues.len(),
    ensures
        bridge::after_descriptors(s, now_ns, issues, n) == s.submitted_all(
            Seq::new(
                n as nat,
                |i: int|
                    Entry {
                        now_ns,
                        kind: 27,
                        payload: record::descriptor_issue_payload(
                            issues[i].set_handle,
                            issues[i].binding,
                            bridge::kind_of_resource(issues[i].resource_kind@),
                            issues[i].dead_handle,
                            if issues[i].set_name is Some {
                                issues[i].set_name->0@
                            } else {
                                Seq::empty()
                            },
                            issues[i].resource_kind@ + " 0x"@ + text::digits(
                                issues[i].dead_handle as nat,
                                16,
                            ) + " destroyed but still bound at set 0x"@ + text::digits(
                                issues[i].set_handle as nat,
                                16,
                            ) + " binding "@ + text::digits(issues[i].binding as nat, 10),
                        ),
                    },
            ),
        ),
    decreases n,
{
    let f = |i: int|
        Entry {
            now_ns,
            kind: 27,
            payload: record::descriptor_issue_payload(
                issues[i].set_handle,
                issues[i].binding,
                bridge::kind_of_resource(issues[i].resource_kind@),
                issues[i].dead_handle,
                if issues[i].set_name is Some {
                    issues[i].set_name->0@
                } else {
                    Seq::empty()
                },
                issues[i].resource_kind@ + " 0x"@ + text::digits(
                    issues[i].dead_handle as nat,
                    16,
                ) + " destroyed but still bound at set 0x"@ + text::digits(
                    issues[i].set_handle as nat,
                    16,
                ) + " binding "@ + text::digits(issues[i].binding as nat, 10),
            ),
        };
    if n > 0 {
        law_every_stale_descriptor_is_told(s, now_ns, issues, n - 1);
        assert(Seq::new(n as nat, f).drop_last() =~= Seq::new((n - 1) as nat, f));
        let d = issues[n - 1];
        reveal_strlit("");
        reveal_strlit(" ");
        reveal_strlit(" 0x");
        reveal_strlit(" destroyed but still bound at set 0x");
        reveal_strlit(" destroyed but still bound at set ");
        assert(text::digits(d.dead_handle as nat, 16).len() >= 1);
        assert(text::digits(d.set_handle as nat, 16).len() >= 1);
        assert(text::or_empty(d.set_name) =~= if d.set_name is Some {
            d.set_name->0@
        } else {
            Seq::empty()
        });
        assert(" "@ + seq!['0', 'x'] =~= " 0x"@);
        assert(" destroyed but still bound at set "@ + seq!['0', 'x']
            =~= " destroyed but still bound at set 0x"@);
        assert(bridge::descriptor_words(d) =~= d.resource_kind@ + " 0x"@ + text::digits(
            d.dead_handle as nat,
            16,
        ) + " destroyed but still bound at set 0x"@ + text::digits(d.set_handle as nat, 16)
            + " binding "@ + text::digits(d.binding as nat, 10));
    }
}

/// Every conflict of accesses is told, in order: the access that wrote before the one that it
/// conflicts with, and whether that one writes too.
pub proof fn law_every_conflict_is_told(
    s: RingState,
    now_ns: u64,
    issues: Seq<AliasingIssue>,
    n: int,
)
    requires
        0 <= n <= issues.len(),
    ensures
        bridge::after_aliasings(s, now_ns, issues, n) == s.submitted_all(
            Seq::new(
                n as nat,
                |i: int|
                    Entry {
                        now_ns,
                        kind: 28,
                        payload: record::aliasing_conflict_payload(
                            issues[i].handle,
                            issues[i].write_access.operation_index,
                            issues[i].conflict_access.operation_index,
                            issues[i].write_access.stage,
                            issues[i].conflict_access.stage,
                            if issues[i].conflict_writes {
                                1
                            } else {
                                0
                            },
                            if issues[i].name is Some {
                                issues[i].name->0@
                            } else {
                                ""@
                            },
                            issues[i].write_access.label@,
                            issues[i].conflict_access.label@,
                            issues[i].resource_kind@ + " written by op #"@ + text::digits(
                                issues[i].write_access.operation_index as nat,
                                10,
                            ) + " then accessed by op #"@ + text::digits(
                                issues[i].conflict_access.operation_index as nat,
                                10,
                            ) + " without barrier"@,
                        ),
                    },
            ),
        ),
    decreases n,
{
    let f = |i: int|
        Entry {
            now_ns,
            kind: 28,
            payload: record::aliasing_conflict_payload(
                issues[i].handle,
                issues[i].write_access.operation_index,
                issues[i].conflict_access.operation_index,
                issues[i].write_access.stage,
                issues[i].conflict_access.stage,
                if issues[i].conflict_writes {
                    1
                } else {
                    0
                },
                if issues[i].name is Some {
                    issues[i].name->0@
                } else {
                    ""@
                },
                issues[i].write_access.label@,
                issues[i].conflict_access.label@,
                issues[i].resource_kind@ + " written by op #"@ + text::digits(
                    issues[i].write_access.operation_index as nat,
                    10,
                ) + " then accessed by op #"@ + text::digits(
                    issues[i].conflict_access.operation_index as nat,
                    10,
                ) + " without barrier"@,
            ),
        };
    if n > 0 {
        law_every_conflict_is_told(s, now_ns, issues, n - 1);
        assert(Seq::new(n as nat, f).drop_last() =~= Seq::new((n - 1) as nat, f));
    }
}

/// One more mismatch of a pipeline is told behind those before it.
pub proof fn law_every_pipeline_mismatch_is_told(
    s: RingState,
    now_ns: u64,
    issues: Seq<PipelineIssue>,
    n: int,
    name: Seq<char>,
)
    requires
        0 < n <= issues.len(),
        issues[n - 1].pipeline_name matches Some(t) ==> name == t@,
        issues[n - 1].pipeline_name is None ==> name == ""@,
    ensures
        bridge::after_pipelines(s, now_ns, issues, 0) == s,
        ({
            let before = bridge::after_pipelines(s, now_ns, issues, n - 1);
            bridge::after_pipelines(s, now_ns, issues, n) == before.submitted_all(
                record::pipeline_issue_entries(
                    now_ns,
                    before.write_idx % 4294967296,
                    issues[n - 1].pipeline,
                    0,
                    name,
                    issues[n - 1].description@,
                ),
            )
        }),
{
}

/// The markers that fired are counted: each one that fired counts one.
pub proof fn law_fired_markers_are_counted(markers: Seq<bool>)
    ensures
        bridge::fired(markers) == markers.filter(|m: bool| m).len(),
        0 <= bridge::fired(markers) <= markers.len(),
    decreases markers.len(),
{
    reveal(Seq::filter);
    if markers.len() > 0 {
        law_fired_markers_are_counted(markers.drop_last());
    }
}

/// A lost device is told with what the driver says of the fault, if it says anything, and with what
/// the device supports.
pub proof fn law_lost_device_is_told(now_ns: u64, seq: int, data: DeviceFaultData)
    ensures
        data.fault_info matches Some(f) ==> bridge::fault_entries(now_ns, seq, data)
            == record::device_fault_entries(
            now_ns,
            seq,
            f.description@,
            f.address_infos,
            f.vendor_infos,
            f.vendor_binary,
            data.supports_fault_info,
            data.supports_checkpoints,
            data.supports_buffer_markers,
            data.checkpoints,
            data.buffer_markers@.len() as u32,
            bridge::fired(data.buffer_markers@) as u32,
        ),
        data.fault_info is None ==> bridge::fault_entries(now_ns, seq, data)
            == record::device_fault_entries(
            now_ns,
            seq,
            ""@,
            0,
            0,
            0,
            data.supports_fault_info,
            data.supports_checkpoints,
            data.supports_buffer_markers,
            data.checkpoints,
            data.buffer_markers@.len() as u32,
            bridge::fired(data.buffer_markers@) as u32,
        ),
{
}

} // verus!
