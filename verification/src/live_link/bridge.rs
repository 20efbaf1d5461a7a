//! What the debug tools tell the viewer.
//!
//! Each function takes what a tool reports, as plain values, and records it.

use crate::live_link::kinds;
use crate::live_link::record;
use crate::live_link::ring::{Entry, LiveLink, RingState};
use crate::text;
use vstd::prelude::*;

verus! {

/// Severity of a message of the validation layer.
#[derive(Debug, Clone, Copy, PartialEq, Eq, Structural)]
pub enum LayerSeverity {
    /// An error.
    Error,
    /// A warning.
    Warning,
    /// Information.
    Info,
}

impl LayerSeverity {
    /// The number of the severity on the link.
    pub open spec fn number(self) -> u32 {
        match self {
            LayerSeverity::Error => kinds::VAL_SEVERITY_ERROR,
            LayerSeverity::Warning => kinds::VAL_SEVERITY_WARNING,
            LayerSeverity::Info => kinds::VAL_SEVERITY_INFO,
        }
    }

    fn to_number(self) -> (r: u32)
        ensures
            r == self.number(),
    {
        match self {
            LayerSeverity::Error => kinds::VAL_SEVERITY_ERROR,
            LayerSeverity::Warning => kinds::VAL_SEVERITY_WARNING,
            LayerSeverity::Info => kinds::VAL_SEVERITY_INFO,
        }
    }
}

/// An object that a message of the validation layer is about.
#[derive(Debug)]
pub struct DiagnosticObject {
    /// Name of its Vulkan type.
    pub vk_type: String,
    /// Its handle.
    pub handle: u64,
}

/// A message of the validation layer, taken apart.
#[derive(Debug)]
pub struct ValidationDiagnostic {
    /// How serious it is.
    pub severity: LayerSeverity,
    /// The function that it is about.
    pub function: String,
    /// The rule that was broken.
    pub vuid: String,
    /// The whole message.
    pub raw_body: String,
    /// The objects that it is about.
    pub objects: Vec<DiagnosticObject>,
}

/// The kind of resource that the name of a Vulkan type stands for.
pub open spec fn kind_of_type(name: Seq<char>) -> u32 {
    if name == "VkBuffer"@ {
        kinds::RES_KIND_BUFFER
    } else if name == "VkImage"@ {
        kinds::RES_KIND_IMAGE
    } else if name == "VkDeviceMemory"@ {
        kinds::RES_KIND_DEVICE_MEMORY
    } else if name == "VkSampler"@ {
        kinds::RES_KIND_SAMPLER
    } else if name == "VkPipeline"@ {
        kinds::RES_KIND_PIPELINE
    } else {
        kinds::RES_KIND_OTHER
    }
}

/// The kind of resource that the name of a Vulkan type stands for.
pub fn vk_type_to_u32(s: &str) -> (r: u32)
    ensures
        r == kind_of_type(s@),
{
    if text::same(s, "VkBuffer") {
        kinds::RES_KIND_BUFFER
    } else if text::same(s, "VkImage") {
        kinds::RES_KIND_IMAGE
    } else if text::same(s, "VkDeviceMemory") {
        kinds::RES_KIND_DEVICE_MEMORY
    } else if text::same(s, "VkSampler") {
        kinds::RES_KIND_SAMPLER
    } else if text::same(s, "VkPipeline") {
        kinds::RES_KIND_PIPELINE
    } else {
        kinds::RES_KIND_OTHER
    }
}

/// The ring with a message of the validation layer.
pub open spec fn with_validation(
    ring: RingState,
    now_ns: u64,
    diag: ValidationDiagnostic,
) -> RingState {
    ring.submitted_all(
        record::validation_entries(
            now_ns,
            ring.next_seq(),
            diag.severity.number(),
            0,
            diag.function@,
            diag.vuid@,
            diag.raw_body@,
            if diag.objects@.len() > 0 {
                kind_of_type(diag.objects@[0].vk_type@)
            } else {
                0
            },
            if diag.objects@.len() > 0 {
                diag.objects@[0].handle
            } else {
                0
            },
        ),
    )
}

/// Records a message of the validation layer. Of the objects that it is about, the first is told.
pub fn bridge_validation_to_live_link(link: &mut LiveLink, now_ns: u64, diag: &ValidationDiagnostic)
    requires
        old(link)@.wf(),
    ensures
        final(link)@.wf(),
        final(link)@ == with_validation(old(link)@, now_ns, *diag),
{
    let severity: u32 = diag.severity.to_number();
    let (object_type, object_handle): (u32, u64) = if diag.objects.len() > 0 {
        (vk_type_to_u32(diag.objects[0].vk_type.as_str()), diag.objects[0].handle)
    } else {
        (0, 0)
    };
    link.record_validation(
        now_ns,
        severity,
        0,
        diag.function.as_str(),
        diag.vuid.as_str(),
        diag.raw_body.as_str(),
        object_type,
        object_handle,
    );
}

/// A message of a shader.
#[derive(Debug)]
pub struct ShaderPrintfMessage {
    /// Name of the shader stage.
    pub shader_stage: String,
    /// Number that the layer gave the message.
    pub message_id: i32,
    /// Where in the source it comes from.
    pub location: Option<String>,
    /// The message.
    pub formatted: String,
}

/// The number of a shader stage on the link: 0 where the name is not known.
pub open spec fn number_of_stage(s: Seq<char>) -> u32 {
    if s == "VERTEX"@ {
        1
    } else if s == "FRAGMENT"@ {
        2
    } else if s == "COMPUTE"@ {
        3
    } else if s == "RAYGEN"@ {
        4
    } else if s == "MISS"@ {
        5
    } else if s == "CLOSEST_HIT"@ {
        6
    } else if s == "ANY_HIT"@ {
        7
    } else if s == "INTERSECTION"@ {
        8
    } else if s == "CALLABLE"@ {
        9
    } else if s == "TASK"@ {
        10
    } else if s == "MESH"@ {
        11
    } else if s == "TESS_CONTROL"@ {
        12
    } else if s == "TESS_EVAL"@ {
        13
    } else if s == "GEOMETRY"@ {
        14
    } else {
        0
    }
}

/// The number of a shader stage on the link.
pub fn stage_to_u32(s: &str) -> (r: u32)
    ensures
        r == number_of_stage(s@),
{
    if text::same(s, "VERTEX") {
        1
    } else if text::same(s, "FRAGMENT") {
        2
    } else if text::same(s, "COMPUTE") {
        3
    } else if text::same(s, "RAYGEN") {
        4
    } else if text::same(s, "MISS") {
        5
    } else if text::same(s, "CLOSEST_HIT") {
        6
    } else if text::same(s, "ANY_HIT") {
        7
    } else if text::same(s, "INTERSECTION") {
        8
    } else if text::same(s, "CALLABLE") {
        9
    } else if text::same(s, "TASK") {
        10
    } else if text::same(s, "MESH") {
        11
    } else if text::same(s, "TESS_CONTROL") {
        12
    } else if text::same(s, "TESS_EVAL") {
        13
    } else if text::same(s, "GEOMETRY") {
        14
    } else {
        0
    }
}

/// The ring with a message of a shader.
pub open spec fn with_shader_printf(
    ring: RingState,
    now_ns: u64,
    msg: ShaderPrintfMessage,
) -> RingState {
    ring.submitted_all(
        record::shader_printf_entries(
            now_ns,
            ring.next_seq(),
            number_of_stage(msg.shader_stage@),
            msg.message_id,
            text::or_empty(msg.location),
            msg.formatted@,
        ),
    )
}

/// Records a message of a shader.
pub fn bridge_shader_printf_to_live_link(link: &mut LiveLink, now_ns: u64, msg: &ShaderPrintfMessage)
    requires
        old(link)@.wf(),
    ensures
        final(link)@.wf(),
        final(link)@ == with_shader_printf(old(link)@, now_ns, *msg),
{
    link.record_shader_printf(
        now_ns,
        stage_to_u32(msg.shader_stage.as_str()),
        msg.message_id,
        text::unwrap_or_empty(&msg.location),
        msg.formatted.as_str(),
    );
}

/// A breadcrumb, as read back after a hang.
#[derive(Debug)]
pub struct Breadcrumb {
    /// Number of the breadcrumb.
    pub id: u32,
    /// Its label.
    pub label: String,
    /// Whether the device got there.
    pub completed: bool,
}

/// The last breadcrumb that the device got to: its number and label, 0 and the empty text where
/// there is none.
pub open spec fn last_done(trail: Seq<Breadcrumb>) -> (u32, Seq<char>)
    decreases trail.len(),
{
    if trail.len() == 0 {
        (0, ""@)
    } else if trail.last().completed {
        (trail.last().id, trail.last().label@)
    } else {
        last_done(trail.drop_last())
    }
}

/// The first breadcrumb that the device did not get to: its number and label, 0 and the empty text
/// where there is none.
pub open spec fn first_pending(trail: Seq<Breadcrumb>) -> (u32, Seq<char>)
    decreases trail.len(),
{
    if trail.len() == 0 {
        (0, ""@)
    } else if !trail[0].completed {
        (trail[0].id, trail[0].label@)
    } else {
        first_pending(trail.drop_first())
    }
}

/// `s` after the first `n` breadcrumbs of a hang.
pub open spec fn after_crumbs(
    s: RingState,
    now_ns: u64,
    parent_seq: u32,
    trail: Seq<Breadcrumb>,
    n: int,
) -> RingState
    decreases n,
{
    if n <= 0 {
        s
    } else {
        let crumb = trail[n - 1];
        after_crumbs(s, now_ns, parent_seq, trail, n - 1).submitted(
            Entry {
                now_ns,
                kind: kinds::KIND_BREADCRUMB,
                payload: record::breadcrumb_payload(
                    parent_seq,
                    crumb.id,
                    crumb.completed,
                    crumb.label@,
                ),
            },
        )
    }
}

fn find_last_done(trail: &Vec<Breadcrumb>) -> (r: Option<usize>)
    ensures
        match r {
            Some(k) => k < trail@.len() && last_done(trail@) == (trail@[k as int].id, trail@[k as int].label@),
            None => last_done(trail@) == (0u32, ""@),
        },
{
    let mut k: usize = trail.len();
    assert(trail@.take(k as int) =~= trail@);
    while k > 0
        invariant
            k <= trail@.len(),
            last_done(trail@.take(k as int)) == last_done(trail@),
        decreases k,
    {
        assert(trail@.take(k as int).drop_last() =~= trail@.take(k - 1));
        if trail[k - 1].completed {
            return Some(k - 1);
        }
        k = k - 1;
    }
    None
}

fn find_first_pending(trail: &Vec<Breadcrumb>) -> (r: Option<usize>)
    ensures
        match r {
            Some(k) => k < trail@.len() && first_pending(trail@) == (
                trail@[k as int].id,
                trail@[k as int].label@,
            ),
            None => first_pending(trail@) == (0u32, ""@),
        },
{
    let mut k: usize = 0;
    assert(trail@.skip(0) =~= trail@);
    while k < trail.len()
        invariant
            k <= trail@.len(),
            first_pending(trail@.skip(k as int)) == first_pending(trail@),
        decreases trail@.len() - k,
    {
        assert(trail@.skip(k as int).drop_first() =~= trail@.skip(k + 1));
        if !trail[k].completed {
            return Some(k);
        }
        k = k + 1;
    }
    None
}

/// The ring with a hang and the breadcrumbs that were read back.
pub open spec fn with_hang(ring: RingState, now_ns: u64, trail: Seq<Breadcrumb>) -> RingState {
    after_crumbs(
        ring.submitted(
            Entry {
                now_ns,
                kind: kinds::KIND_HANG_DETECTED,
                payload: record::hang_detected_payload(
                    0,
                    0,
                    "submission"@,
                    last_done(trail).0,
                    first_pending(trail).0,
                    last_done(trail).1,
                    first_pending(trail).1,
                    trail.len() as u32,
                ),
            },
        ),
        now_ns,
        ring.next_seq() as u32,
        trail,
        trail.len() as int,
    )
}

/// Records a hang and the breadcrumbs that were read back.
pub fn bridge_hang_detector_to_live_link(link: &mut LiveLink, now_ns: u64, trail: &Vec<Breadcrumb>)
    requires
        old(link)@.wf(),
    ensures
        final(link)@.wf(),
        final(link)@ == with_hang(old(link)@, now_ns, trail@),
{
    let done: Option<usize> = find_last_done(trail);
    let pending: Option<usize> = find_first_pending(trail);
    let (done_id, done_label): (u32, &str) = match done {
        Some(k) => (trail[k].id, trail[k].label.as_str()),
        None => (0, ""),
    };
    let (pending_id, pending_label): (u32, &str) = match pending {
        Some(k) => (trail[k].id, trail[k].label.as_str()),
        None => (0, ""),
    };
    let parent: u32 = link.record_hang_detected(
        now_ns,
        0,
        0,
        "submission",
        done_id,
        pending_id,
        done_label,
        pending_label,
        trail.len() as u32,
    );
    let ghost start = link@;
    let mut i: usize = 0;
    while i < trail.len()
        invariant
            i <= trail@.len(),
            link@.wf(),
            link@ == after_crumbs(start, now_ns, parent, trail@, i as int),
        decreases trail@.len() - i,
    {
        let crumb: &Breadcrumb = &trail[i];
        link.record_breadcrumb(now_ns, parent, crumb.id, crumb.completed, crumb.label.as_str());
        i = i + 1;
    }
}

/// What happened to a tracked object.
#[derive(Debug)]
pub enum LifetimeEvent {
    /// It was created.
    Registered {
        /// Its handle.
        handle: u64,
        /// Its type.
        object_type: u32,
        /// Its name.
        name: String,
        /// Source file of the creation.
        file: String,
        /// Line of the creation.
        line: u32,
        /// Column of the creation.
        column: u32,
        /// Function of the creation.
        function: String,
    },
    /// It was destroyed.
    Unregistered {
        /// Its handle.
        handle: u64,
        /// Its type.
        object_type: u32,
        /// How often it was used, if that is known.
        usage_count: Option<u64>,
    },
}

/// The record of what happened to a tracked object.
pub open spec fn lifetime_entry(now_ns: u64, event: LifetimeEvent) -> Entry {
    match event {
        LifetimeEvent::Registered { handle, object_type, name, file, line, column, function } =>
            Entry {
                now_ns,
                kind: kinds::KIND_OBJECT_REGISTERED,
                payload: record::object_registered_payload(
                    handle,
                    object_type,
                    name@,
                    file@,
                    line,
                    column,
                    function@,
                ),
            },
        LifetimeEvent::Unregistered { handle, object_type, usage_count } => Entry {
            now_ns,
            kind: kinds::KIND_OBJECT_DESTROYED,
            payload: record::object_destroyed_payload(
                handle,
                object_type,
                match usage_count {
                    Some(n) => n,
                    None => 0,
                },
            ),
        },
    }
}

/// Records that an object was created or destroyed.
pub fn bridge_lifetime_to_live_link(link: &mut LiveLink, now_ns: u64, event: &LifetimeEvent)
    requires
        old(link)@.wf(),
    ensures
        final(link)@.wf(),
        final(link)@ == old(link)@.submitted(lifetime_entry(now_ns, *event)),
{
    match event {
        LifetimeEvent::Registered { handle, object_type, name, file, line, column, function } => {
            link.record_object_registered(
                now_ns,
                *handle,
                *object_type,
                name.as_str(),
                file.as_str(),
                *line,
                *column,
                function.as_str(),
            );
        },
        LifetimeEvent::Unregistered { handle, object_type, usage_count } => {
            let usage: u64 = match usage_count {
                Some(n) => *n,
                None => 0,
            };
            link.record_object_destroyed(now_ns, *handle, *object_type, usage);
        },
    }
}

/// A descriptor set that refers to a resource that is gone.
#[derive(Debug)]
pub struct DescriptorIssue {
    /// Handle of the set.
    pub set_handle: u64,
    /// The binding.
    pub binding: u32,
    /// Name of the kind of resource.
    pub resource_kind: String,
    /// Handle of the resource.
    pub dead_handle: u64,
    /// Name of the set.
    pub set_name: Option<String>,
}

/// The kind of resource that a name stands for.
pub open spec fn kind_of_resource(name: Seq<char>) -> u32 {
    if name == "Buffer"@ {
        kinds::RES_KIND_BUFFER
    } else if name == "Image"@ || name == "ImageView"@ {
        kinds::RES_KIND_IMAGE
    } else if name == "Sampler"@ {
        kinds::RES_KIND_SAMPLER
    } else {
        kinds::RES_KIND_OTHER
    }
}

fn resource_to_u32(s: &str) -> (r: u32)
    ensures
        r == kind_of_resource(s@),
{
    if text::same(s, "Buffer") {
        kinds::RES_KIND_BUFFER
    } else if text::same(s, "Image") || text::same(s, "ImageView") {
        kinds::RES_KIND_IMAGE
    } else if text::same(s, "Sampler") {
        kinds::RES_KIND_SAMPLER
    } else {
        kinds::RES_KIND_OTHER
    }
}

/// A descriptor issue in words.
pub open spec fn descriptor_words(d: DescriptorIssue) -> Seq<char> {
    d.resource_kind@ + " "@ + text::hex_prefixed(d.dead_handle as int, 1)
        + " destroyed but still bound at set "@ + text::hex_prefixed(d.set_handle as int, 1)
        + " binding "@ + text::decimal(d.binding as int)
}

/// `s` after the first `n` descriptor issues.
pub open spec fn after_descriptors(
    s: RingState,
    now_ns: u64,
    issues: Seq<DescriptorIssue>,
    n: int,
) -> RingState
    decreases n,
{
    if n <= 0 {
        s
    } else {
        let d = issues[n - 1];
        after_descriptors(s, now_ns, issues, n - 1).submitted(
            Entry {
                now_ns,
                kind: kinds::KIND_DESCRIPTOR_ISSUE,
                payload: record::descriptor_issue_payload(
                    d.set_handle,
                    d.binding,
                    kind_of_resource(d.resource_kind@),
                    d.dead_handle,
                    text::or_empty(d.set_name),
                    descriptor_words(d),
                ),
            },
        )
    }
}

/// Records the issues that an audit of descriptor sets found.
pub fn bridge_descriptor_audit_to_live_link(
    link: &mut LiveLink,
    now_ns: u64,
    issues: &Vec<DescriptorIssue>,
)
    requires
        old(link)@.wf(),
    ensures
        final(link)@.wf(),
        final(link)@ == after_descriptors(old(link)@, now_ns, issues@, issues@.len() as int),
{
    let ghost start = link@;
    let mut i: usize = 0;
    while i < issues.len()
        invariant
            i <= issues@.len(),
            link@.wf(),
            link@ == after_descriptors(start, now_ns, issues@, i as int),
        decreases issues@.len() - i,
    {
        let d: &DescriptorIssue = &issues[i];
        let mut words: String = d.resource_kind.as_str().to_owned();
        words.append(" ");
        text::push_hex_prefixed(&mut words, d.dead_handle, 1);
        words.append(" destroyed but still bound at set ");
        text::push_hex_prefixed(&mut words, d.set_handle, 1);
        words.append(" binding ");
        text::push_decimal(&mut words, d.binding as u64);
        link.record_descriptor_issue(
            now_ns,
            d.set_handle,
            d.binding,
            resource_to_u32(d.resource_kind.as_str()),
            d.dead_handle,
            text::unwrap_or_empty(&d.set_name),
            words.as_str(),
        );
        i = i + 1;
    }
}

/// An access to a resource within a command buffer.
#[derive(Debug)]
pub struct ResourceTouch {
    /// Number of the operation.
    pub operation_index: u32,
    /// Pipeline stage.
    pub stage: u32,
    /// Label of the operation.
    pub label: String,
}

/// A write and an access after it, without a barrier in between.
#[derive(Debug)]
pub struct AliasingIssue {
    /// Handle of the resource.
    pub handle: u64,
    /// Name of the resource.
    pub name: Option<String>,
    /// Name of the kind of resource.
    pub resource_kind: String,
    /// The write.
    pub write_access: ResourceTouch,
    /// The access after it.
    pub conflict_access: ResourceTouch,
    /// Whether the access after it is a write.
    pub conflict_writes: bool,
}

/// An aliasing issue in words.
pub open spec fn aliasing_words(a: AliasingIssue) -> Seq<char> {
    a.resource_kind@ + " written by op #"@ + text::decimal(a.write_access.operation_index as int)
        + " then accessed by op #"@ + text::decimal(a.conflict_access.operation_index as int)
        + " without barrier"@
}

/// `s` after the first `n` aliasing issues.
pub open spec fn after_aliasings(
    s: RingState,
    now_ns: u64,
    issues: Seq<AliasingIssue>,
    n: int,
) -> RingState
    decreases n,
{
    if n <= 0 {
        s
    } else {
        let a = issues[n - 1];
        after_aliasings(s, now_ns, issues, n - 1).submitted(
            Entry {
                now_ns,
                kind: kinds::KIND_ALIASING_CONFLICT,
                payload: record::aliasing_conflict_payload(
                    a.handle,
                    a.write_access.operation_index,
                    a.conflict_access.operation_index,
                    a.write_access.stage,
                    a.conflict_access.stage,
                    if a.conflict_writes {
                        1
                    } else {
                        0
                    },
                    text::or_empty(a.name),
                    a.write_access.label@,
                    a.conflict_access.label@,
                    aliasing_words(a),
                ),
            },
        )
    }
}

/// Records the issues that an aliasing analysis found.
pub fn bridge_aliasing_to_live_link(link: &mut LiveLink, now_ns: u64, issues: &Vec<AliasingIssue>)
    requires
        old(link)@.wf(),
    ensures
        final(link)@.wf(),
        final(link)@ == after_aliasings(old(link)@, now_ns, issues@, issues@.len() as int),
{
    let ghost start = link@;
    let mut i: usize = 0;
    while i < issues.len()
        invariant
            i <= issues@.len(),
            link@.wf(),
            link@ == after_aliasings(start, now_ns, issues@, i as int),
        decreases issues@.len() - i,
    {
        let a: &AliasingIssue = &issues[i];
        let mut words: String = a.resource_kind.as_str().to_owned();
        words.append(" written by op #");
        text::push_decimal(&mut words, a.write_access.operation_index as u64);
        words.append(" then accessed by op #");
        text::push_decimal(&mut words, a.conflict_access.operation_index as u64);
        words.append(" without barrier");
        let access_type: u32 = if a.conflict_writes {
            1
        } else {
            0
        };
        link.record_aliasing_conflict(
            now_ns,
            a.handle,
            a.write_access.operation_index,
            a.conflict_access.operation_index,
            a.write_access.stage,
            a.conflict_access.stage,
            access_type,
            text::unwrap_or_empty(&a.name),
            a.write_access.label.as_str(),
            a.conflict_access.label.as_str(),
            words.as_str(),
        );
        i = i + 1;
    }
}

/// A pipeline that does not fit what is bound.
#[derive(Debug)]
pub struct PipelineIssue {
    /// Handle of the pipeline.
    pub pipeline: u64,
    /// Name of the pipeline.
    pub pipeline_name: Option<String>,
    /// The issue in words.
    pub description: String,
}

/// `s` after the first `n` pipeline issues.
pub open spec fn after_pipelines(
    s: RingState,
    now_ns: u64,
    issues: Seq<PipelineIssue>,
    n: int,
) -> RingState
    decreases n,
{
    if n <= 0 {
        s
    } else {
        let before = after_pipelines(s, now_ns, issues, n - 1);
        before.submitted_all(
            record::pipeline_issue_entries(
                now_ns,
                before.next_seq(),
                issues[n - 1].pipeline,
                kinds::PIPELINE_ISSUE_DESCRIPTOR_COUNT,
                text::or_empty(issues[n - 1].pipeline_name),
                issues[n - 1].description@,
            ),
        )
    }
}

/// Records the issues that binding a pipeline showed.
pub fn bridge_pipeline_audit_to_live_link(
    link: &mut LiveLink,
    now_ns: u64,
    issues: &Vec<PipelineIssue>,
)
    requires
        old(link)@.wf(),
    ensures
        final(link)@.wf(),
        final(link)@ == after_pipelines(old(link)@, now_ns, issues@, issues@.len() as int),
{
    let ghost start = link@;
    let mut i: usize = 0;
    while i < issues.len()
        invariant
            i <= issues@.len(),
            link@.wf(),
            link@ == after_pipelines(start, now_ns, issues@, i as int),
        decreases issues@.len() - i,
    {
        link.record_pipeline_issue(
            now_ns,
            issues[i].pipeline,
            kinds::PIPELINE_ISSUE_DESCRIPTOR_COUNT,
            text::unwrap_or_empty(&issues[i].pipeline_name),
            issues[i].description.as_str(),
        );
        i = i + 1;
    }
}

/// What the driver says of a fault.
#[derive(Debug)]
pub struct FaultInfo {
    /// In words.
    pub description: String,
    /// Number of addresses.
    pub address_infos: u32,
    /// Number of vendor entries.
    pub vendor_infos: u32,
    /// Bytes of vendor data.
    pub vendor_binary: u32,
}

/// What was collected after the device was lost.
#[derive(Debug)]
pub struct DeviceFaultData {
    /// What the driver says, if it says anything.
    pub fault_info: Option<FaultInfo>,
    /// Fault information is supported.
    pub supports_fault_info: bool,
    /// Checkpoints are supported.
    pub supports_checkpoints: bool,
    /// Buffer markers are supported.
    pub supports_buffer_markers: bool,
    /// Number of checkpoints.
    pub checkpoints: u32,
    /// For each buffer marker whether the device got to it.
    pub buffer_markers: Vec<bool>,
}

/// How many of the markers the device got to.
pub open spec fn fired(markers: Seq<bool>) -> int
    decreases markers.len(),
{
    if markers.len() == 0 {
        0
    } else {
        fired(markers.drop_last()) + (if markers.last() {
            1int
        } else {
            0
        })
    }
}

fn count_fired(markers: &Vec<bool>) -> (r: u32)
    requires
        markers@.len() <= u32::MAX,
    ensures
        r == fired(markers@),
{
    let mut r: u32 = 0;
    let mut i: usize = 0;
    while i < markers.len()
        invariant
            i <= markers@.len(),
            markers@.len() <= u32::MAX,
            r <= i,
            r == fired(markers@.take(i as int)),
        decreases markers@.len() - i,
    {
        assert(markers@.take(i + 1).drop_last() =~= markers@.take(i as int));
        if markers[i] {
            r = r + 1;
        }
        i = i + 1;
    }
    assert(markers@.take(i as int) =~= markers@);
    r
}

/// The records about a lost device.
pub open spec fn fault_entries(now_ns: u64, seq: int, data: DeviceFaultData) -> Seq<Entry> {
    let (words, addresses, vendors, binary) = match data.fault_info {
        Some(f) => (f.description@, f.address_infos, f.vendor_infos, f.vendor_binary),
        None => (""@, 0u32, 0u32, 0u32),
    };
    record::device_fault_entries(
        now_ns,
        seq,
        words,
        addresses,
        vendors,
        binary,
        data.supports_fault_info,
        data.supports_checkpoints,
        data.supports_buffer_markers,
        data.checkpoints,
        data.buffer_markers@.len() as u32,
        fired(data.buffer_markers@) as u32,
    )
}

/// Records what was collected after the device was lost.
pub fn bridge_device_fault_to_live_link(link: &mut LiveLink, now_ns: u64, data: &DeviceFaultData)
    requires
        old(link)@.wf(),
        data.buffer_markers@.len() <= u32::MAX,
    ensures
        final(link)@.wf(),
        final(link)@ == old(link)@.submitted_all(
            fault_entries(now_ns, old(link)@.next_seq(), *data),
        ),
{
    let (words, addresses, vendors, binary): (&str, u32, u32, u32) = match &data.fault_info {
        Some(f) => (f.description.as_str(), f.address_infos, f.vendor_infos, f.vendor_binary),
        None => ("", 0, 0, 0),
    };
    link.record_device_fault(
        now_ns,
        words,
        addresses,
        vendors,
        binary,
        data.supports_fault_info,
        data.supports_checkpoints,
        data.supports_buffer_markers,
        data.checkpoints,
        data.buffer_markers.len() as u32,
        count_fired(&data.buffer_markers),
    );
}

} // verus!
