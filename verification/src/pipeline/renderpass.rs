//! Render passes: what one is created with.

use crate::error::{Error, VkResult};
use crate::format::Format;
use crate::vulkan;
use vstd::prelude::*;

verus! {

/// `VK_ATTACHMENT_LOAD_OP_CLEAR`.
pub const LOAD_CLEAR: i32 = 1;

/// `VK_ATTACHMENT_LOAD_OP_DONT_CARE`.
pub const LOAD_DONT_CARE: i32 = 2;

/// `VK_ATTACHMENT_STORE_OP_STORE`.
pub const STORE_STORE: i32 = 0;

/// `VK_ATTACHMENT_STORE_OP_DONT_CARE`.
pub const STORE_DONT_CARE: i32 = 1;

/// `VK_IMAGE_LAYOUT_COLOR_ATTACHMENT_OPTIMAL`.
pub const LAYOUT_COLOR_ATTACHMENT: i32 = 2;

/// `VK_PIPELINE_BIND_POINT_GRAPHICS`.
pub const BIND_POINT_GRAPHICS: i32 = 0;

/// An attachment of a render pass.
#[derive(Debug, Clone, Copy, PartialEq, Eq, Structural)]
pub struct AttachmentConfig {
    /// Image format.
    pub format: Format,
    /// Samples per pixel.
    pub samples: u32,
    /// What happens to the attachment at the beginning.
    pub load_op: i32,
    /// What happens to the attachment at the end.
    pub store_op: i32,
    /// What happens to the stencil at the beginning.
    pub stencil_load_op: i32,
    /// What happens to the stencil at the end.
    pub stencil_store_op: i32,
    /// Image layout at the beginning.
    pub initial_layout: i32,
    /// Image layout at the end.
    pub final_layout: i32,
}

impl Default for AttachmentConfig {
    /// A colour attachment that is cleared and stored.
    fn default() -> (r: Self)
        ensures
            r == (AttachmentConfig {
                format: Format { raw: crate::format::UNDEFINED },
                samples: vulkan::SAMPLES_1,
                load_op: LOAD_CLEAR,
                store_op: STORE_STORE,
                stencil_load_op: LOAD_DONT_CARE,
                stencil_store_op: STORE_DONT_CARE,
                initial_layout: vulkan::LAYOUT_UNDEFINED,
                final_layout: LAYOUT_COLOR_ATTACHMENT,
            }),
    {
        AttachmentConfig {
            format: Format { raw: crate::format::UNDEFINED },
            samples: vulkan::SAMPLES_1,
            load_op: LOAD_CLEAR,
            store_op: STORE_STORE,
            stencil_load_op: LOAD_DONT_CARE,
            stencil_store_op: STORE_DONT_CARE,
            initial_layout: vulkan::LAYOUT_UNDEFINED,
            final_layout: LAYOUT_COLOR_ATTACHMENT,
        }
    }
}

/// An attachment that a subpass refers to.
#[derive(Debug, Clone, Copy, PartialEq, Eq, Structural)]
pub struct AttachmentRef {
    /// Place among the attachments of the render pass.
    pub attachment: u32,
    /// Image layout during the subpass.
    pub layout: i32,
}

/// A subpass.
#[derive(Debug)]
pub struct SubpassConfig {
    /// Colour attachments.
    pub color_attachments: Vec<AttachmentRef>,
    /// Depth and stencil attachment.
    pub depth_stencil_attachment: Option<AttachmentRef>,
    /// Input attachments.
    pub input_attachments: Vec<AttachmentRef>,
    /// Attachments that are kept.
    pub preserve_attachments: Vec<u32>,
}

impl Default for SubpassConfig {
    /// A subpass without attachments.
    fn default() -> (r: Self)
        ensures
            r.color_attachments@.len() == 0,
            r.depth_stencil_attachment is None,
            r.input_attachments@.len() == 0,
            r.preserve_attachments@.len() == 0,
    {
        SubpassConfig {
            color_attachments: Vec::new(),
            depth_stencil_attachment: None,
            input_attachments: Vec::new(),
            preserve_attachments: Vec::new(),
        }
    }
}

/// A dependency between subpasses.
#[derive(Debug, Clone, Copy, PartialEq, Eq, Structural)]
pub struct SubpassDependency {
    /// Subpass to wait for.
    pub src_subpass: u32,
    /// Subpass that waits.
    pub dst_subpass: u32,
    /// Stages to wait for.
    pub src_stage_mask: u32,
    /// Stages that wait.
    pub dst_stage_mask: u32,
    /// Accesses to wait for.
    pub src_access_mask: u32,
    /// Accesses that wait.
    pub dst_access_mask: u32,
    /// Dependency flags.
    pub dependency_flags: u32,
}

/// Builder for a render pass.
#[derive(Debug)]
pub struct RenderPassBuilder {
    /// Attachments.
    pub attachments: Vec<AttachmentConfig>,
    /// Subpasses.
    pub subpasses: Vec<SubpassConfig>,
    /// Dependencies.
    pub dependencies: Vec<SubpassDependency>,
}

/// A subpass as the driver is given it.
#[derive(Debug)]
pub struct SubpassDescription {
    /// Kind of pipelines.
    pub pipeline_bind_point: i32,
    /// The attachments.
    pub config: SubpassConfig,
}

/// What a render pass is created with.
#[derive(Debug)]
pub struct RenderPassPlan {
    /// Attachments.
    pub attachments: Vec<AttachmentConfig>,
    /// Subpasses.
    pub subpasses: Vec<SubpassDescription>,
    /// Dependencies.
    pub dependencies: Vec<SubpassDependency>,
}

impl RenderPassBuilder {
    /// Nothing is set.
    pub fn new() -> (r: RenderPassBuilder)
        ensures
            r.attachments@.len() == 0,
            r.subpasses@.len() == 0,
            r.dependencies@.len() == 0,
    {
        RenderPassBuilder {
            attachments: Vec::new(),
            subpasses: Vec::new(),
            dependencies: Vec::new(),
        }
    }

    /// Adds an attachment.
    pub fn attachment(self, config: AttachmentConfig) -> (r: RenderPassBuilder)
        ensures
            r.attachments@ == self.attachments@.push(config),
            r.subpasses == self.subpasses,
            r.dependencies == self.dependencies,
    {
        let mut b: RenderPassBuilder = self;
        b.attachments.push(config);
        b
    }

    /// Adds a subpass.
    pub fn subpass(self, config: SubpassConfig) -> (r: RenderPassBuilder)
        ensures
            r.subpasses@ == self.subpasses@.push(config),
            r.attachments == self.attachments,
            r.dependencies == self.dependencies,
    {
        let mut b: RenderPassBuilder = self;
        b.subpasses.push(config);
        b
    }

    /// Adds a dependency.
    pub fn dependency(self, dep: SubpassDependency) -> (r: RenderPassBuilder)
        ensures
            r.dependencies@ == self.dependencies@.push(dep),
            r.attachments == self.attachments,
            r.subpasses == self.subpasses,
    {
        let mut b: RenderPassBuilder = self;
        b.dependencies.push(dep);
        b
    }

    /// Checks that there is a subpass, and describes what the driver is given: the attachments and
    /// dependencies as they are, and a graphics subpass for each one.
    pub fn build(self) -> (r: Result<RenderPassPlan, Error>)
        ensures
            r is Ok <==> self.subpasses@.len() > 0,
            r matches Ok(p) ==> {
                &&& p.attachments == self.attachments
                &&& p.dependencies == self.dependencies
                &&& p.subpasses@ == self.subpasses@.map_values(
                    |s: SubpassConfig| SubpassDescription {
                        pipeline_bind_point: BIND_POINT_GRAPHICS,
                        config: s,
                    },
                )
            },
            r matches Err(e) ==> e.is_invalid_config("at least one subpass is required"@),
    {
        if self.subpasses.len() == 0 {
            return Err(Error::InvalidConfig("at least one subpass is required"));
        }
        Ok(
            RenderPassPlan {
                attachments: self.attachments,
                subpasses: described(self.subpasses),
                dependencies: self.dependencies,
            },
        )
    }
}

/// A graphics subpass for each one.
fn described(subpasses: Vec<SubpassConfig>) -> (r: Vec<SubpassDescription>)
    ensures
        r@ == subpasses@.map_values(
            |s: SubpassConfig| SubpassDescription {
                pipeline_bind_point: BIND_POINT_GRAPHICS,
                config: s,
            },
        ),
{
    let ghost all = subpasses@.map_values(
        |s: SubpassConfig| SubpassDescription {
            pipeline_bind_point: BIND_POINT_GRAPHICS,
            config: s,
        },
    );
    let mut rest: Vec<SubpassConfig> = subpasses;
    let mut backwards: Vec<SubpassDescription> = Vec::new();
    let total: usize = rest.len();
    while rest.len() > 0
        invariant
            total == all.len(),
            rest@.len() + backwards@.len() == total,
            forall|i: int|
                0 <= i < rest@.len() ==> all[i] == (SubpassDescription {
                    pipeline_bind_point: BIND_POINT_GRAPHICS,
                    config: #[trigger] rest@[i],
                }),
            forall|i: int|
                0 <= i < backwards@.len() ==> #[trigger] backwards@[i] == all[total - 1 - i],
        decreases rest@.len(),
    {
        match rest.pop() {
            Some(config) => {
                backwards.push(
                    SubpassDescription { pipeline_bind_point: BIND_POINT_GRAPHICS, config },
                );
            },
            None => {},
        }
    }
    let mut r: Vec<SubpassDescription> = Vec::new();
    while backwards.len() > 0
        invariant
            total == all.len(),
            backwards@.len() + r@.len() == total,
            forall|i: int|
                0 <= i < backwards@.len() ==> #[trigger] backwards@[i] == all[total - 1 - i],
            forall|i: int| 0 <= i < r@.len() ==> #[trigger] r@[i] == all[i],
        decreases backwards@.len(),
    {
        match backwards.pop() {
            Some(d) => {
                r.push(d);
            },
            None => {},
        }
    }
    assert(r@ =~= all);
    r
}

/// A render pass.
#[derive(Debug, Clone, Copy, PartialEq, Eq, Structural)]
pub struct RenderPassHandle {
    /// Handle of the render pass.
    pub handle: u64,
}

impl RenderPassHandle {
    /// What comes of creating a render pass. `outcome` is what the driver says.
    pub fn created(outcome: Result<u64, VkResult>) -> (r: Result<RenderPassHandle, Error>)
        ensures
            r == match outcome {
                Ok(handle) => Ok::<RenderPassHandle, Error>(RenderPassHandle { handle }),
                Err(code) => Err(Error::Vulkan(code)),
            },
    {
        match outcome {
            Ok(handle) => Ok(RenderPassHandle { handle }),
            Err(code) => Err(Error::Vulkan(code)),
        }
    }

    /// Handle of the render pass.
    pub fn handle(&self) -> (r: u64)
        ensures
            r == self.handle,
    {
        self.handle
    }
}

} // verus!
