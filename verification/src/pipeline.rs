//! The fixed pipeline and resource-set descriptions: render-target
//! attachments, the vertex layout, the depth buffer, one framebuffer per
//! chain image, and the pipeline's fixed-function state. Each builder states
//! exactly the plain values the GPU objects are created from; the handles
//! themselves are created outside the library.

use vstd::prelude::*;
use crate::swapchain::Extent2D;

verus! {

/// Raw identifier of the fixed 32-bit depth format.
pub const FORMAT_D32_SFLOAT: u32 = 126;

/// Raw identifier of the three-component 32-bit float vertex format.
pub const FORMAT_R32G32B32_SFLOAT: u32 = 106;

/// Raw identifier of triangle-list primitive topology.
pub const TOPOLOGY_TRIANGLE_LIST: u32 = 3;

/// Raw identifier of the "nearer wins" depth comparison.
pub const COMPARE_OP_LESS: u32 = 1;

/// Stage bit of the color-attachment-output pipeline stage.
pub const STAGE_COLOR_ATTACHMENT_OUTPUT: u32 = 0x400;

/// Stage bit of the early-fragment-tests pipeline stage.
pub const STAGE_EARLY_FRAGMENT_TESTS: u32 = 0x100;

/// Access bit of color-attachment writes.
pub const ACCESS_COLOR_ATTACHMENT_WRITE: u32 = 0x100;

/// Access bit of depth/stencil-attachment writes.
pub const ACCESS_DEPTH_STENCIL_ATTACHMENT_WRITE: u32 = 0x400;

/// How an attachment's contents are loaded at the start of the pass.
#[derive(Clone, Copy, Debug, PartialEq, Eq, Structural)]
pub enum LoadOp {
    Clear,
    DontCare,
}

/// Whether an attachment's contents are kept after the pass.
#[derive(Clone, Copy, Debug, PartialEq, Eq, Structural)]
pub enum StoreOp {
    Store,
    DontCare,
}

/// The image layouts the render target moves attachments through.
#[derive(Clone, Copy, Debug, PartialEq, Eq, Structural)]
pub enum ImageLayout {
    Undefined,
    ColorAttachmentOptimal,
    DepthStencilAttachmentOptimal,
    PresentSrc,
}

/// One attachment of the render target.
#[derive(Clone, Copy, Debug, PartialEq, Eq, Structural)]
pub struct AttachmentDesc {
    pub format: u32,
    pub samples: u32,
    pub load_op: LoadOp,
    pub store_op: StoreOp,
    pub initial_layout: ImageLayout,
    pub final_layout: ImageLayout,
}

/// The external-to-subpass dependency guarding the color/depth write stages.
#[derive(Clone, Copy, Debug, PartialEq, Eq, Structural)]
pub struct DependencyDesc {
    pub src_stage_mask: u32,
    pub src_access_mask: u32,
    pub dst_stage_mask: u32,
    pub dst_access_mask: u32,
}

/// The render-target description: one color attachment in the chain's
/// format, one depth attachment, a single subpass writing both.
#[derive(Clone, Copy, Debug, PartialEq, Eq, Structural)]
pub struct RenderPassDesc {
    pub color: AttachmentDesc,
    pub depth: AttachmentDesc,
    pub dependency: DependencyDesc,
}

/// The render-target description for a chain format: the color attachment is
/// cleared, stored and handed over for presentation; the depth attachment is
/// cleared and discarded after the pass; the dependency guards color and
/// depth writes against the previous frame.
pub fn render_pass_desc(color_format: u32) -> (r: RenderPassDesc)
    ensures
        r.color == (AttachmentDesc {
            format: color_format,
            samples: 1,
            load_op: LoadOp::Clear,
            store_op: StoreOp::Store,
            initial_layout: ImageLayout::Undefined,
            final_layout: ImageLayout::PresentSrc,
        }),
        r.depth == (AttachmentDesc {
            format: FORMAT_D32_SFLOAT,
            samples: 1,
            load_op: LoadOp::Clear,
            store_op: StoreOp::DontCare,
            initial_layout: ImageLayout::Undefined,
            final_layout: ImageLayout::DepthStencilAttachmentOptimal,
        }),
        r.dependency == (DependencyDesc {
            src_stage_mask: STAGE_COLOR_ATTACHMENT_OUTPUT | STAGE_EARLY_FRAGMENT_TESTS,
            src_access_mask: 0,
            dst_stage_mask: STAGE_COLOR_ATTACHMENT_OUTPUT | STAGE_EARLY_FRAGMENT_TESTS,
            dst_access_mask: ACCESS_COLOR_ATTACHMENT_WRITE | ACCESS_DEPTH_STENCIL_ATTACHMENT_WRITE,
        }),
{
    RenderPassDesc {
        color: AttachmentDesc {
            format: color_format,
            samples: 1,
            load_op: LoadOp::Clear,
            store_op: StoreOp::Store,
            initial_layout: ImageLayout::Undefined,
            final_layout: ImageLayout::PresentSrc,
        },
        depth: AttachmentDesc {
            format: FORMAT_D32_SFLOAT,
            samples: 1,
            load_op: LoadOp::Clear,
            store_op: StoreOp::DontCare,
            initial_layout: ImageLayout::Undefined,
            final_layout: ImageLayout::DepthStencilAttachmentOptimal,
        },
        dependency: DependencyDesc {
            src_stage_mask: STAGE_COLOR_ATTACHMENT_OUTPUT | STAGE_EARLY_FRAGMENT_TESTS,
            src_access_mask: 0,
            dst_stage_mask: STAGE_COLOR_ATTACHMENT_OUTPUT | STAGE_EARLY_FRAGMENT_TESTS,
            dst_access_mask: ACCESS_COLOR_ATTACHMENT_WRITE | ACCESS_DEPTH_STENCIL_ATTACHMENT_WRITE,
        },
    }
}

/// How vertex data is stepped through a bound buffer.
#[derive(Clone, Copy, Debug, PartialEq, Eq, Structural)]
pub struct VertexBindingDesc {
    pub binding: u32,
    pub stride: u32,
    pub per_instance: bool,
}

/// One vertex attribute read from a binding.
#[derive(Clone, Copy, Debug, PartialEq, Eq, Structural)]
pub struct VertexAttributeDesc {
    pub location: u32,
    pub binding: u32,
    pub format: u32,
    pub offset: u32,
}

/// The fixed vertex layout: one interleaved binding of 9 packed 32-bit
/// floats per vertex (36-byte stride) with position at offset 0, normal at
/// offset 12 and color at offset 24, three floats each.
pub fn get_vertex_input_info() -> (r: (Vec<VertexBindingDesc>, Vec<VertexAttributeDesc>))
    ensures
        r.0@.len() == 1,
        r.0@[0] == (VertexBindingDesc { binding: 0, stride: 36, per_instance: false }),
        r.1@.len() == 3,
        r.1@[0] == (VertexAttributeDesc {
            location: 0,
            binding: 0,
            format: FORMAT_R32G32B32_SFLOAT,
            offset: 0,
        }),
        r.1@[1] == (VertexAttributeDesc {
            location: 1,
            binding: 0,
            format: FORMAT_R32G32B32_SFLOAT,
            offset: 12,
        }),
        r.1@[2] == (VertexAttributeDesc {
            location: 2,
            binding: 0,
            format: FORMAT_R32G32B32_SFLOAT,
            offset: 24,
        }),
{
    let mut bindings: Vec<VertexBindingDesc> = Vec::new();
    bindings.push(VertexBindingDesc { binding: 0, stride: 36, per_instance: false });
    let mut attributes: Vec<VertexAttributeDesc> = Vec::new();
    attributes.push(
        VertexAttributeDesc { location: 0, binding: 0, format: FORMAT_R32G32B32_SFLOAT, offset: 0 },
    );
    attributes.push(
        VertexAttributeDesc {
            location: 1,
            binding: 0,
            format: FORMAT_R32G32B32_SFLOAT,
            offset: 12,
        },
    );
    attributes.push(
        VertexAttributeDesc {
            location: 2,
            binding: 0,
            format: FORMAT_R32G32B32_SFLOAT,
            offset: 24,
        },
    );
    (bindings, attributes)
}

/// The per-draw payload slot: 128 bytes readable by the vertex stage.
#[derive(Clone, Copy, Debug, PartialEq, Eq, Structural)]
pub struct PushConstantRange {
    pub offset: u32,
    pub size: u32,
    pub vertex_stage: bool,
}

/// The fixed-function state the graphics pipeline is built with.
#[derive(Clone, Copy, Debug, PartialEq, Eq, Structural)]
pub struct PipelineDesc {
    pub topology: u32,
    /// The viewport and scissor are baked at creation, so the pipeline must
    /// be rebuilt on every extent change.
    pub viewport_extent: Extent2D,
    pub scissor_extent: Extent2D,
    pub cull_back_faces: bool,
    pub front_face_counter_clockwise: bool,
    pub depth_test: bool,
    pub depth_write: bool,
    pub depth_compare: u32,
    pub blending: bool,
    pub samples: u32,
    pub push_constants: PushConstantRange,
}

/// The pipeline description for an extent: triangle-list topology, viewport
/// and scissor matching the extent, back-face culling, depth test and write
/// with "nearer wins" comparison, no blending, no multisampling, and a
/// 128-byte vertex-stage payload slot.
pub fn pipeline_desc(extent: Extent2D) -> (r: PipelineDesc)
    ensures
        r == (PipelineDesc {
            topology: TOPOLOGY_TRIANGLE_LIST,
            viewport_extent: extent,
            scissor_extent: extent,
            cull_back_faces: true,
            front_face_counter_clockwise: true,
            depth_test: true,
            depth_write: true,
            depth_compare: COMPARE_OP_LESS,
            blending: false,
            samples: 1,
            push_constants: PushConstantRange { offset: 0, size: 128, vertex_stage: true },
        }),
{
    PipelineDesc {
        topology: TOPOLOGY_TRIANGLE_LIST,
        viewport_extent: extent,
        scissor_extent: extent,
        cull_back_faces: true,
        front_face_counter_clockwise: true,
        depth_test: true,
        depth_write: true,
        depth_compare: COMPARE_OP_LESS,
        blending: false,
        samples: 1,
        push_constants: PushConstantRange { offset: 0, size: 128, vertex_stage: true },
    }
}

/// The depth buffer tied to the current extent: one device-local 32-bit
/// depth image without mipmaps or layers.
#[derive(Clone, Copy, Debug, PartialEq, Eq, Structural)]
pub struct DepthBufferDesc {
    pub extent: Extent2D,
    pub format: u32,
    pub mip_levels: u32,
    pub array_layers: u32,
    pub samples: u32,
    pub device_local: bool,
}

/// The depth buffer description for an extent.
pub fn depth_buffer_desc(extent: Extent2D) -> (r: DepthBufferDesc)
    ensures
        r == (DepthBufferDesc {
            extent,
            format: FORMAT_D32_SFLOAT,
            mip_levels: 1,
            array_layers: 1,
            samples: 1,
            device_local: true,
        }),
{
    DepthBufferDesc {
        extent,
        format: FORMAT_D32_SFLOAT,
        mip_levels: 1,
        array_layers: 1,
        samples: 1,
        device_local: true,
    }
}

/// One framebuffer of a chain generation: it binds chain image view `i` and
/// the depth view to the render target at the chain extent.
#[derive(Clone, Copy, Debug, PartialEq, Eq, Structural)]
pub struct FramebufferDesc {
    pub image_index: usize,
    pub extent: Extent2D,
    pub layers: u32,
}

/// One framebuffer description per chain image, all at the chain extent.
pub fn framebuffer_plan(image_count: usize, extent: Extent2D) -> (r: Vec<FramebufferDesc>)
    ensures
        r@.len() == image_count,
        forall|i: int|
            0 <= i < image_count ==> r@[i] == (FramebufferDesc {
                image_index: i as usize,
                extent,
                layers: 1,
            }),
{
    let mut r: Vec<FramebufferDesc> = Vec::new();
    let mut i: usize = 0;
    while i < image_count
        invariant
            0 <= i <= image_count,
            r@.len() == i,
            forall|j: int|
                0 <= j < i ==> r@[j] == (FramebufferDesc {
                    image_index: j as usize,
                    extent,
                    layers: 1,
                }),
        decreases image_count - i,
    {
        r.push(FramebufferDesc { image_index: i, extent, layers: 1 });
        i += 1;
    }
    r
}

} // verus!
