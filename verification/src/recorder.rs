//! The command recorder: one command sequence per chain image, re-recorded
//! every displayed frame with the current payload. The sequence is fixed —
//! begin, clear-and-begin the pass, bind pipeline and geometry, push the
//! payload, one indexed draw over all indices, end the pass, end recording —
//! and its contract pins every command and field.

use vstd::prelude::*;
use crate::codec::Mat4Bits;
use crate::swapchain::Extent2D;

verus! {

/// The bit pattern of the far depth clear value 1.0.
pub const CLEAR_DEPTH_FAR_BITS: u32 = 0x3F80_0000;

/// The per-frame payload: the combined projection-view-model matrix and the
/// model matrix alone, as raw 32-bit entries.
#[derive(Clone, Copy, Debug, PartialEq, Eq)]
pub struct FramePayload {
    pub mvp: Mat4Bits,
    pub model: Mat4Bits,
}

/// One recorded command.
#[derive(Clone, Copy, Debug, PartialEq, Eq)]
pub enum RenderCommand {
    BeginRecording,
    /// Begin the render pass over the full extent, clearing color to the
    /// configured value and depth to the far value 1.0.
    BeginRenderPass {
        extent: Extent2D,
        clear_color_bits: [u32; 4],
        clear_depth_bits: u32,
        clear_stencil: u32,
    },
    BindPipeline,
    BindVertexBuffer { binding: u32, offset: u64 },
    /// `sixteen_bit` selects 16-bit unsigned indices.
    BindIndexBuffer { offset: u64, sixteen_bit: bool },
    /// Push the 128-byte payload at the given offset for the vertex stage.
    PushPayload { offset: u32, payload: FramePayload },
    DrawIndexed {
        index_count: u32,
        instance_count: u32,
        first_index: u32,
        vertex_offset: i32,
        first_instance: u32,
    },
    EndRenderPass,
    EndRecording,
}

/// The exact command sequence recorded for one chain image.
pub open spec fn spec_frame_commands(
    extent: Extent2D,
    clear_color_bits: [u32; 4],
    payload: FramePayload,
    index_count: u32,
) -> Seq<RenderCommand> {
    seq![
        RenderCommand::BeginRecording,
        RenderCommand::BeginRenderPass {
            extent,
            clear_color_bits,
            clear_depth_bits: CLEAR_DEPTH_FAR_BITS,
            clear_stencil: 0,
        },
        RenderCommand::BindPipeline,
        RenderCommand::BindVertexBuffer { binding: 0, offset: 0 },
        RenderCommand::BindIndexBuffer { offset: 0, sixteen_bit: true },
        RenderCommand::PushPayload { offset: 0, payload },
        RenderCommand::DrawIndexed {
            index_count,
            instance_count: 1,
            first_index: 0,
            vertex_offset: 0,
            first_instance: 0,
        },
        RenderCommand::EndRenderPass,
        RenderCommand::EndRecording,
    ]
}

/// Record the command sequence for one chain image.
pub fn record_image_commands(
    extent: Extent2D,
    clear_color_bits: [u32; 4],
    payload: FramePayload,
    index_count: u32,
) -> (cmds: Vec<RenderCommand>)
    ensures
        cmds@ == spec_frame_commands(extent, clear_color_bits, payload, index_count),
{
    let mut cmds: Vec<RenderCommand> = Vec::new();
    cmds.push(RenderCommand::BeginRecording);
    cmds.push(
        RenderCommand::BeginRenderPass {
            extent,
            clear_color_bits,
            clear_depth_bits: CLEAR_DEPTH_FAR_BITS,
            clear_stencil: 0,
        },
    );
    cmds.push(RenderCommand::BindPipeline);
    cmds.push(RenderCommand::BindVertexBuffer { binding: 0, offset: 0 });
    cmds.push(RenderCommand::BindIndexBuffer { offset: 0, sixteen_bit: true });
    cmds.push(RenderCommand::PushPayload { offset: 0, payload });
    cmds.push(
        RenderCommand::DrawIndexed {
            index_count,
            instance_count: 1,
            first_index: 0,
            vertex_offset: 0,
            first_instance: 0,
        },
    );
    cmds.push(RenderCommand::EndRenderPass);
    cmds.push(RenderCommand::EndRecording);
    proof {
        assert(cmds@ =~= spec_frame_commands(extent, clear_color_bits, payload, index_count));
    }
    cmds
}

/// Record one command sequence per chain image — all `image_count` of them,
/// none stale: every sequence carries the current extent, clear color and
/// payload.
pub fn record_all_images(
    image_count: usize,
    extent: Extent2D,
    clear_color_bits: [u32; 4],
    payload: FramePayload,
    index_count: u32,
) -> (r: Vec<Vec<RenderCommand>>)
    ensures
        r@.len() == image_count,
        forall|i: int|
            0 <= i < image_count ==> #[trigger] r@[i]@ == spec_frame_commands(
                extent,
                clear_color_bits,
                payload,
                index_count,
            ),
{
    let mut r: Vec<Vec<RenderCommand>> = Vec::new();
    let mut i: usize = 0;
    while i < image_count
        invariant
            0 <= i <= image_count,
            r@.len() == i,
            forall|j: int|
                0 <= j < i ==> #[trigger] r@[j]@ == spec_frame_commands(
                    extent,
                    clear_color_bits,
                    payload,
                    index_count,
                ),
        decreases image_count - i,
    {
        r.push(record_image_commands(extent, clear_color_bits, payload, index_count));
        i += 1;
    }
    r
}

} // verus!
