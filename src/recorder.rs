use vstd::prelude::*;
use crate::batch::FrameBatch;
use crate::surface::Extent;

verus! {

/// Bit pattern of the single-precision number 1.0: the depth every frame
/// clears to, and the alpha of the clear colour.
pub const ONE_BITS: u32 = 0x3f80_0000;

/// Bit pattern of 0.0.
pub const ZERO_BITS: u32 = 0;

/// One step of a frame's command sequence.
#[derive(Debug, Clone, Copy, PartialEq, Eq, Structural)]
pub enum RecordStep {
    /// Begin the colour and depth pass: colour cleared to opaque black
    /// (channels as bit patterns), depth cleared to `clear_depth`.
    BeginPass { clear_red: u32, clear_green: u32, clear_blue: u32, clear_alpha: u32, clear_depth: u32 },
    /// Viewport and scissor cover the whole surface.
    SetViewport { extent: Extent },
    BindPipeline,
    /// Camera block, model matrices, materials and normal matrices.
    BindDescriptorSet,
    BindVertexBuffer,
    BindIndexBuffer,
    /// One indirect multi-draw of `count` commands; zero draws nothing.
    DrawIndirect { count: usize },
    /// The overlay callback composites the interface onto the same image.
    DrawOverlay,
    EndPass,
}

/// The fixed order in which a frame of `draws` draws at `extent` is recorded.
pub open spec fn record_order(extent: Extent, draws: nat) -> Seq<RecordStep> {
    seq![
        RecordStep::BeginPass {
            clear_red: ZERO_BITS,
            clear_green: ZERO_BITS,
            clear_blue: ZERO_BITS,
            clear_alpha: ONE_BITS,
            clear_depth: ONE_BITS,
        },
        RecordStep::SetViewport { extent },
        RecordStep::BindPipeline,
        RecordStep::BindDescriptorSet,
        RecordStep::BindVertexBuffer,
        RecordStep::BindIndexBuffer,
        RecordStep::DrawIndirect { count: draws as usize },
        RecordStep::DrawOverlay,
        RecordStep::EndPass,
    ]
}

/// The steps that record `batch` onto a surface of size `extent`, in order.
/// The draw step's count is the number of draws in the batch.
pub fn record_steps(batch: &FrameBatch, extent: Extent) -> (r: Vec<RecordStep>)
    ensures
        r@ == record_order(extent, batch.commands@.len()),
{
    let mut steps: Vec<RecordStep> = Vec::new();
    steps.push(RecordStep::BeginPass {
        clear_red: ZERO_BITS,
        clear_green: ZERO_BITS,
        clear_blue: ZERO_BITS,
        clear_alpha: ONE_BITS,
        clear_depth: ONE_BITS,
    });
    steps.push(RecordStep::SetViewport { extent });
    steps.push(RecordStep::BindPipeline);
    steps.push(RecordStep::BindDescriptorSet);
    steps.push(RecordStep::BindVertexBuffer);
    steps.push(RecordStep::BindIndexBuffer);
    steps.push(RecordStep::DrawIndirect { count: batch.commands.len() });
    steps.push(RecordStep::DrawOverlay);
    steps.push(RecordStep::EndPass);
    proof {
        assert(steps@ =~= record_order(extent, batch.commands@.len()));
    }
    steps
}

/// A batch without draws is recorded as a full pass whose indirect draw has a
/// count of zero.
pub proof fn lemma_empty_batch_records_zero_draw(batch: FrameBatch, extent: Extent)
    requires
        batch.commands@.len() == 0,
    ensures
        record_order(extent, batch.commands@.len()).len() == 9,
        record_order(extent, batch.commands@.len())[6] == (RecordStep::DrawIndirect { count: 0 }),
        record_order(extent, batch.commands@.len())[0] is BeginPass,
        record_order(extent, batch.commands@.len())[8] == RecordStep::EndPass,
{
}

} // verus!
