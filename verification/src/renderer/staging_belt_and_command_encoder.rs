use vstd::prelude::*;
use crate::renderer::wgpu_handles::{BindGroup, Buffer, RenderPipeline};
use crate::util::matrix_util::{MuckableMatrix, Transform};

verus! {

/// What a write puts into a buffer.
#[derive(Debug, PartialEq, Eq)]
pub enum Payload {
    /// These words, as they stand.
    Words(Vec<u32>),
    /// The thirty-two words of a transform's product followed by those of
    /// the product's inverse.
    MatrixAndInverse(Transform),
}

/// A payload as a value.
pub enum PayloadView {
    Words(Seq<u32>),
    MatrixAndInverse(Seq<MuckableMatrix>),
}

impl View for Payload {
    type V = PayloadView;

    open spec fn view(&self) -> PayloadView {
        match self {
            Payload::Words(words) => PayloadView::Words(words@),
            Payload::MatrixAndInverse(transform) => PayloadView::MatrixAndInverse(transform@),
        }
    }
}

/// One write into a buffer, `offset` bytes from its start.
#[derive(Debug, PartialEq, Eq)]
pub struct BufferWrite {
    pub target: Buffer,
    pub offset: u64,
    pub payload: Payload,
}

/// A write as a value.
pub struct BufferWriteView {
    pub target: Buffer,
    pub offset: u64,
    pub payload: PayloadView,
}

impl View for BufferWrite {
    type V = BufferWriteView;

    open spec fn view(&self) -> BufferWriteView {
        BufferWriteView { target: self.target, offset: self.offset, payload: self.payload@ }
    }
}

/// The writes of one frame, in the order they were asked for. They reach the
/// device together, in one submission.
#[derive(Debug, PartialEq, Eq)]
pub struct StagingBelt {
    pub writes: Vec<BufferWrite>,
}

impl View for StagingBelt {
    type V = Seq<BufferWriteView>;

    open spec fn view(&self) -> Seq<BufferWriteView> {
        self.writes@.map_values(|w: BufferWrite| w@)
    }
}

/// The width of the indices a draw call reads.
#[derive(Clone, Copy, Debug, PartialEq, Eq, Structural)]
pub enum IndexFormat {
    Uint32,
}

/// One command of a render pass.
#[derive(Clone, Copy, Debug, PartialEq, Eq, Structural)]
pub enum RenderCommand {
    SetPipeline { pipeline: RenderPipeline },
    SetBindGroup { index: u32, bind_group: BindGroup },
    /// Binds the whole of `buffer` as the vertex buffer of `slot`.
    SetVertexBuffer { slot: u32, buffer: Buffer },
    /// Binds the whole of `buffer` as the index buffer.
    SetIndexBuffer { buffer: Buffer, format: IndexFormat },
    /// Draws one instance from the first `index_count` indices, with no
    /// base vertex.
    DrawIndexed { index_count: u32 },
}

/// A colour of four double-precision channels, each held by its bit pattern.
#[derive(Clone, Copy, Debug, PartialEq, Eq, Structural)]
pub struct Color {
    pub r: u64,
    pub g: u64,
    pub b: u64,
    pub a: u64,
}

/// A render pass onto the frame's one colour target, without a depth buffer:
/// the target is cleared to `clear_color`, then the commands run in order and
/// what they draw is stored.
#[derive(Debug, PartialEq, Eq)]
pub struct RenderPass {
    pub clear_color: Color,
    pub commands: Vec<RenderCommand>,
}

/// A render pass as a value.
pub struct RenderPassView {
    pub clear_color: Color,
    pub commands: Seq<RenderCommand>,
}

impl View for RenderPass {
    type V = RenderPassView;

    open spec fn view(&self) -> RenderPassView {
        RenderPassView { clear_color: self.clear_color, commands: self.commands@ }
    }
}

/// The render passes of one frame, in order.
#[derive(Debug, PartialEq, Eq)]
pub struct CommandEncoder {
    pub render_passes: Vec<RenderPass>,
}

impl View for CommandEncoder {
    type V = Seq<RenderPassView>;

    open spec fn view(&self) -> Seq<RenderPassView> {
        self.render_passes@.map_values(|p: RenderPass| p@)
    }
}

/// Everything one frame sends to the device: the buffer writes and the
/// render passes.
#[derive(Debug, PartialEq, Eq)]
pub struct StagingBeltAndCommandEncoder {
    pub staging_belt: StagingBelt,
    pub command_encoder: CommandEncoder,
}

/// A frame's recording as a value.
pub struct StagingBeltAndCommandEncoderView {
    pub writes: Seq<BufferWriteView>,
    pub render_passes: Seq<RenderPassView>,
}

impl View for StagingBeltAndCommandEncoder {
    type V = StagingBeltAndCommandEncoderView;

    open spec fn view(&self) -> StagingBeltAndCommandEncoderView {
        StagingBeltAndCommandEncoderView {
            writes: self.staging_belt@,
            render_passes: self.command_encoder@,
        }
    }
}

/// The write of `words` to the start-relative `offset` of `target`.
pub open spec fn words_write(target: Buffer, offset: u64, words: Seq<u32>) -> BufferWriteView {
    BufferWriteView { target, offset, payload: PayloadView::Words(words) }
}

/// The write of a transform's product and inverse to the start of `target`.
pub open spec fn transform_write(target: Buffer, steps: Seq<MuckableMatrix>) -> BufferWriteView {
    BufferWriteView { target, offset: 0, payload: PayloadView::MatrixAndInverse(steps) }
}

impl StagingBelt {
    /// A belt without writes.
    pub fn new() -> (belt: StagingBelt)
        ensures
            belt@.len() == 0,
    {
        StagingBelt { writes: Vec::new() }
    }
}

impl CommandEncoder {
    /// An encoder without passes.
    pub fn new() -> (encoder: CommandEncoder)
        ensures
            encoder@.len() == 0,
    {
        CommandEncoder { render_passes: Vec::new() }
    }
}

impl StagingBeltAndCommandEncoder {
    /// Puts a belt and an encoder together.
    pub fn new(staging_belt: StagingBelt, command_encoder: CommandEncoder) -> (r: Self)
        ensures
            r.staging_belt == staging_belt,
            r.command_encoder == command_encoder,
    {
        Self { staging_belt, command_encoder }
    }

    /// Records the write of `slice` into `target`, `offset` bytes from its
    /// start. A write of nothing is not a write: `slice` holds at least one
    /// word.
    pub fn write_buffer(&mut self, target: &Buffer, offset: u64, slice: &[u32])
        requires
            slice@.len() > 0,
        ensures
            final(self)@.writes == old(self)@.writes.push(words_write(*target, offset, slice@)),
            final(self)@.render_passes == old(self)@.render_passes,
    {
        let mut words: Vec<u32> = Vec::new();
        let mut i: usize = 0;
        while i < slice.len()
            invariant
                i <= slice@.len(),
                words@ == slice@.take(i as int),
            decreases slice@.len() - i,
        {
            words.push(slice[i]);
            assert(slice@.take(i as int + 1) =~= slice@.take(i as int).push(slice@[i as int]));
            i += 1;
        }
        assert(words@ =~= slice@);
        self.staging_belt.writes.push(
            BufferWrite { target: *target, offset, payload: Payload::Words(words) },
        );
        assert(self@.writes =~= old(self)@.writes.push(words_write(*target, offset, slice@)));
    }

    /// Records the write of a transform's product and of the product's
    /// inverse into the start of `target`.
    pub fn write_transform(&mut self, target: &Buffer, transform: &Transform)
        ensures
            final(self)@.writes == old(self)@.writes.push(transform_write(*target, transform@)),
            final(self)@.render_passes == old(self)@.render_passes,
    {
        self.staging_belt.writes.push(
            BufferWrite {
                target: *target,
                offset: 0,
                payload: Payload::MatrixAndInverse(transform.duplicate()),
            },
        );
        assert(self@.writes =~= old(self)@.writes.push(transform_write(*target, transform@)));
    }
}

} // verus!

verus! {

/// What the uploading passes add to: the device's tables and the frame's
/// writes.
pub struct Uploads {
    pub device: crate::renderer::wgpu_handles::DeviceView,
    pub writes: Seq<BufferWriteView>,
}

} // verus!

verus! {

impl RenderPass {
    /// A pass that clears to `clear_color` and has no commands yet.
    pub fn new(clear_color: Color) -> (pass: RenderPass)
        ensures
            pass@.clear_color == clear_color,
            pass@.commands.len() == 0,
    {
        RenderPass { clear_color, commands: Vec::new() }
    }

    /// Makes `pipeline` the pipeline of the draw calls that follow.
    pub fn set_pipeline(&mut self, pipeline: &RenderPipeline)
        ensures
            final(self)@.commands == old(self)@.commands.push(
                RenderCommand::SetPipeline { pipeline: *pipeline },
            ),
            final(self)@.clear_color == old(self)@.clear_color,
    {
        self.commands.push(RenderCommand::SetPipeline { pipeline: *pipeline });
    }

    /// Binds `bind_group` as the group `index` of the draw calls that
    /// follow.
    pub fn set_bind_group(&mut self, index: u32, bind_group: &BindGroup)
        ensures
            final(self)@.commands == old(self)@.commands.push(
                RenderCommand::SetBindGroup { index, bind_group: *bind_group },
            ),
            final(self)@.clear_color == old(self)@.clear_color,
    {
        self.commands.push(RenderCommand::SetBindGroup { index, bind_group: *bind_group });
    }

    /// Binds the whole of `buffer` as the vertex buffer `slot`.
    pub fn set_vertex_buffer(&mut self, slot: u32, buffer: &Buffer)
        ensures
            final(self)@.commands == old(self)@.commands.push(
                RenderCommand::SetVertexBuffer { slot, buffer: *buffer },
            ),
            final(self)@.clear_color == old(self)@.clear_color,
    {
        self.commands.push(RenderCommand::SetVertexBuffer { slot, buffer: *buffer });
    }

    /// Binds the whole of `buffer` as the index buffer.
    pub fn set_index_buffer(&mut self, buffer: &Buffer, format: IndexFormat)
        ensures
            final(self)@.commands == old(self)@.commands.push(
                RenderCommand::SetIndexBuffer { buffer: *buffer, format },
            ),
            final(self)@.clear_color == old(self)@.clear_color,
    {
        self.commands.push(RenderCommand::SetIndexBuffer { buffer: *buffer, format });
    }

    /// Draws one instance from the first `index_count` indices.
    pub fn draw_indexed(&mut self, index_count: u32)
        ensures
            final(self)@.commands == old(self)@.commands.push(
                RenderCommand::DrawIndexed { index_count },
            ),
            final(self)@.clear_color == old(self)@.clear_color,
    {
        self.commands.push(RenderCommand::DrawIndexed { index_count });
    }
}

} // verus!
