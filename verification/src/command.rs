//! The work a renderer hands to the graphics queue: uploads and recorded
//! render passes, kept in the order in which they were issued.

use crate::device::{BindGroupId, BufferId, RenderPipelineId, TextureId};
use vstd::prelude::*;

verus! {

/// One upload handed to the queue. The bytes come from whoever owns the
/// resource; the record says where they go and how many they are.
#[derive(Clone, Copy, Debug, PartialEq, Eq, Structural)]
pub enum QueueWrite {
    /// `size` bytes into `buffer`, starting at `offset`.
    Buffer { buffer: BufferId, offset: u64, size: u64 },
    /// One mip level of one layer of a texture, `width` by `height` texels
    /// in rows of `bytes_per_row` bytes.
    Texture {
        texture: TextureId,
        layer: u32,
        mip_level: u32,
        width: u32,
        height: u32,
        bytes_per_row: u32,
        rows_per_image: u32,
    },
}

/// The uploads issued so far, oldest first.
pub struct Queue {
    writes: Vec<QueueWrite>,
}

impl View for Queue {
    type V = Seq<QueueWrite>;

    closed spec fn view(&self) -> Seq<QueueWrite> {
        self.writes@
    }
}

impl Queue {
    /// A queue with nothing issued.
    pub fn new() -> (queue: Queue)
        ensures
            queue@ == Seq::<QueueWrite>::empty(),
    {
        Queue { writes: Vec::new() }
    }

    /// Issues an upload of `size` bytes into `buffer` at `offset`.
    pub fn write_buffer(&mut self, buffer: BufferId, offset: u64, size: u64)
        ensures
            final(self)@ == old(self)@.push(QueueWrite::Buffer { buffer, offset, size }),
    {
        self.writes.push(QueueWrite::Buffer { buffer, offset, size });
    }

    /// Issues an upload of one mip level of one layer of a texture.
    pub fn write_texture(
        &mut self,
        texture: TextureId,
        layer: u32,
        mip_level: u32,
        width: u32,
        height: u32,
        bytes_per_row: u32,
        rows_per_image: u32,
    )
        ensures
            final(self)@ == old(self)@.push(
                QueueWrite::Texture {
                    texture,
                    layer,
                    mip_level,
                    width,
                    height,
                    bytes_per_row,
                    rows_per_image,
                },
            ),
    {
        self.writes.push(
            QueueWrite::Texture {
                texture,
                layer,
                mip_level,
                width,
                height,
                bytes_per_row,
                rows_per_image,
            },
        );
    }

    /// The uploads issued so far.
    pub fn writes(&self) -> (list: &Vec<QueueWrite>)
        ensures
            list@ == self@,
    {
        &self.writes
    }

    /// Hands out the uploads issued so far and starts over with none.
    pub fn take(&mut self) -> (list: Vec<QueueWrite>)
        ensures
            list@ == old(self)@,
            final(self)@ == Seq::<QueueWrite>::empty(),
    {
        let mut list: Vec<QueueWrite> = Vec::new();
        std::mem::swap(&mut self.writes, &mut list);
        list
    }
}

/// A colour of four channels of eight bits each, 255 being full.
#[derive(Clone, Copy, Debug, PartialEq, Eq, Structural)]
pub struct Color {
    pub r: u8,
    pub g: u8,
    pub b: u8,
    pub a: u8,
}

/// What happens to a colour attachment when a pass begins.
#[derive(Clone, Copy, Debug, PartialEq, Eq, Structural)]
pub enum ColorLoad {
    /// The attachment is cleared to the colour.
    Clear(Color),
    /// The attachment keeps what it holds.
    Load,
}

/// What happens to a depth attachment when a pass begins.
#[derive(Clone, Copy, Debug, PartialEq, Eq, Structural)]
pub enum LoadOp {
    /// The attachment is cleared to the far plane.
    Clear,
    /// The attachment keeps what it holds.
    Load,
}

/// Where a pass writes its colour.
#[derive(Clone, Copy, Debug, PartialEq, Eq, Structural)]
pub enum ColorTarget {
    /// The default view of an offscreen texture.
    Texture(TextureId),
    /// The image acquired from the presentation surface for this frame.
    Surface,
}

/// The colour attachment of a pass.
#[derive(Clone, Copy, Debug, PartialEq, Eq, Structural)]
pub struct ColorAttachment {
    pub target: ColorTarget,
    pub load: ColorLoad,
    pub store: bool,
}

/// The depth attachment of a pass.
#[derive(Clone, Copy, Debug, PartialEq, Eq, Structural)]
pub struct DepthAttachment {
    pub texture: TextureId,
    pub load: LoadOp,
    pub store: bool,
}

/// The width of the indices in an index buffer.
#[derive(Clone, Copy, Debug, PartialEq, Eq, Structural)]
pub enum IndexFormat {
    Uint32,
}

/// One command recorded into a render pass. Buffers are bound whole, bind
/// groups without dynamic offsets, and all ranges start at zero.
#[derive(Clone, Copy, Debug, PartialEq, Eq, Structural)]
pub enum RenderCommand {
    SetPipeline { pipeline: RenderPipelineId },
    SetVertexBuffer { slot: u32, buffer: BufferId },
    SetIndexBuffer { buffer: BufferId, format: IndexFormat },
    SetBindGroup { index: u32, group: BindGroupId },
    DrawIndexed { index_count: u32, base_vertex: i32, instance_count: u32 },
    Draw { vertex_count: u32, instance_count: u32 },
}

/// A render pass as a mathematical value.
pub ghost struct RenderPassView {
    pub color: Option<ColorAttachment>,
    pub depth: Option<DepthAttachment>,
    pub commands: Seq<RenderCommand>,
}

/// A render pass being recorded: its attachments and its commands so far.
pub struct RenderPass {
    color: Option<ColorAttachment>,
    depth: Option<DepthAttachment>,
    commands: Vec<RenderCommand>,
}

impl View for RenderPass {
    type V = RenderPassView;

    closed spec fn view(&self) -> RenderPassView {
        RenderPassView { color: self.color, depth: self.depth, commands: self.commands@ }
    }
}

impl RenderPass {
    /// Begins a pass on the given attachments, with no command recorded.
    pub fn new(color: Option<ColorAttachment>, depth: Option<DepthAttachment>) -> (pass: RenderPass)
        ensures
            pass@ == (RenderPassView { color, depth, commands: Seq::empty() }),
    {
        RenderPass { color, depth, commands: Vec::new() }
    }

    /// Records one command at the end of the pass.
    pub fn record(&mut self, command: RenderCommand)
        ensures
            final(self)@ == (RenderPassView {
                commands: old(self)@.commands.push(command),
                ..old(self)@
            }),
    {
        self.commands.push(command);
    }

    /// Binds a pipeline.
    pub fn set_pipeline(&mut self, pipeline: RenderPipelineId)
        ensures
            final(self)@ == (RenderPassView {
                commands: old(self)@.commands.push(RenderCommand::SetPipeline { pipeline }),
                ..old(self)@
            }),
    {
        self.record(RenderCommand::SetPipeline { pipeline });
    }

    /// Binds a whole buffer as vertex buffer `slot`.
    pub fn set_vertex_buffer(&mut self, slot: u32, buffer: BufferId)
        ensures
            final(self)@ == (RenderPassView {
                commands: old(self)@.commands.push(RenderCommand::SetVertexBuffer { slot, buffer }),
                ..old(self)@
            }),
    {
        self.record(RenderCommand::SetVertexBuffer { slot, buffer });
    }

    /// Binds a whole buffer as the index buffer.
    pub fn set_index_buffer(&mut self, buffer: BufferId, format: IndexFormat)
        ensures
            final(self)@ == (RenderPassView {
                commands: old(self)@.commands.push(
                    RenderCommand::SetIndexBuffer { buffer, format },
                ),
                ..old(self)@
            }),
    {
        self.record(RenderCommand::SetIndexBuffer { buffer, format });
    }

    /// Binds a bind group at `index`.
    pub fn set_bind_group(&mut self, index: u32, group: BindGroupId)
        ensures
            final(self)@ == (RenderPassView {
                commands: old(self)@.commands.push(RenderCommand::SetBindGroup { index, group }),
                ..old(self)@
            }),
    {
        self.record(RenderCommand::SetBindGroup { index, group });
    }

    /// Draws `index_count` indices for `instance_count` instances.
    pub fn draw_indexed(&mut self, index_count: u32, base_vertex: i32, instance_count: u32)
        ensures
            final(self)@ == (RenderPassView {
                commands: old(self)@.commands.push(
                    RenderCommand::DrawIndexed { index_count, base_vertex, instance_count },
                ),
                ..old(self)@
            }),
    {
        self.record(RenderCommand::DrawIndexed { index_count, base_vertex, instance_count });
    }

    /// Draws `vertex_count` vertices for `instance_count` instances.
    pub fn draw(&mut self, vertex_count: u32, instance_count: u32)
        ensures
            final(self)@ == (RenderPassView {
                commands: old(self)@.commands.push(
                    RenderCommand::Draw { vertex_count, instance_count },
                ),
                ..old(self)@
            }),
    {
        self.record(RenderCommand::Draw { vertex_count, instance_count });
    }

    /// The colour attachment of the pass.
    pub fn color(&self) -> (color: Option<ColorAttachment>)
        ensures
            color == self@.color,
    {
        self.color
    }

    /// The depth attachment of the pass.
    pub fn depth(&self) -> (depth: Option<DepthAttachment>)
        ensures
            depth == self@.depth,
    {
        self.depth
    }

    /// The commands recorded so far.
    pub fn commands(&self) -> (list: &Vec<RenderCommand>)
        ensures
            list@ == self@.commands,
    {
        &self.commands
    }
}

/// The render passes of one frame, in the order in which they were ended.
pub struct CommandEncoder {
    passes: Vec<RenderPass>,
}

impl View for CommandEncoder {
    type V = Seq<RenderPassView>;

    closed spec fn view(&self) -> Seq<RenderPassView> {
        self.passes@.map_values(|p: RenderPass| p@)
    }
}

impl CommandEncoder {
    /// An encoder without passes.
    pub fn new() -> (encoder: CommandEncoder)
        ensures
            encoder@ == Seq::<RenderPassView>::empty(),
    {
        let encoder = CommandEncoder { passes: Vec::new() };
        assert(encoder@ =~= Seq::<RenderPassView>::empty());
        encoder
    }

    /// Begins a render pass on the given attachments. The pass is recorded
    /// on its own and handed back with [`CommandEncoder::end_render_pass`].
    pub fn begin_render_pass(
        &self,
        color: Option<ColorAttachment>,
        depth: Option<DepthAttachment>,
    ) -> (pass: RenderPass)
        ensures
            pass@ == (RenderPassView { color, depth, commands: Seq::empty() }),
    {
        RenderPass::new(color, depth)
    }

    /// Ends a render pass: it becomes the last pass of the frame.
    pub fn end_render_pass(&mut self, pass: RenderPass)
        ensures
            final(self)@ == old(self)@.push(pass@),
    {
        let ghost view = pass@;
        self.passes.push(pass);
        assert(self@ =~= old(self)@.push(view));
    }

    /// The passes ended so far.
    pub fn passes(&self) -> (list: &Vec<RenderPass>)
        ensures
            list@.map_values(|p: RenderPass| p@) == self@,
    {
        &self.passes
    }
}

} // verus!
