//! The commands of one frame, and the recorder that collects them.
//!
//! The renderer does not drive a GPU. It decides what a frame consists of
//! and hands the decision out as a list of commands, to be carried out in
//! order by whoever owns the device.

use vstd::prelude::*;
use crate::device::{creates, leaves_no_buffer, release_after_create};
use crate::pipeline::IndexFormat;

verus! {

/// What a buffer is bound as.
#[derive(Clone, Copy, Debug, PartialEq, Eq, Structural)]
pub enum BufferUsage {
    Vertex,
    Index,
}

/// A buffer that lives for one frame: the `slot`-th buffer of its usage that
/// the frame created.
#[derive(Clone, Copy, Debug, PartialEq, Eq, Structural)]
pub struct BufferHandle {
    pub usage: BufferUsage,
    pub slot: usize,
}

/// A colour of four 64-bit floats, each held as its bit pattern.
#[derive(Clone, Copy, Debug, PartialEq, Eq, Structural)]
pub struct Color {
    pub r: u64,
    pub g: u64,
    pub b: u64,
    pub a: u64,
}

impl Color {
    /// Black that covers nothing: every component is `+0.0`.
    pub open spec fn spec_transparent() -> Color {
        Color { r: 0, g: 0, b: 0, a: 0 }
    }

    #[verifier::when_used_as_spec(spec_transparent)]
    pub fn transparent() -> (color: Color)
        ensures
            color == Self::spec_transparent(),
    {
        Color { r: 0, g: 0, b: 0, a: 0 }
    }
}

/// One step of a frame.
#[derive(Clone, Debug, PartialEq, Eq)]
pub enum GpuCommand {
    /// Make a view of the acquired image with default settings.
    CreateView,
    /// Open the command encoder of the frame.
    CreateEncoder,
    /// Begin the render pass on the view: clear it to `clear`, keep what is
    /// drawn if `store`, no multisample resolve, no depth or stencil.
    BeginRenderPass { clear: Color, store: bool },
    /// Create `buffer` and fill it with `contents`.
    CreateBuffer { buffer: BufferHandle, contents: Vec<u8> },
    /// Bind the pipeline stored under `name`.
    SetPipeline { name: String },
    /// Bind the whole of `buffer` as the vertex buffer of `slot`.
    SetVertexBuffer { slot: u32, buffer: BufferHandle },
    /// Bind the whole of `buffer` as the index buffer, its indices of `format`.
    SetIndexBuffer { buffer: BufferHandle, format: IndexFormat },
    /// Draw the indices from `first_index` up to `end_index`, each offset by
    /// `base_vertex`, for the instances from `first_instance` up to
    /// `end_instance`.
    DrawIndexed {
        first_index: u32,
        end_index: u32,
        base_vertex: i32,
        first_instance: u32,
        end_instance: u32,
    },
    /// End the render pass.
    EndRenderPass,
    /// Close the encoder and hand its commands to the queue.
    Submit,
    /// Show the acquired image.
    Present,
    /// Release `buffer`.
    DestroyBuffer { buffer: BufferHandle },
}

/// One step of a frame as a mathematical value.
pub enum Command {
    CreateView,
    CreateEncoder,
    BeginRenderPass { clear: Color, store: bool },
    CreateBuffer { buffer: BufferHandle, contents: Seq<u8> },
    SetPipeline { name: Seq<char> },
    SetVertexBuffer { slot: u32, buffer: BufferHandle },
    SetIndexBuffer { buffer: BufferHandle, format: IndexFormat },
    DrawIndexed {
        first_index: u32,
        end_index: u32,
        base_vertex: i32,
        first_instance: u32,
        end_instance: u32,
    },
    EndRenderPass,
    Submit,
    Present,
    DestroyBuffer { buffer: BufferHandle },
}

impl View for GpuCommand {
    type V = Command;

    open spec fn view(&self) -> Command {
        match *self {
            GpuCommand::CreateView => Command::CreateView,
            GpuCommand::CreateEncoder => Command::CreateEncoder,
            GpuCommand::BeginRenderPass { clear, store } => Command::BeginRenderPass {
                clear,
                store,
            },
            GpuCommand::CreateBuffer { buffer, contents } => Command::CreateBuffer {
                buffer,
                contents: contents@,
            },
            GpuCommand::SetPipeline { name } => Command::SetPipeline { name: name@ },
            GpuCommand::SetVertexBuffer { slot, buffer } => Command::SetVertexBuffer {
                slot,
                buffer,
            },
            GpuCommand::SetIndexBuffer { buffer, format } => Command::SetIndexBuffer {
                buffer,
                format,
            },
            GpuCommand::DrawIndexed {
                first_index,
                end_index,
                base_vertex,
                first_instance,
                end_instance,
            } => Command::DrawIndexed {
                first_index,
                end_index,
                base_vertex,
                first_instance,
                end_instance,
            },
            GpuCommand::EndRenderPass => Command::EndRenderPass,
            GpuCommand::Submit => Command::Submit,
            GpuCommand::Present => Command::Present,
            GpuCommand::DestroyBuffer { buffer } => Command::DestroyBuffer { buffer },
        }
    }
}

/// A list of commands as a mathematical value.
pub open spec fn commands_view(commands: Seq<GpuCommand>) -> Seq<Command> {
    Seq::new(commands.len(), |i: int| commands[i]@)
}

/// The `slot`-th buffer of `usage` of a frame.
pub open spec fn buffer(usage: BufferUsage, slot: int) -> BufferHandle {
    BufferHandle { usage, slot: slot as usize }
}

/// The `slot`-th vertex buffer of a frame.
pub open spec fn vertex_buffer(slot: int) -> BufferHandle {
    buffer(BufferUsage::Vertex, slot)
}

/// The `slot`-th index buffer of a frame.
pub open spec fn index_buffer(slot: int) -> BufferHandle {
    buffer(BufferUsage::Index, slot)
}

/// The `count` buffers of `usage` that a frame creates after its first
/// `base` ones, in the order it creates them.
pub open spec fn buffers_from(usage: BufferUsage, base: int, count: nat) -> Seq<BufferHandle> {
    Seq::new(count, |k: int| buffer(usage, base + k))
}

/// The first `count` buffers of `usage` that a frame creates, in the order
/// it creates them.
pub open spec fn buffers_of(usage: BufferUsage, count: nat) -> Seq<BufferHandle> {
    buffers_from(usage, 0, count)
}

/// The number of indices that a draw of `len` indices names: the draw call
/// counts in 32 bits, so a longer list wraps round.
pub open spec fn index_count(len: nat) -> u32 {
    (len % 0x1_0000_0000) as u32
}

/// What one object contributes to a frame: the contents of its two buffers
/// and the number of indices to draw.
pub struct Upload {
    pub vertices: Seq<u8>,
    pub indices: Seq<u8>,
    pub index_count: u32,
}

/// How a frame starts: a view of the acquired image, an encoder, and one
/// render pass that clears the view to transparent black and keeps what is
/// drawn.
pub open spec fn frame_opening() -> Seq<Command> {
    seq![
        Command::CreateView,
        Command::CreateEncoder,
        Command::BeginRenderPass { clear: Color::spec_transparent(), store: true },
    ]
}

/// How one object is drawn with the pipeline `pipeline`, its vertices in the
/// `vertex_slot`-th vertex buffer of the frame and its indices in the
/// `index_slot`-th index buffer: the two buffers are created, the pipeline is
/// bound, the vertex buffer is bound at slot 0 and the index buffer as 16-bit
/// indices, and all its indices are drawn once.
pub open spec fn object_commands(
    vertex_slot: int,
    index_slot: int,
    upload: Upload,
    pipeline: Seq<char>,
) -> Seq<Command> {
    seq![
        Command::CreateBuffer { buffer: vertex_buffer(vertex_slot), contents: upload.vertices },
        Command::CreateBuffer { buffer: index_buffer(index_slot), contents: upload.indices },
        Command::SetPipeline { name: pipeline },
        Command::SetVertexBuffer { slot: 0, buffer: vertex_buffer(vertex_slot) },
        Command::SetIndexBuffer { buffer: index_buffer(index_slot), format: IndexFormat::Uint16 },
        Command::DrawIndexed {
            first_index: 0,
            end_index: upload.index_count,
            base_vertex: 0,
            first_instance: 0,
            end_instance: 1,
        },
    ]
}

/// The commands that draw `uploads`, object after object, into a frame that
/// has created `vertex_base` vertex buffers and `index_base` index buffers
/// before.
pub open spec fn draw_commands(
    uploads: Seq<Upload>,
    pipeline: Seq<char>,
    vertex_base: int,
    index_base: int,
) -> Seq<Command>
    decreases uploads.len(),
{
    if uploads.len() == 0 {
        Seq::empty()
    } else {
        draw_commands(uploads.drop_last(), pipeline, vertex_base, index_base) + object_commands(
            vertex_base + uploads.len() - 1,
            index_base + uploads.len() - 1,
            uploads.last(),
            pipeline,
        )
    }
}

/// How a frame is handed over: the pass ends, the encoder is submitted, the
/// image is presented.
pub open spec fn frame_closing() -> Seq<Command> {
    seq![Command::EndRenderPass, Command::Submit, Command::Present]
}

/// The commands that release `buffers`, in their order.
pub open spec fn release_commands(buffers: Seq<BufferHandle>) -> Seq<Command> {
    Seq::new(buffers.len(), |i: int| Command::DestroyBuffer { buffer: buffers[i] })
}

/// The commands that release every buffer of a frame that drew `objects`
/// objects: the vertex buffers, then the index buffers.
pub open spec fn frame_release(objects: nat) -> Seq<Command> {
    release_commands(buffers_of(BufferUsage::Vertex, objects)) + release_commands(
        buffers_of(BufferUsage::Index, objects),
    )
}

/// A whole frame that draws `uploads` with the pipeline `pipeline`.
pub open spec fn frame_commands(uploads: Seq<Upload>, pipeline: Seq<char>) -> Seq<Command> {
    frame_opening() + draw_commands(uploads, pipeline, 0, 0) + frame_closing() + frame_release(
        uploads.len(),
    )
}

/// Where the commands of each object stand among the commands that draw a
/// list of objects: six for each object, one object after the other.
pub proof fn draw_commands_layout(
    uploads: Seq<Upload>,
    pipeline: Seq<char>,
    vertex_base: int,
    index_base: int,
)
    ensures
        draw_commands(uploads, pipeline, vertex_base, index_base).len() == 6 * uploads.len(),
        forall|k: int|
            0 <= k < uploads.len() ==> #[trigger] draw_commands(
                uploads,
                pipeline,
                vertex_base,
                index_base,
            ).subrange(6 * k, 6 * k + 6) == object_commands(
                vertex_base + k,
                index_base + k,
                uploads[k],
                pipeline,
            ),
    decreases uploads.len(),
{
    if uploads.len() > 0 {
        let rest = uploads.drop_last();
        let n = uploads.len() as int;
        draw_commands_layout(rest, pipeline, vertex_base, index_base);
        let all = draw_commands(uploads, pipeline, vertex_base, index_base);
        let before = draw_commands(rest, pipeline, vertex_base, index_base);
        assert forall|k: int| 0 <= k < uploads.len() implies #[trigger] all.subrange(
            6 * k,
            6 * k + 6,
        ) == object_commands(vertex_base + k, index_base + k, uploads[k], pipeline) by {
            if k < n - 1 {
                assert(all.subrange(6 * k, 6 * k + 6) =~= before.subrange(6 * k, 6 * k + 6));
                assert(rest[k] == uploads[k]);
            } else {
                assert(all.subrange(6 * k, 6 * k + 6) =~= object_commands(
                    vertex_base + n - 1,
                    index_base + n - 1,
                    uploads.last(),
                    pipeline,
                ));
            }
        }
    }
}

/// Where everything stands in a frame of `n` objects: the three opening
/// commands; six commands for each object, in the order of the objects, so
/// that an object registered earlier is drawn earlier; the three closing
/// commands; then the release of the `n` vertex buffers and of the `n`
/// index buffers. No buffer is released before the image is presented.
pub proof fn frame_commands_layout(uploads: Seq<Upload>, pipeline: Seq<char>)
    ensures
        ({
            let frame = frame_commands(uploads, pipeline);
            let n = uploads.len() as int;
            &&& frame.len() == 8 * n + 6
            &&& frame.subrange(0, 3) == frame_opening()
            &&& forall|k: int|
                0 <= k < n ==> #[trigger] frame.subrange(3 + 6 * k, 9 + 6 * k) == object_commands(
                    k,
                    k,
                    uploads[k],
                    pipeline,
                )
            &&& frame.subrange(3 + 6 * n, 6 + 6 * n) == frame_closing()
            &&& forall|k: int|
                0 <= k < n ==> #[trigger] frame[6 + 6 * n + k] == (Command::DestroyBuffer {
                    buffer: vertex_buffer(k),
                })
            &&& forall|k: int|
                0 <= k < n ==> #[trigger] frame[6 + 7 * n + k] == (Command::DestroyBuffer {
                    buffer: index_buffer(k),
                })
        }),
{
    let frame = frame_commands(uploads, pipeline);
    let draws = draw_commands(uploads, pipeline, 0, 0);
    let n = uploads.len() as int;
    draw_commands_layout(uploads, pipeline, 0, 0);
    assert(frame.subrange(0, 3) =~= frame_opening());
    assert(frame.subrange(3 + 6 * n, 6 + 6 * n) =~= frame_closing());
    assert forall|k: int| 0 <= k < n implies #[trigger] frame.subrange(3 + 6 * k, 9 + 6 * k)
        == object_commands(k, k, uploads[k], pipeline) by {
        assert(frame.subrange(3 + 6 * k, 9 + 6 * k) =~= draws.subrange(6 * k, 6 * k + 6));
    }
    assert forall|k: int| 0 <= k < n implies #[trigger] frame[6 + 6 * n + k]
        == (Command::DestroyBuffer { buffer: vertex_buffer(k) }) by {
        assert(frame[6 + 6 * n + k] == frame_release(uploads.len())[k]);
    }
    assert forall|k: int| 0 <= k < n implies #[trigger] frame[6 + 7 * n + k]
        == (Command::DestroyBuffer { buffer: index_buffer(k) }) by {
        assert(frame[6 + 7 * n + k] == frame_release(uploads.len())[n + k]);
    }
}

/// The recorder of one frame. It collects the commands of the frame and owns
/// the buffers that the frame creates, from the moment each is created until
/// the frame is finished: finishing takes the recorder, so no buffer can
/// outlive its frame.
#[derive(Debug)]
pub struct RenderPass {
    commands: Vec<GpuCommand>,
    vertex_buffers: Vec<BufferHandle>,
    index_buffers: Vec<BufferHandle>,
}

impl RenderPass {
    /// The frame owns the buffers that its commands create: every buffer
    /// that a recorded command creates is among the buffers of the frame.
    pub closed spec fn wf(&self) -> bool {
        forall|h: BufferHandle| #[trigger]
            creates(self.recorded(), h) ==> self.vertex_buffers@.contains(h)
                || self.index_buffers@.contains(h)
    }

    /// The commands recorded so far.
    pub closed spec fn recorded(&self) -> Seq<Command> {
        commands_view(self.commands@)
    }

    /// The vertex buffers the frame has created, in the order it created
    /// them.
    pub closed spec fn vertex_buffers(&self) -> Seq<BufferHandle> {
        self.vertex_buffers@
    }

    /// The index buffers the frame has created, in the order it created
    /// them.
    pub closed spec fn index_buffers(&self) -> Seq<BufferHandle> {
        self.index_buffers@
    }

    /// The buffers of `usage` the frame has created.
    pub open spec fn buffers(&self, usage: BufferUsage) -> Seq<BufferHandle> {
        match usage {
            BufferUsage::Vertex => self.vertex_buffers(),
            BufferUsage::Index => self.index_buffers(),
        }
    }

    /// The recorder after `command` was recorded.
    pub open spec fn records(&self, before: &RenderPass, command: Command) -> bool {
        &&& self.wf()
        &&& self.recorded() == before.recorded().push(command)
        &&& self.vertex_buffers() == before.vertex_buffers()
        &&& self.index_buffers() == before.index_buffers()
    }

    /// Starts the frame on an acquired image: a view of the image, an
    /// encoder, and a render pass that clears the view to transparent black.
    pub fn begin() -> (pass: RenderPass)
        ensures
            pass.wf(),
            pass.recorded() == frame_opening(),
            pass.vertex_buffers() == Seq::<BufferHandle>::empty(),
            pass.index_buffers() == Seq::<BufferHandle>::empty(),
    {
        let mut commands: Vec<GpuCommand> = Vec::new();
        commands.push(GpuCommand::CreateView);
        commands.push(GpuCommand::CreateEncoder);
        commands.push(GpuCommand::BeginRenderPass { clear: Color::transparent(), store: true });
        let pass = RenderPass { commands, vertex_buffers: Vec::new(), index_buffers: Vec::new() };
        assert(pass.recorded() =~= frame_opening());
        pass
    }

    fn record(&mut self, command: GpuCommand)
        requires
            old(self).wf(),
            !(command is CreateBuffer),
        ensures
            final(self).records(old(self), command@),
    {
        self.commands.push(command);
        assert(self.recorded() =~= old(self).recorded().push(command@));
        assert forall|h: BufferHandle| #[trigger] creates(self.recorded(), h) implies creates(
            old(self).recorded(),
            h,
        ) by {
            let i = choose|i: int|
                0 <= i < self.recorded().len() && (#[trigger] self.recorded()[i] matches Command::CreateBuffer {
                    buffer,
                    ..
                } && buffer == h);
            assert(old(self).recorded()[i] == self.recorded()[i]);
        }
    }

    /// Creates a buffer of `usage` filled with `contents`. The frame owns it
    /// from now on; its slot is the number of buffers of that usage the
    /// frame had created before.
    pub fn create_buffer(&mut self, usage: BufferUsage, contents: Vec<u8>) -> (buffer: BufferHandle)
        requires
            old(self).wf(),
        ensures
            final(self).wf(),
            buffer == (BufferHandle { usage, slot: old(self).buffers(usage).len() as usize }),
            final(self).recorded() == old(self).recorded().push(
                Command::CreateBuffer { buffer, contents: contents@ },
            ),
            final(self).buffers(usage) == old(self).buffers(usage).push(buffer),
            forall|other: BufferUsage|
                other != usage ==> final(self).buffers(other) == old(self).buffers(other),
    {
        let buffer = match usage {
            BufferUsage::Vertex => {
                let buffer = BufferHandle { usage, slot: self.vertex_buffers.len() };
                self.vertex_buffers.push(buffer);
                buffer
            },
            BufferUsage::Index => {
                let buffer = BufferHandle { usage, slot: self.index_buffers.len() };
                self.index_buffers.push(buffer);
                buffer
            },
        };
        self.commands.push(GpuCommand::CreateBuffer { buffer, contents });
        proof {
            assert(self.recorded() =~= old(self).recorded().push(
                Command::CreateBuffer { buffer, contents: contents@ },
            ));
            assert(self.vertex_buffers@.contains(buffer) || self.index_buffers@.contains(buffer))
                by {
                match usage {
                    BufferUsage::Vertex => {
                        assert(self.vertex_buffers@[self.vertex_buffers@.len() - 1] == buffer);
                    },
                    BufferUsage::Index => {
                        assert(self.index_buffers@[self.index_buffers@.len() - 1] == buffer);
                    },
                }
            }
            assert forall|h: BufferHandle| #[trigger]
                creates(self.recorded(), h) implies self.vertex_buffers@.contains(h)
                || self.index_buffers@.contains(h) by {
                let i = choose|i: int|
                    0 <= i < self.recorded().len() && (#[trigger] self.recorded()[i] matches Command::CreateBuffer {
                        buffer,
                        ..
                    } && buffer == h);
                if i < old(self).recorded().len() {
                    assert(old(self).recorded()[i] == self.recorded()[i]);
                    assert(creates(old(self).recorded(), h));
                    if old(self).vertex_buffers@.contains(h) {
                        let j = choose|j: int|
                            0 <= j < old(self).vertex_buffers@.len() && old(self).vertex_buffers@[j]
                                == h;
                        assert(self.vertex_buffers@[j] == h);
                    } else {
                        let j = choose|j: int|
                            0 <= j < old(self).index_buffers@.len() && old(self).index_buffers@[j]
                                == h;
                        assert(self.index_buffers@[j] == h);
                    }
                }
            }
        }
        buffer
    }

    /// Binds the pipeline stored under `name`.
    pub fn set_pipeline(&mut self, name: &str)
        requires
            old(self).wf(),
        ensures
            final(self).records(old(self), Command::SetPipeline { name: name@ }),
    {
        self.record(GpuCommand::SetPipeline { name: name.to_owned() });
    }

    /// Binds the whole of `buffer` as the vertex buffer of `slot`.
    pub fn set_vertex_buffer(&mut self, slot: u32, buffer: BufferHandle)
        requires
            old(self).wf(),
        ensures
            final(self).records(old(self), Command::SetVertexBuffer { slot, buffer }),
    {
        self.record(GpuCommand::SetVertexBuffer { slot, buffer });
    }

    /// Binds the whole of `buffer` as the index buffer, its indices of
    /// `format`.
    pub fn set_index_buffer(&mut self, buffer: BufferHandle, format: IndexFormat)
        requires
            old(self).wf(),
        ensures
            final(self).records(old(self), Command::SetIndexBuffer { buffer, format }),
    {
        self.record(GpuCommand::SetIndexBuffer { buffer, format });
    }

    /// Draws the indices from `first_index` up to `end_index`, each offset
    /// by `base_vertex`, for the instances from `first_instance` up to
    /// `end_instance`.
    pub fn draw_indexed(
        &mut self,
        first_index: u32,
        end_index: u32,
        base_vertex: i32,
        first_instance: u32,
        end_instance: u32,
    )
        requires
            old(self).wf(),
        ensures
            final(self).records(
                old(self),
                Command::DrawIndexed {
                    first_index,
                    end_index,
                    base_vertex,
                    first_instance,
                    end_instance,
                },
            ),
    {
        self.record(
            GpuCommand::DrawIndexed {
                first_index,
                end_index,
                base_vertex,
                first_instance,
                end_instance,
            },
        );
    }

    /// Finishes the frame: ends the pass, submits, presents, and only then
    /// releases every buffer the frame created, the vertex buffers first.
    /// The result is the whole frame, to be carried out in order.
    ///
    /// Whatever was recorded, no buffer of the frame outlives it: on a
    /// device that carries the frame out, no buffer is alive afterwards that
    /// was not alive before.
    pub fn finish(self) -> (commands: Vec<GpuCommand>)
        requires
            self.wf(),
        ensures
            commands_view(commands@) == self.recorded() + frame_closing() + release_commands(
                self.vertex_buffers(),
            ) + release_commands(self.index_buffers()),
            leaves_no_buffer(commands_view(commands@)),
    {
        proof {
            release_after_create(self.recorded(), self.vertex_buffers(), self.index_buffers());
        }
        let RenderPass { mut commands, vertex_buffers, index_buffers } = self;
        let ghost recorded = commands_view(commands@);
        commands.push(GpuCommand::EndRenderPass);
        commands.push(GpuCommand::Submit);
        commands.push(GpuCommand::Present);
        assert(commands_view(commands@) =~= recorded + frame_closing());
        let mut i: usize = 0;
        while i < vertex_buffers.len()
            invariant
                i <= vertex_buffers@.len(),
                commands_view(commands@) == recorded + frame_closing() + release_commands(
                    vertex_buffers@.subrange(0, i as int),
                ),
            decreases vertex_buffers@.len() - i,
        {
            let ghost before = commands_view(commands@);
            commands.push(GpuCommand::DestroyBuffer { buffer: vertex_buffers[i] });
            proof {
                let destroy = Command::DestroyBuffer { buffer: vertex_buffers@[i as int] };
                assert(commands_view(commands@) =~= before.push(destroy));
                assert(release_commands(vertex_buffers@.subrange(0, i + 1)) =~= release_commands(
                    vertex_buffers@.subrange(0, i as int),
                ).push(destroy));
                assert(commands_view(commands@) =~= recorded + frame_closing() + release_commands(
                    vertex_buffers@.subrange(0, i + 1),
                ));
            }
            i += 1;
        }
        assert(vertex_buffers@.subrange(0, i as int) =~= vertex_buffers@);
        let ghost released = commands_view(commands@);
        let mut j: usize = 0;
        while j < index_buffers.len()
            invariant
                j <= index_buffers@.len(),
                commands_view(commands@) == released + release_commands(
                    index_buffers@.subrange(0, j as int),
                ),
            decreases index_buffers@.len() - j,
        {
            let ghost before = commands_view(commands@);
            commands.push(GpuCommand::DestroyBuffer { buffer: index_buffers[j] });
            proof {
                let destroy = Command::DestroyBuffer { buffer: index_buffers@[j as int] };
                assert(commands_view(commands@) =~= before.push(destroy));
                assert(release_commands(index_buffers@.subrange(0, j + 1)) =~= release_commands(
                    index_buffers@.subrange(0, j as int),
                ).push(destroy));
                assert(commands_view(commands@) =~= released + release_commands(
                    index_buffers@.subrange(0, j + 1),
                ));
            }
            j += 1;
        }
        assert(index_buffers@.subrange(0, j as int) =~= index_buffers@);
        commands
    }
}

} // verus!
