//! What a frame does to a device that carries it out: a model to hold the
//! frame against.
//!
//! The model keeps what matters about a device for one frame: which buffers
//! are alive and what they hold, what is bound, what was drawn and with
//! which data, and how often commands were submitted and an image was
//! presented. It counts a fault whenever a command comes at a moment at which
//! a device could not carry it out.

use vstd::prelude::*;
use crate::command::{
    buffers_of, draw_commands, frame_closing, frame_commands, frame_opening, index_buffer,
    object_commands, release_commands, vertex_buffer, BufferHandle, BufferUsage, Color, Command,
    Upload,
};
use crate::pipeline::IndexFormat;

verus! {

/// One draw as the device sees it: the pipeline that was bound, what the
/// bound buffers held, and the ranges drawn.
pub struct Draw {
    pub pipeline: Seq<char>,
    pub vertices: Seq<u8>,
    pub indices: Seq<u8>,
    pub index_format: IndexFormat,
    pub first_index: u32,
    pub end_index: u32,
    pub base_vertex: i32,
    pub first_instance: u32,
    pub end_instance: u32,
}

/// An index buffer as it is bound: the buffer and the format of its indices.
pub struct BoundIndex {
    pub buffer: BufferHandle,
    pub format: IndexFormat,
}

/// The state of a device.
pub struct Device {
    /// The buffers that are alive, with what they hold.
    pub buffers: Map<BufferHandle, Seq<u8>>,
    /// Whether a render pass is open.
    pub in_pass: bool,
    /// The pipeline that is bound.
    pub pipeline: Option<Seq<char>>,
    /// The vertex buffer bound at slot 0.
    pub vertex: Option<BufferHandle>,
    /// The index buffer that is bound.
    pub index: Option<BoundIndex>,
    /// The buffers that recorded draws read and that the queue has not been
    /// handed yet.
    pub pending: Seq<BufferHandle>,
    /// Whether commands were submitted that no image was presented for yet.
    pub submitted: bool,
    /// The colours that passes cleared their target to, pass by pass.
    pub clears: Seq<Color>,
    /// The draws, in the order they were recorded.
    pub draws: Seq<Draw>,
    /// How often commands were submitted.
    pub submits: nat,
    /// How often an image was presented.
    pub presents: nat,
    /// How many commands could not be carried out.
    pub faults: nat,
}

impl Device {
    /// A device between two frames: no buffer alive, no pass open, nothing
    /// waiting for the queue or for the display.
    pub open spec fn is_idle(self) -> bool {
        &&& self.buffers.dom() == Set::<BufferHandle>::empty()
        &&& !self.in_pass
        &&& self.pending.len() == 0
        &&& !self.submitted
    }

    /// A device that has done nothing yet.
    pub open spec fn fresh() -> Device {
        Device {
            buffers: Map::empty(),
            in_pass: false,
            pipeline: None,
            vertex: None,
            index: None,
            pending: Seq::empty(),
            submitted: false,
            clears: Seq::empty(),
            draws: Seq::empty(),
            submits: 0,
            presents: 0,
            faults: 0,
        }
    }

    /// Whether a draw can be carried out: a pass is open, a pipeline is
    /// bound, and the bound vertex and index buffers are alive.
    pub open spec fn can_draw(self) -> bool {
        &&& self.in_pass
        &&& self.pipeline is Some
        &&& self.vertex matches Some(v) && self.buffers.contains_key(v)
        &&& self.index matches Some(i) && self.buffers.contains_key(i.buffer)
    }

    /// Whether the recorded commands can be handed to the queue: the pass is
    /// closed and every buffer a recorded draw reads is still alive.
    pub open spec fn can_submit(self) -> bool {
        &&& !self.in_pass
        &&& forall|i: int|
            0 <= i < self.pending.len() ==> self.buffers.contains_key(#[trigger] self.pending[i])
    }

    /// The device with one more fault.
    pub open spec fn fault(self) -> Device {
        Device { faults: self.faults + 1, ..self }
    }

    /// The device after `command`.
    pub open spec fn step(self, command: Command) -> Device {
        match command {
            Command::CreateView => self,
            Command::CreateEncoder => self,
            Command::BeginRenderPass { clear, store } => if self.in_pass {
                self.fault()
            } else {
                Device { in_pass: true, clears: self.clears.push(clear), ..self }
            },
            Command::CreateBuffer { buffer, contents } => Device {
                buffers: self.buffers.insert(buffer, contents),
                ..self
            },
            Command::SetPipeline { name } => Device { pipeline: Some(name), ..self },
            Command::SetVertexBuffer { slot, buffer } => if slot == 0 {
                Device { vertex: Some(buffer), ..self }
            } else {
                self
            },
            Command::SetIndexBuffer { buffer, format } => Device {
                index: Some(BoundIndex { buffer, format }),
                ..self
            },
            Command::DrawIndexed {
                first_index,
                end_index,
                base_vertex,
                first_instance,
                end_instance,
            } => if self.can_draw() {
                Device {
                    draws: self.draws.push(
                        Draw {
                            pipeline: self.pipeline->0,
                            vertices: self.buffers[self.vertex->0],
                            indices: self.buffers[self.index->0.buffer],
                            index_format: self.index->0.format,
                            first_index,
                            end_index,
                            base_vertex,
                            first_instance,
                            end_instance,
                        },
                    ),
                    pending: self.pending.push(self.vertex->0).push(self.index->0.buffer),
                    ..self
                }
            } else {
                self.fault()
            },
            Command::EndRenderPass => if self.in_pass {
                Device { in_pass: false, ..self }
            } else {
                self.fault()
            },
            Command::Submit => if self.can_submit() {
                Device {
                    pending: Seq::empty(),
                    submitted: true,
                    submits: self.submits + 1,
                    ..self
                }
            } else {
                self.fault()
            },
            Command::Present => if self.submitted {
                Device { submitted: false, presents: self.presents + 1, ..self }
            } else {
                self.fault()
            },
            Command::DestroyBuffer { buffer } => Device {
                buffers: self.buffers.remove(buffer),
                ..self
            },
        }
    }

    /// The device after `commands`, carried out in order.
    pub open spec fn replay(self, commands: Seq<Command>) -> Device
        decreases commands.len(),
    {
        if commands.len() == 0 {
            self
        } else {
            self.replay(commands.drop_last()).step(commands.last())
        }
    }
}

/// How the device sees the draw of `upload` with the pipeline `pipeline`:
/// all its indices, as 16-bit indices, drawn once.
pub open spec fn draw_of(upload: Upload, pipeline: Seq<char>) -> Draw {
    Draw {
        pipeline,
        vertices: upload.vertices,
        indices: upload.indices,
        index_format: IndexFormat::Uint16,
        first_index: 0,
        end_index: upload.index_count,
        base_vertex: 0,
        first_instance: 0,
        end_instance: 1,
    }
}

/// How the device sees the draws of `uploads`, in their order.
pub open spec fn draws_of(uploads: Seq<Upload>, pipeline: Seq<char>) -> Seq<Draw> {
    Seq::new(uploads.len(), |k: int| draw_of(uploads[k], pipeline))
}

/// Carrying out one more command is one more step.
pub proof fn replay_push(device: Device, commands: Seq<Command>, command: Command)
    ensures
        device.replay(commands.push(command)) == device.replay(commands).step(command),
{
    assert(commands.push(command).drop_last() =~= commands);
}

/// Carrying out two lists one after the other is carrying out their
/// concatenation.
pub proof fn replay_concat(device: Device, first: Seq<Command>, second: Seq<Command>)
    ensures
        device.replay(first + second) == device.replay(first).replay(second),
    decreases second.len(),
{
    if second.len() == 0 {
        assert(first + second =~= first);
    } else {
        replay_concat(device, first, second.drop_last());
        assert((first + second).drop_last() =~= first + second.drop_last());
    }
}

/// Whether one of `commands` creates the buffer `handle`.
pub open spec fn creates(commands: Seq<Command>, handle: BufferHandle) -> bool {
    exists|i: int|
        0 <= i < commands.len() && (#[trigger] commands[i] matches Command::CreateBuffer {
            buffer,
            ..
        } && buffer == handle)
}

/// No buffer comes alive but by a command that creates it: a buffer that is
/// alive after a list of commands was alive before, or one of the commands
/// creates it.
pub proof fn replay_creates(device: Device, commands: Seq<Command>)
    ensures
        forall|h: BufferHandle| #[trigger]
            device.replay(commands).buffers.contains_key(h) ==> device.buffers.contains_key(h)
                || creates(commands, h),
    decreases commands.len(),
{
    if commands.len() > 0 {
        let rest = commands.drop_last();
        replay_creates(device, rest);
        assert forall|h: BufferHandle| #[trigger]
            device.replay(commands).buffers.contains_key(h) implies device.buffers.contains_key(h)
            || creates(commands, h) by {
            if device.replay(rest).buffers.contains_key(h) {
                if creates(rest, h) {
                    let i = choose|i: int|
                        0 <= i < rest.len() && (#[trigger] rest[i] matches Command::CreateBuffer {
                            buffer,
                            ..
                        } && buffer == h);
                    assert(commands[i] == rest[i]);
                }
            } else {
                assert(commands[commands.len() - 1] == commands.last());
            }
        }
    }
}

/// Whether `commands` leave no buffer behind: on whatever device they are
/// carried out, no buffer is alive afterwards that was not alive before.
pub open spec fn leaves_no_buffer(commands: Seq<Command>) -> bool {
    forall|device: Device, h: BufferHandle| #[trigger]
        device.replay(commands).buffers.contains_key(h) ==> device.buffers.contains_key(h)
}

/// A frame that ends with the release of every buffer it created leaves no
/// buffer behind, whatever it recorded before it was closed.
pub proof fn release_after_create(
    recorded: Seq<Command>,
    vertex_buffers: Seq<BufferHandle>,
    index_buffers: Seq<BufferHandle>,
)
    requires
        forall|h: BufferHandle| #[trigger]
            creates(recorded, h) ==> vertex_buffers.contains(h) || index_buffers.contains(h),
    ensures
        leaves_no_buffer(
            recorded + frame_closing() + release_commands(vertex_buffers) + release_commands(
                index_buffers,
            ),
        ),
{
    let frame = recorded + frame_closing() + release_commands(vertex_buffers) + release_commands(
        index_buffers,
    );
    assert forall|device: Device, h: BufferHandle| #[trigger]
        device.replay(frame).buffers.contains_key(h) implies device.buffers.contains_key(h) by {
        let closed = device.replay(recorded + frame_closing());
        let half = closed.replay(release_commands(vertex_buffers));
        replay_concat(device, recorded + frame_closing(), release_commands(vertex_buffers));
        replay_concat(
            device,
            recorded + frame_closing() + release_commands(vertex_buffers),
            release_commands(index_buffers),
        );
        replay_release(closed, vertex_buffers);
        replay_release(half, index_buffers);
        replay_creates(device, recorded + frame_closing());
        assert(closed.buffers.contains_key(h));
        assert(!vertex_buffers.contains(h));
        assert(!index_buffers.contains(h));
        if creates(recorded + frame_closing(), h) {
            let i = choose|i: int|
                0 <= i < (recorded + frame_closing()).len() && (#[trigger] (recorded
                    + frame_closing())[i] matches Command::CreateBuffer { buffer, .. } && buffer
                    == h);
            if i < recorded.len() {
                assert(recorded[i] == (recorded + frame_closing())[i]);
                assert(creates(recorded, h));
            } else {
                assert((recorded + frame_closing())[i] == frame_closing()[i - recorded.len()]);
            }
        }
    }
}

/// What drawing one object does to a device with an open pass: its two
/// buffers come alive, they and the pipeline are bound, and one draw of the
/// object's data is recorded. Nothing faults.
pub proof fn replay_object(
    device: Device,
    vertex_slot: int,
    index_slot: int,
    upload: Upload,
    pipeline: Seq<char>,
)
    requires
        device.in_pass,
    ensures
        device.replay(object_commands(vertex_slot, index_slot, upload, pipeline)) == (Device {
            buffers: device.buffers.insert(vertex_buffer(vertex_slot), upload.vertices).insert(
                index_buffer(index_slot),
                upload.indices,
            ),
            pipeline: Some(pipeline),
            vertex: Some(vertex_buffer(vertex_slot)),
            index: Some(
                BoundIndex { buffer: index_buffer(index_slot), format: IndexFormat::Uint16 },
            ),
            pending: device.pending.push(vertex_buffer(vertex_slot)).push(
                index_buffer(index_slot),
            ),
            draws: device.draws.push(draw_of(upload, pipeline)),
            ..device
        }),
{
    let commands = object_commands(vertex_slot, index_slot, upload, pipeline);
    let s0 = Seq::<Command>::empty();
    let s1 = s0.push(commands[0]);
    let s2 = s1.push(commands[1]);
    let s3 = s2.push(commands[2]);
    let s4 = s3.push(commands[3]);
    let s5 = s4.push(commands[4]);
    let s6 = s5.push(commands[5]);
    assert(s6 =~= commands);
    replay_push(device, s0, commands[0]);
    replay_push(device, s1, commands[1]);
    replay_push(device, s2, commands[2]);
    replay_push(device, s3, commands[3]);
    replay_push(device, s4, commands[4]);
    replay_push(device, s5, commands[5]);
    let bound = device.replay(s5);
    assert(bound.can_draw());
}

/// Whether `handle` is one of the buffers that drawing `count` objects
/// creates, in a frame that had created `vertex_base` vertex buffers and
/// `index_base` index buffers before.
pub open spec fn is_drawn_buffer(
    handle: BufferHandle,
    vertex_base: int,
    index_base: int,
    count: nat,
) -> bool {
    exists|k: int|
        0 <= k < count && (handle == #[trigger] vertex_buffer(vertex_base + k) || handle
            == index_buffer(index_base + k))
}

/// What drawing a list of objects does to a device with an open pass: the
/// device sees one draw for each object, in the order of the list, each with
/// the data of its own object; exactly the buffers of these objects come
/// alive; every buffer the draws read is alive; nothing faults, and nothing
/// is submitted or presented.
pub proof fn replay_draws(
    device: Device,
    uploads: Seq<Upload>,
    pipeline: Seq<char>,
    vertex_base: int,
    index_base: int,
)
    requires
        device.in_pass,
    ensures
        ({
            let after = device.replay(draw_commands(uploads, pipeline, vertex_base, index_base));
            &&& after.in_pass
            &&& after.draws == device.draws + draws_of(uploads, pipeline)
            &&& after.clears == device.clears
            &&& after.submitted == device.submitted
            &&& after.submits == device.submits
            &&& after.presents == device.presents
            &&& after.faults == device.faults
            &&& after.pending.len() == device.pending.len() + 2 * uploads.len()
            &&& forall|i: int|
                0 <= i < device.pending.len() ==> #[trigger] after.pending[i] == device.pending[i]
            &&& forall|i: int|
                device.pending.len() <= i < after.pending.len() ==> after.buffers.contains_key(
                    #[trigger] after.pending[i],
                )
            &&& forall|h: BufferHandle| #[trigger]
                after.buffers.contains_key(h) <==> device.buffers.contains_key(h)
                    || is_drawn_buffer(h, vertex_base, index_base, uploads.len())
        }),
    decreases uploads.len(),
{
    let commands = draw_commands(uploads, pipeline, vertex_base, index_base);
    let after = device.replay(commands);
    if uploads.len() == 0 {
        assert(device.draws + draws_of(uploads, pipeline) =~= device.draws);
    } else {
        let n = uploads.len() as int;
        let rest = uploads.drop_last();
        let before = device.replay(draw_commands(rest, pipeline, vertex_base, index_base));
        replay_draws(device, rest, pipeline, vertex_base, index_base);
        replay_concat(
            device,
            draw_commands(rest, pipeline, vertex_base, index_base),
            object_commands(vertex_base + n - 1, index_base + n - 1, uploads.last(), pipeline),
        );
        replay_object(before, vertex_base + n - 1, index_base + n - 1, uploads.last(), pipeline);
        assert(after.draws =~= device.draws + draws_of(uploads, pipeline));
        let v = vertex_buffer(vertex_base + n - 1);
        let i = index_buffer(index_base + n - 1);
        assert forall|h: BufferHandle| #[trigger]
            after.buffers.contains_key(h) <==> device.buffers.contains_key(h) || is_drawn_buffer(
                h,
                vertex_base,
                index_base,
                uploads.len(),
            ) by {
            if after.buffers.contains_key(h) {
                if h == v || h == i {
                    assert(h == vertex_buffer(vertex_base + (n - 1)) || h == index_buffer(
                        index_base + (n - 1),
                    ));
                } else {
                    assert(before.buffers.contains_key(h));
                    if is_drawn_buffer(h, vertex_base, index_base, rest.len()) {
                        let k = choose|k: int|
                            0 <= k < rest.len() && (h == #[trigger] vertex_buffer(vertex_base + k)
                                || h == index_buffer(index_base + k));
                        assert(h == vertex_buffer(vertex_base + k) || h == index_buffer(
                            index_base + k,
                        ));
                    }
                }
            }
            if is_drawn_buffer(h, vertex_base, index_base, uploads.len()) {
                let k = choose|k: int|
                    0 <= k < uploads.len() && (h == #[trigger] vertex_buffer(vertex_base + k) || h
                        == index_buffer(index_base + k));
                if k < n - 1 {
                    assert(h == vertex_buffer(vertex_base + k) || h == index_buffer(
                        index_base + k,
                    ));
                    assert(is_drawn_buffer(h, vertex_base, index_base, rest.len()));
                }
            }
        }
        assert forall|j: int| device.pending.len() <= j < after.pending.len() implies after.buffers.contains_key(
             #[trigger] after.pending[j],
        ) by {
            if j < before.pending.len() {
                assert(after.pending[j] == before.pending[j]);
                assert(before.buffers.contains_key(before.pending[j]));
            }
        }
    }
}

/// Releasing a list of buffers takes exactly these buffers from the device
/// and changes nothing else.
pub proof fn replay_release(device: Device, buffers: Seq<BufferHandle>)
    ensures
        device.replay(release_commands(buffers)) == (Device {
            buffers: device.buffers.remove_keys(buffers.to_set()),
            ..device
        }),
    decreases buffers.len(),
{
    let after = device.replay(release_commands(buffers));
    if buffers.len() == 0 {
        assert(device.buffers.remove_keys(buffers.to_set()) =~= device.buffers);
    } else {
        let rest = buffers.drop_last();
        replay_release(device, rest);
        assert(release_commands(buffers).drop_last() =~= release_commands(rest));
        assert(after.buffers =~= device.buffers.remove_keys(buffers.to_set())) by {
            assert forall|h: BufferHandle| buffers.to_set().contains(h) <==> (rest.to_set().contains(
                h,
            ) || h == buffers.last()) by {
                if buffers.to_set().contains(h) {
                    let i = choose|i: int| 0 <= i < buffers.len() && buffers[i] == h;
                    if i < rest.len() {
                        assert(rest[i] == h);
                    }
                }
                if rest.to_set().contains(h) {
                    let i = choose|i: int| 0 <= i < rest.len() && rest[i] == h;
                    assert(buffers[i] == h);
                }
                if h == buffers.last() {
                    assert(buffers[buffers.len() - 1] == h);
                }
            }
        }
    }
}

/// A frame on an idle device. The device sees one pass, cleared to
/// transparent black; one draw for each object, in the order the objects
/// were registered, each with the vertices and indices of its own object,
/// all its indices, once; then one submit and one present. Every buffer a
/// draw reads is alive when the commands are submitted, so nothing faults.
/// When the frame is over no buffer is alive, and the device is idle again.
pub proof fn frame_on_idle_device(device: Device, uploads: Seq<Upload>, pipeline: Seq<char>)
    requires
        device.is_idle(),
    ensures
        ({
            let after = device.replay(frame_commands(uploads, pipeline));
            &&& after.is_idle()
            &&& after.clears == device.clears.push(Color::spec_transparent())
            &&& after.draws == device.draws + draws_of(uploads, pipeline)
            &&& after.submits == device.submits + 1
            &&& after.presents == device.presents + 1
            &&& after.faults == device.faults
        }),
{
    let n = uploads.len();
    let draws = draw_commands(uploads, pipeline, 0, 0);
    let vertex_release = release_commands(buffers_of(BufferUsage::Vertex, n));
    let index_release = release_commands(buffers_of(BufferUsage::Index, n));

    let opened = device.replay(frame_opening());
    assert(opened == (Device {
        in_pass: true,
        clears: device.clears.push(Color::spec_transparent()),
        ..device
    })) by {
        let s0 = Seq::<Command>::empty();
        let s1 = s0.push(frame_opening()[0]);
        let s2 = s1.push(frame_opening()[1]);
        let s3 = s2.push(frame_opening()[2]);
        assert(s3 =~= frame_opening());
        replay_push(device, s0, frame_opening()[0]);
        replay_push(device, s1, frame_opening()[1]);
        replay_push(device, s2, frame_opening()[2]);
    }

    let drawn = opened.replay(draws);
    replay_draws(opened, uploads, pipeline, 0, 0);

    let closed = drawn.replay(frame_closing());
    assert(closed == (Device {
        in_pass: false,
        pending: Seq::empty(),
        submitted: false,
        submits: drawn.submits + 1,
        presents: drawn.presents + 1,
        ..drawn
    })) by {
        let s0 = Seq::<Command>::empty();
        let s1 = s0.push(frame_closing()[0]);
        let s2 = s1.push(frame_closing()[1]);
        let s3 = s2.push(frame_closing()[2]);
        assert(s3 =~= frame_closing());
        replay_push(drawn, s0, frame_closing()[0]);
        replay_push(drawn, s1, frame_closing()[1]);
        replay_push(drawn, s2, frame_closing()[2]);
        let ended = drawn.replay(s1);
        assert(ended.can_submit());
    }

    let half = closed.replay(vertex_release);
    replay_release(closed, buffers_of(BufferUsage::Vertex, n));
    let released = half.replay(index_release);
    replay_release(half, buffers_of(BufferUsage::Index, n));

    assert(released.buffers.dom() =~= Set::<BufferHandle>::empty()) by {
        assert forall|h: BufferHandle| !released.buffers.contains_key(h) by {
            if released.buffers.contains_key(h) {
                assert(drawn.buffers.contains_key(h));
                assert(is_drawn_buffer(h, 0, 0, n));
                let k = choose|k: int|
                    0 <= k < n && (h == #[trigger] vertex_buffer(0 + k) || h == index_buffer(
                        0 + k,
                    ));
                if h == vertex_buffer(k) {
                    assert(buffers_of(BufferUsage::Vertex, n)[k] == h);
                } else {
                    assert(buffers_of(BufferUsage::Index, n)[k] == h);
                }
            }
        }
    }

    assert(frame_commands(uploads, pipeline) == frame_opening() + draws + frame_closing() + (
    vertex_release + index_release));
    replay_concat(device, frame_opening(), draws);
    replay_concat(device, frame_opening() + draws, frame_closing());
    replay_concat(closed, vertex_release, index_release);
    replay_concat(
        device,
        frame_opening() + draws + frame_closing(),
        vertex_release + index_release,
    );
}

} // verus!
