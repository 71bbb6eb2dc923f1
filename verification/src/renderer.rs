//! The frame renderer: what is recorded for each object of a frame.

use vstd::prelude::*;
use crate::bytes::{index_bytes, is_memory_of_halves, is_memory_of_words, vertex_bytes};
use crate::cache::GeometryCache;
use crate::command::{
    buffers_from, draw_commands, index_buffer, index_count, vertex_buffer, BufferUsage, Command,
    RenderPass, Upload,
};
use crate::error::{KappaError, RenderError};
use crate::pipeline::IndexFormat;
use crate::render::{RenderInstance, RenderObject, PIPELINE_NAME};
use crate::vertex::packed_words;

verus! {

/// `upload` is what `object` contributes to a frame: its vertices and its
/// indices as they lie in memory, and the number of its indices.
pub open spec fn is_upload_of(upload: Upload, object: RenderObject, cache: &GeometryCache) -> bool {
    &&& is_memory_of_words(upload.vertices, packed_words(object.vertices(cache)))
    &&& is_memory_of_halves(upload.indices, object.indices(cache))
    &&& upload.index_count == index_count(object.indices(cache).len())
}

/// `uploads` is what `objects` contribute to a frame, object by object.
pub open spec fn are_uploads_of(
    uploads: Seq<Upload>,
    objects: Seq<RenderObject>,
    cache: &GeometryCache,
) -> bool {
    &&& uploads.len() == objects.len()
    &&& forall|k: int|
        0 <= k < objects.len() ==> is_upload_of(#[trigger] uploads[k], objects[k], cache)
}

/// Whether a frame of `instance` can be drawn: there is nothing to draw, or
/// the pipeline to draw with has been built.
pub open spec fn can_draw(instance: &RenderInstance) -> bool {
    instance.spec_objects().len() == 0 || instance.spec_pipelines().contains_key(PIPELINE_NAME@)
}

/// The number of indices that a draw of a list of `len` indices names.
pub fn draw_count(len: usize) -> (count: u32)
    ensures
        count == index_count(len as nat),
{
    let wide: u64 = len as u64;
    (wide % 0x1_0000_0000) as u32
}

/// The frame renderer. It keeps nothing between frames: the buffers of a
/// frame belong to the recorder of that frame.
#[derive(Debug)]
pub struct RenderSystem {}

impl RenderSystem {
    /// Makes the frame renderer for `instance`.
    pub fn new(instance: &RenderInstance) -> (made: Result<RenderSystem, RenderError>)
        ensures
            made is Ok,
    {
        Ok(RenderSystem {  })
    }

    /// Records the objects of `instance` into `pass`, in the order they were
    /// registered. For each object in turn: its vertex buffer and its index
    /// buffer are created from the geometry cache, the pipeline is bound, the
    /// vertex buffer is bound at slot 0, the index buffer as 16-bit indices,
    /// and all its indices are drawn once.
    ///
    /// The pipeline is looked up when the first object has its buffers. If
    /// it is missing, recording stops there with an error.
    pub fn render(&mut self, pass: &mut RenderPass, instance: &mut RenderInstance) -> (done: Result<
        (),
        RenderError,
    >)
        requires
            old(instance).wf(),
            old(pass).wf(),
        ensures
            final(pass).wf(),
            *final(self) == *old(self),
            *final(instance) == *old(instance),
            done is Ok <==> can_draw(old(instance)),
            done is Ok ==> exists|uploads: Seq<Upload>|
                {
                    &&& are_uploads_of(
                        uploads,
                        old(instance).spec_objects(),
                        old(instance).spec_cache(),
                    )
                    &&& final(pass).recorded() == old(pass).recorded() + #[trigger] draw_commands(
                        uploads,
                        PIPELINE_NAME@,
                        old(pass).vertex_buffers().len() as int,
                        old(pass).index_buffers().len() as int,
                    )
                },
            done is Ok ==> final(pass).vertex_buffers() == old(pass).vertex_buffers()
                + buffers_from(
                BufferUsage::Vertex,
                old(pass).vertex_buffers().len() as int,
                old(instance).spec_objects().len(),
            ),
            done is Ok ==> final(pass).index_buffers() == old(pass).index_buffers() + buffers_from(
                BufferUsage::Index,
                old(pass).index_buffers().len() as int,
                old(instance).spec_objects().len(),
            ),
            done matches Err(e) ==> e.is_pipeline_lookup_failed("Unable to set Render Pipeline!"@),
            done is Err ==> exists|upload: Upload|
                {
                    &&& is_upload_of(
                        upload,
                        old(instance).spec_objects()[0],
                        old(instance).spec_cache(),
                    )
                    &&& final(pass).recorded() == old(pass).recorded() + #[trigger] abandoned_commands(
                        upload,
                        old(pass).vertex_buffers().len() as int,
                        old(pass).index_buffers().len() as int,
                    )
                },
            done is Err ==> final(pass).vertex_buffers() == old(pass).vertex_buffers().push(
                vertex_buffer(old(pass).vertex_buffers().len() as int),
            ),
            done is Err ==> final(pass).index_buffers() == old(pass).index_buffers().push(
                index_buffer(old(pass).index_buffers().len() as int),
            ),
    {
        let objects = instance.render_objects();
        let cache = instance.cache();
        let pipelines = instance.pipelines();
        let ghost vertex_base = pass.vertex_buffers().len() as int;
        let ghost index_base = pass.index_buffers().len() as int;
        let ghost mut uploads: Seq<Upload> = Seq::empty();
        proof {
            instance.objects_are_in_cache();
        }
        let mut k: usize = 0;
        while k < objects.len()
            invariant
                k <= objects@.len(),
                objects@ == instance.spec_objects(),
                cache == instance.spec_cache(),
                pipelines@ == instance.spec_pipelines(),
                pipelines.wf(),
                pass.wf(),
                forall|j: int| 0 <= j < objects@.len() ==> (#[trigger] objects@[j]).is_in(cache),
                vertex_base == old(pass).vertex_buffers().len(),
                index_base == old(pass).index_buffers().len(),
                k > 0 ==> pipelines@.contains_key(PIPELINE_NAME@),
                are_uploads_of(uploads, objects@.subrange(0, k as int), cache),
                pass.recorded() == old(pass).recorded() + draw_commands(
                    uploads,
                    PIPELINE_NAME@,
                    vertex_base,
                    index_base,
                ),
                pass.vertex_buffers() == old(pass).vertex_buffers() + buffers_from(
                    BufferUsage::Vertex,
                    vertex_base,
                    k as nat,
                ),
                pass.index_buffers() == old(pass).index_buffers() + buffers_from(
                    BufferUsage::Index,
                    index_base,
                    k as nat,
                ),
            decreases objects@.len() - k,
        {
            let object = objects[k];
            // Every object of a well-formed context has its lists in the
            // cache, so neither lookup can come back empty.
            assert(object.is_in(cache));
            let vertices = match cache.get_vertex(object.vertex_addr()) {
                Some(vertices) => vertices,
                None => {
                    assert(false);
                    return Err(
                        RenderError::BufferOrSubmissionFailed(
                            KappaError::new("Unable to set Vertex Buffer!"),
                        ),
                    );
                },
            };
            let indices = match cache.get_index(object.index_addr()) {
                Some(indices) => indices,
                None => {
                    assert(false);
                    return Err(
                        RenderError::BufferOrSubmissionFailed(
                            KappaError::new("Unable to get last index buffer!"),
                        ),
                    );
                },
            };
            let ghost before = pass.recorded();
            let ghost vertex_buffers_before = pass.vertex_buffers();
            let ghost index_buffers_before = pass.index_buffers();
            let vertex_contents = vertex_bytes(vertices);
            let index_contents = index_bytes(indices);
            let count = draw_count(indices.len());
            let ghost upload = Upload {
                vertices: vertex_contents@,
                indices: index_contents@,
                index_count: count,
            };
            assert(is_upload_of(upload, object, cache));

            let vertex = pass.create_buffer(BufferUsage::Vertex, vertex_contents);
            assert(pass.index_buffers() == index_buffers_before) by {
                assert(pass.buffers(BufferUsage::Index) == index_buffers_before);
            }
            assert(pass.vertex_buffers() == vertex_buffers_before.push(vertex)) by {
                assert(pass.buffers(BufferUsage::Vertex) == vertex_buffers_before.push(vertex));
            }
            let ghost vertex_buffers_after = pass.vertex_buffers();
            let index = pass.create_buffer(BufferUsage::Index, index_contents);
            assert(pass.vertex_buffers() == vertex_buffers_after) by {
                assert(pass.buffers(BufferUsage::Vertex) == vertex_buffers_after);
            }
            assert(pass.index_buffers() == index_buffers_before.push(index)) by {
                assert(pass.buffers(BufferUsage::Index) == index_buffers_before.push(index));
            }
            assert(vertex == vertex_buffer(vertex_base + k));
            assert(index == index_buffer(index_base + k));

            if pipelines.get(PIPELINE_NAME).is_none() {
                proof {
                    assert(k == 0);
                    assert(uploads =~= Seq::<Upload>::empty());
                    assert(before =~= old(pass).recorded());
                    assert(vertex_buffers_before =~= old(pass).vertex_buffers());
                    assert(index_buffers_before =~= old(pass).index_buffers());
                    assert(objects@[0] == instance.spec_objects()[0]);
                    assert(pass.recorded() =~= old(pass).recorded() + abandoned_commands(
                        upload,
                        vertex_base,
                        index_base,
                    ));
                }
                return Err(
                    RenderError::PipelineLookupFailed(
                        KappaError::new("Unable to set Render Pipeline!"),
                    ),
                );
            }
            pass.set_pipeline(PIPELINE_NAME);
            pass.set_vertex_buffer(0, vertex);
            pass.set_index_buffer(index, IndexFormat::Uint16);
            pass.draw_indexed(0, count, 0, 0, 1);

            proof {
                let next = uploads.push(upload);
                assert(next.drop_last() =~= uploads);
                assert(next.last() == upload);
                assert(pass.recorded() =~= before + crate::command::object_commands(
                    vertex_base + k,
                    index_base + k,
                    upload,
                    PIPELINE_NAME@,
                ));
                assert(pass.recorded() =~= old(pass).recorded() + draw_commands(
                    next,
                    PIPELINE_NAME@,
                    vertex_base,
                    index_base,
                ));
                assert(pass.vertex_buffers() =~= old(pass).vertex_buffers() + buffers_from(
                    BufferUsage::Vertex,
                    vertex_base,
                    (k + 1) as nat,
                ));
                assert(pass.index_buffers() =~= old(pass).index_buffers() + buffers_from(
                    BufferUsage::Index,
                    index_base,
                    (k + 1) as nat,
                ));
                assert forall|j: int| 0 <= j < k + 1 implies is_upload_of(
                    #[trigger] next[j],
                    objects@.subrange(0, k + 1)[j],
                    cache,
                ) by {
                    if j < k {
                        assert(is_upload_of(uploads[j], objects@.subrange(0, k as int)[j], cache));
                    }
                }
                uploads = next;
            }
            k += 1;
        }
        proof {
            assert(objects@.subrange(0, k as int) =~= objects@);
        }
        Ok(())
    }
}

/// What is recorded for an object when the pipeline turns out to be
/// missing: its two buffers are created, and nothing is bound or drawn.
pub open spec fn abandoned_commands(upload: Upload, vertex_slot: int, index_slot: int) -> Seq<
    Command,
> {
    seq![
        Command::CreateBuffer { buffer: vertex_buffer(vertex_slot), contents: upload.vertices },
        Command::CreateBuffer { buffer: index_buffer(index_slot), contents: upload.indices },
    ]
}

} // verus!
