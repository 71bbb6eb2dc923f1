//! The renderer's context: the surface configuration it keeps, the pipelines
//! it has built, and the objects it draws.

use vstd::prelude::*;
use crate::cache::GeometryCache;
use crate::command::{
    buffers_of, commands_view, draw_commands, frame_closing, frame_commands, frame_opening,
    release_commands, BufferUsage, GpuCommand, RenderPass, Upload,
};
use crate::device::{frame_on_idle_device, leaves_no_buffer, Device};
use crate::error::{KappaError, RenderError, SurfaceError};
use crate::renderer::{are_uploads_of, can_draw, RenderSystem};
use crate::pipeline::{build_pipeline, position_color_pipeline, Pipelines, RenderPipelineDescriptorView};
use crate::surface::{
    initial_configuration, PhysicalSize, SurfaceCapabilities, SurfaceConfiguration,
    SurfaceConfigurationView,
};
use crate::vertex::Vertex;

verus! {

/// The name of the one pipeline the renderer builds and draws with.
pub const PIPELINE_NAME: &'static str = "position_color";

/// A thing to draw: the handles of its vertex list and of its index list in
/// the geometry cache. It owns no geometry.
#[derive(Clone, Copy, Debug, PartialEq, Eq, Structural)]
pub struct RenderObject {
    vertex_addr: usize,
    index_addr: usize,
}

impl RenderObject {
    /// The handle of the vertex list.
    pub closed spec fn spec_vertex_addr(self) -> usize {
        self.vertex_addr
    }

    /// The handle of the index list.
    pub closed spec fn spec_index_addr(self) -> usize {
        self.index_addr
    }

    /// Both handles name a list of `cache`.
    pub open spec fn is_in(self, cache: &GeometryCache) -> bool {
        &&& self.spec_vertex_addr() < cache.vertex_lists().len()
        &&& self.spec_index_addr() < cache.index_lists().len()
    }

    /// The vertices of the object.
    pub open spec fn vertices(self, cache: &GeometryCache) -> Seq<Vertex>
        recommends
            self.is_in(cache),
    {
        cache.vertex_lists()[self.spec_vertex_addr() as int]
    }

    /// The indices of the object.
    pub open spec fn indices(self, cache: &GeometryCache) -> Seq<u16>
        recommends
            self.is_in(cache),
    {
        cache.index_lists()[self.spec_index_addr() as int]
    }

    /// Every index names a vertex of the object.
    pub open spec fn spec_indices_valid(self, cache: &GeometryCache) -> bool {
        &&& self.is_in(cache)
        &&& forall|i: int|
            0 <= i < self.indices(cache).len() ==> (#[trigger] self.indices(cache)[i])
                < self.vertices(cache).len()
    }

    /// Registers `vertex` and `index` in `cache` and makes the object that
    /// refers to them.
    pub fn new(cache: &mut GeometryCache, vertex: Vec<Vertex>, index: Vec<u16>) -> (object:
        RenderObject)
        ensures
            object.spec_vertex_addr() == old(cache).vertex_lists().len(),
            object.spec_index_addr() == old(cache).index_lists().len(),
            final(cache).vertex_lists() == old(cache).vertex_lists().push(vertex@),
            final(cache).index_lists() == old(cache).index_lists().push(index@),
            object.is_in(final(cache)),
            object.vertices(final(cache)) == vertex@,
            object.indices(final(cache)) == index@,
    {
        let vertex_addr = cache.alloc_vertex(vertex);
        let index_addr = cache.alloc_index(index);
        RenderObject { vertex_addr, index_addr }
    }

    #[verifier::when_used_as_spec(spec_vertex_addr)]
    pub fn vertex_addr(self) -> (handle: usize)
        ensures
            handle == self.spec_vertex_addr(),
    {
        self.vertex_addr
    }

    #[verifier::when_used_as_spec(spec_index_addr)]
    pub fn index_addr(self) -> (handle: usize)
        ensures
            handle == self.spec_index_addr(),
    {
        self.index_addr
    }

    /// Checks that the object's lists are in `cache` and that every index
    /// names one of its vertices.
    #[verifier::when_used_as_spec(spec_indices_valid)]
    pub fn indices_valid(self, cache: &GeometryCache) -> (valid: bool)
        ensures
            valid == self.spec_indices_valid(cache),
    {
        match (cache.get_vertex(self.vertex_addr), cache.get_index(self.index_addr)) {
            (Some(vertices), Some(indices)) => {
                let mut i: usize = 0;
                while i < indices.len()
                    invariant
                        i <= indices@.len(),
                        self.is_in(cache),
                        indices@ == self.indices(cache),
                        vertices@ == self.vertices(cache),
                        forall|j: int| 0 <= j < i ==> (#[trigger] indices@[j]) < vertices@.len(),
                    decreases indices@.len() - i,
                {
                    if indices[i] as usize >= vertices.len() {
                        assert(!(self.indices(cache)[i as int] < self.vertices(cache).len()));
                        return false;
                    }
                    i += 1;
                }
                true
            },
            _ => false,
        }
    }
}

/// The backends an instance may use.
#[derive(Clone, Copy, Debug, PartialEq, Eq, Structural)]
pub enum Backends {
    /// Every backend there is.
    All,
    /// The backends with first-class support.
    Primary,
    /// The backends with best-effort support.
    Secondary,
}

/// Which adapter to prefer where there are several.
#[derive(Clone, Copy, Debug, PartialEq, Eq, Structural)]
pub enum PowerPreference {
    NoPreference,
    LowPower,
    HighPerformance,
}

/// The limits to ask a device for.
#[derive(Clone, Copy, Debug, PartialEq, Eq, Structural)]
pub enum Limits {
    /// The limits every modern device meets.
    Defaults,
    /// The limits older devices meet as well.
    DownlevelDefaults,
}

/// What the renderer asks of the GPU when it starts.
#[derive(Clone, Copy, Debug, PartialEq, Eq, Structural)]
pub struct Request {
    /// The backends the instance may use.
    pub backends: Backends,
    /// Which adapter to prefer.
    pub power_preference: PowerPreference,
    /// Whether only a software adapter will do.
    pub force_fallback_adapter: bool,
    /// Whether the adapter must be able to draw to the surface of the window.
    pub compatible_with_surface: bool,
    /// Whether any feature beyond the core ones is asked for.
    pub extra_features: bool,
    /// The limits to ask the device for.
    pub limits: Limits,
}

impl Request {
    /// What the renderer asks for: any backend; an adapter that can draw to
    /// the surface, with no preference beyond that and not a software one
    /// by force; a device with the core features and the limits that older
    /// devices meet as well.
    pub open spec fn spec_new() -> Request {
        Request {
            backends: Backends::All,
            power_preference: PowerPreference::NoPreference,
            force_fallback_adapter: false,
            compatible_with_surface: true,
            extra_features: false,
            limits: Limits::DownlevelDefaults,
        }
    }

    #[verifier::when_used_as_spec(spec_new)]
    pub fn new() -> (request: Request)
        ensures
            request == Self::spec_new(),
    {
        Request {
            backends: Backends::All,
            power_preference: PowerPreference::NoPreference,
            force_fallback_adapter: false,
            compatible_with_surface: true,
            extra_features: false,
            limits: Limits::DownlevelDefaults,
        }
    }
}

/// How the negotiation with the GPU ended: at the first step that failed,
/// or with the capabilities of the surface.
#[derive(Debug)]
pub enum Negotiation {
    /// No surface could be made for the window.
    SurfaceFailed,
    /// No adapter is compatible with the surface.
    NoAdapter,
    /// The adapter did not hand out a device and a queue.
    DeviceFailed,
    /// The shader did not compile.
    ShaderFailed,
    /// Surface, adapter, device, queue and shader are there.
    Ready(SurfaceCapabilities),
}

/// The four corners of the square that every renderer starts with, as the
/// words they take in memory: position, colour, texture coordinate.
pub open spec fn quad_words() -> Seq<Seq<u32>> {
    seq![
        seq![0x3e80_0000u32, 0x3e80_0000, 0, 0x3f80_0000, 0, 0x3f80_0000, 0x3f00_0000, 0, 0],
        seq![0x3f40_0000u32, 0x3e80_0000, 0, 0, 0, 0x3f80_0000, 0x3f00_0000, 0, 0],
        seq![0x3f40_0000u32, 0x3f40_0000, 0, 0, 0x3f80_0000, 0, 0x3f00_0000, 0, 0],
        seq![0x3e80_0000u32, 0x3f40_0000, 0, 0x3f80_0000, 0, 0, 0x3f00_0000, 0, 0],
    ]
}

/// `list` is the square that every renderer starts with.
pub open spec fn is_quad(list: Seq<Vertex>) -> bool {
    &&& list.len() == 4
    &&& forall|i: int| 0 <= i < 4 ==> (#[trigger] list[i]).words() == quad_words()[i]
}

/// The two triangles of the square.
pub open spec fn quad_indices() -> Seq<u16> {
    seq![0u16, 1, 2, 2, 3, 0]
}

/// The vertices of the square that every renderer starts with: the corners
/// at a quarter and at three quarters of the way, half transparent, in
/// magenta, blue, green and red.
pub fn quad_vertices() -> (list: Vec<Vertex>)
    ensures
        is_quad(list@),
{
    let quarter: u32 = 0x3e80_0000;
    let three_quarters: u32 = 0x3f40_0000;
    let half: u32 = 0x3f00_0000;
    let one: u32 = 0x3f80_0000;
    let mut list: Vec<Vertex> = Vec::new();
    list.push(
        Vertex { position: [quarter, quarter, 0], color: [one, 0, one, half], tex_coords: [0, 0] },
    );
    list.push(
        Vertex {
            position: [three_quarters, quarter, 0],
            color: [0, 0, one, half],
            tex_coords: [0, 0],
        },
    );
    list.push(
        Vertex {
            position: [three_quarters, three_quarters, 0],
            color: [0, one, 0, half],
            tex_coords: [0, 0],
        },
    );
    list.push(
        Vertex {
            position: [quarter, three_quarters, 0],
            color: [one, 0, 0, half],
            tex_coords: [0, 0],
        },
    );
    proof {
        assert forall|i: int| 0 <= i < 4 implies (#[trigger] list@[i]).words() == quad_words()[i] by {
            assert(list@[i].words() =~= quad_words()[i]);
        }
    }
    list
}

/// The renderer's context. Of what it holds only the size and the surface
/// configuration ever change, and only by `resize`.
#[derive(Debug)]
pub struct RenderInstance {
    size: PhysicalSize,
    config: SurfaceConfiguration,
    pipelines: Pipelines,
    render_objects: Vec<RenderObject>,
    cache: GeometryCache,
}

impl RenderInstance {
    /// The size of the surface.
    pub closed spec fn spec_size(&self) -> PhysicalSize {
        self.size
    }

    /// The configuration of the surface.
    pub closed spec fn spec_config(&self) -> SurfaceConfigurationView {
        self.config@
    }

    /// The pipelines that have been built, by name.
    pub closed spec fn spec_pipelines(&self) -> Map<Seq<char>, RenderPipelineDescriptorView> {
        self.pipelines@
    }

    /// The objects to draw, in the order they were registered.
    pub closed spec fn spec_objects(&self) -> Seq<RenderObject> {
        self.render_objects@
    }

    /// The geometry the objects refer to.
    pub closed spec fn spec_cache(&self) -> &GeometryCache {
        &self.cache
    }

    /// The pipelines are well formed and every object refers to geometry
    /// that is in the cache.
    pub closed spec fn wf(&self) -> bool {
        &&& self.pipelines.wf()
        &&& forall|k: int|
            0 <= k < self.render_objects@.len() ==> (#[trigger] self.render_objects@[k]).is_in(
                &self.cache,
            )
    }

    /// In a well-formed context every object refers to geometry that is in
    /// the cache.
    pub proof fn objects_are_in_cache(&self)
        requires
            self.wf(),
        ensures
            forall|k: int|
                0 <= k < self.spec_objects().len() ==> (#[trigger] self.spec_objects()[k]).is_in(
                    self.spec_cache(),
                ),
    {
    }

    /// The context after a resize to `size`: unchanged where a side of
    /// `size` is zero, else with `size` as its size and as the width and
    /// height of its configuration.
    pub closed spec fn resized(self, size: PhysicalSize) -> RenderInstance {
        if size.spec_is_empty() {
            self
        } else {
            RenderInstance {
                size,
                config: SurfaceConfiguration {
                    width: size.width,
                    height: size.height,
                    ..self.config
                },
                ..self
            }
        }
    }

    /// What a context starts with in a window of `size` on a surface with
    /// the capabilities `caps`: that size; the starting configuration for
    /// these capabilities; the one pipeline, for the format of the
    /// configuration and the layout of a vertex, under its name; and the
    /// square as the one object to draw, its lists the first of the cache.
    pub open spec fn starts_with(&self, size: PhysicalSize, caps: &SurfaceCapabilities) -> bool {
        &&& self.spec_size() == size
        &&& self.spec_config() == initial_configuration(caps.formats@, caps.alpha_modes@, size)
        &&& self.spec_pipelines() == Map::<Seq<char>, RenderPipelineDescriptorView>::empty().insert(
            PIPELINE_NAME@,
            position_color_pipeline(self.spec_config().format, Vertex::spec_desc()),
        )
        &&& self.spec_objects().len() == 1
        &&& self.spec_objects()[0].spec_vertex_addr() == 0
        &&& self.spec_objects()[0].spec_index_addr() == 0
        &&& self.spec_cache().vertex_lists().len() == 1
        &&& self.spec_cache().index_lists().len() == 1
        &&& is_quad(self.spec_cache().vertex_lists()[0])
        &&& self.spec_cache().index_lists()[0] == quad_indices()
    }

    /// What a resize to `size` makes of the context `before`: nothing else
    /// where a side of `size` is zero; else a context of that size, whose
    /// configuration has that width and that height and is otherwise the one
    /// from before, with the same pipelines, objects and geometry.
    pub open spec fn is_resized_from(&self, before: &RenderInstance, size: PhysicalSize) -> bool {
        if size.spec_is_empty() {
            self == before
        } else {
            &&& self.spec_size() == size
            &&& self.spec_config() == before.spec_config().with_size(size)
            &&& self.spec_pipelines() == before.spec_pipelines()
            &&& self.spec_objects() == before.spec_objects()
            &&& self.spec_cache() == before.spec_cache()
        }
    }

    /// A resize to a size with no zero side, followed by a reconfigure: the
    /// context has that size, the configuration that is applied has that
    /// width and that height and is otherwise the one from before, and what
    /// a frame draws, and whether it can be drawn, is as before. So a frame
    /// that could be drawn before the resize can be drawn after it.
    pub proof fn resize_keeps_size(self, size: PhysicalSize)
        requires
            self.wf(),
            !size.spec_is_empty(),
        ensures
            self.resized(size).wf(),
            self.resized(size).is_resized_from(&self, size),
            self.resized(size).spec_size() == size,
            self.resized(size).spec_config().width == size.width > 0,
            self.resized(size).spec_config().height == size.height > 0,
            self.resized(size).spec_config() == self.spec_config().with_size(size),
            self.resized(size).spec_pipelines() == self.spec_pipelines(),
            self.resized(size).spec_objects() == self.spec_objects(),
            self.resized(size).spec_cache() == self.spec_cache(),
            can_draw(&self.resized(size)) == can_draw(&self),
    {
    }

    /// A resize to a size with a zero side changes nothing.
    pub proof fn resize_to_nothing_is_ignored(self, size: PhysicalSize)
        requires
            size.spec_is_empty(),
        ensures
            self.resized(size) == self,
    {
    }

    /// Resizing twice to one size is resizing once, and of two resizes to
    /// sizes with no zero side the later one decides.
    pub proof fn resize_is_idempotent(self, first: PhysicalSize, second: PhysicalSize)
        ensures
            self.resized(first).resized(first) == self.resized(first),
            !second.spec_is_empty() ==> self.resized(first).resized(second) == self.resized(
                second,
            ),
    {
    }

    /// A context that has just been made can draw its frame.
    pub proof fn starts_ready_to_draw(&self, size: PhysicalSize, caps: &SurfaceCapabilities)
        requires
            self.starts_with(size, caps),
        ensures
            can_draw(self),
    {
    }

    /// A context of `size` with the configuration `config` and the pipelines
    /// `pipelines`, with nothing to draw yet.
    pub fn with_pipelines(
        size: PhysicalSize,
        config: SurfaceConfiguration,
        pipelines: Pipelines,
    ) -> (instance: RenderInstance)
        requires
            pipelines.wf(),
        ensures
            instance.wf(),
            instance.spec_size() == size,
            instance.spec_config() == config@,
            instance.spec_pipelines() == pipelines@,
            instance.spec_objects() == Seq::<RenderObject>::empty(),
            instance.spec_cache().vertex_lists() == Seq::<Seq<Vertex>>::empty(),
            instance.spec_cache().index_lists() == Seq::<Seq<u16>>::empty(),
    {
        RenderInstance {
            size,
            config,
            pipelines,
            render_objects: Vec::new(),
            cache: GeometryCache::new(),
        }
    }

    /// Makes the context from the size of the window and the outcome of the
    /// negotiation with the GPU. A negotiation that failed gives the error
    /// of the step that failed. One that succeeded gives a context with the
    /// starting configuration for the surface's capabilities, the one
    /// pipeline under its name, and the square as the one object to draw.
    pub fn new(size: PhysicalSize, negotiation: Negotiation) -> (made: Result<
        RenderInstance,
        RenderError,
    >)
        requires
            negotiation matches Negotiation::Ready(caps) ==> caps.spec_is_usable(),
        ensures
            match negotiation {
                Negotiation::SurfaceFailed => made matches Err(RenderError::SurfaceCreationFailed),
                Negotiation::NoAdapter => made matches Err(e) && e.is_adapter_unavailable(
                    "Could not create an adapter"@,
                ),
                Negotiation::DeviceFailed => made matches Err(RenderError::DeviceRequestFailed),
                Negotiation::ShaderFailed => made matches Err(RenderError::ShaderCompileFailed),
                Negotiation::Ready(caps) => made matches Ok(instance) && instance.wf()
                    && instance.starts_with(size, &caps),
            },
    {
        let caps = match negotiation {
            Negotiation::SurfaceFailed => {
                return Err(RenderError::SurfaceCreationFailed);
            },
            Negotiation::NoAdapter => {
                return Err(
                    RenderError::AdapterUnavailable(KappaError::new("Could not create an adapter")),
                );
            },
            Negotiation::DeviceFailed => {
                return Err(RenderError::DeviceRequestFailed);
            },
            Negotiation::ShaderFailed => {
                return Err(RenderError::ShaderCompileFailed);
            },
            Negotiation::Ready(caps) => caps,
        };
        let config = SurfaceConfiguration::new(&caps, size);

        let mut pipelines = Pipelines::new();
        pipelines.insert(PIPELINE_NAME, build_pipeline(config.format, Vertex::desc()));

        let mut instance = RenderInstance::with_pipelines(size, config, pipelines);
        let mut index: Vec<u16> = Vec::new();
        index.push(0);
        index.push(1);
        index.push(2);
        index.push(2);
        index.push(3);
        index.push(0);
        assert(index@ =~= quad_indices());
        instance.add_object(quad_vertices(), index);
        Ok(instance)
    }

    /// The configuration to apply to the surface again: the current one.
    /// Nothing about the context changes.
    pub fn reconfigure(&mut self) -> (config: SurfaceConfiguration)
        ensures
            *final(self) == *old(self),
            config@ == old(self).spec_config(),
    {
        self.config.duplicate()
    }

    /// Takes a new size for the surface. A size with a zero side is
    /// ignored: nothing changes and there is nothing to apply. Any other
    /// size becomes the size of the context and the width and height of its
    /// configuration, and the configuration is returned to be applied to the
    /// surface before the next frame.
    pub fn resize(&mut self, size: PhysicalSize) -> (apply: Option<SurfaceConfiguration>)
        ensures
            *final(self) == old(self).resized(size),
            final(self).is_resized_from(old(self), size),
            old(self).wf() ==> final(self).wf(),
            size.spec_is_empty() ==> apply is None,
            !size.spec_is_empty() ==> (apply matches Some(config) && config@
                == final(self).spec_config()),
    {
        if size.width > 0 && size.height > 0 {
            self.size = size;
            self.config.width = size.width;
            self.config.height = size.height;
            Some(self.reconfigure())
        } else {
            None
        }
    }

    /// Decides one frame. `acquired` says whether the next image of the
    /// surface could be acquired. If it could not, the frame is skipped with
    /// that error. Else the frame is recorded: one pass that clears the
    /// image to transparent black, every object in the order it was
    /// registered, then submit, present, and only after that the release of
    /// every buffer the frame created. If the pipeline is missing while
    /// there is something to draw, the frame is skipped with that error and
    /// nothing is to be carried out.
    ///
    /// No buffer of a frame outlives the frame: on whatever device the
    /// frame is carried out, no buffer is alive afterwards that was not
    /// alive before. A device that has done nothing yet sees one draw for
    /// each object, one submit and one present, cannot fail to carry out any
    /// of the commands, and is idle at the end.
    ///
    /// Neither the context nor the frame renderer changes.
    pub fn render(
        &mut self,
        render_system: &mut RenderSystem,
        acquired: Result<(), SurfaceError>,
    ) -> (rendered: Result<Vec<GpuCommand>, RenderError>)
        requires
            old(self).wf(),
        ensures
            *final(self) == *old(self),
            *final(render_system) == *old(render_system),
            rendered is Ok <==> acquired is Ok && can_draw(old(self)),
            rendered matches Ok(commands) ==> exists|uploads: Seq<Upload>|
                {
                    &&& are_uploads_of(uploads, old(self).spec_objects(), old(self).spec_cache())
                    &&& commands_view(commands@) == #[trigger] frame_commands(
                        uploads,
                        PIPELINE_NAME@,
                    )
                },
            rendered matches Ok(commands) ==> leaves_no_buffer(commands_view(commands@)),
            rendered matches Ok(commands) ==> ({
                let after = Device::fresh().replay(commands_view(commands@));
                &&& after.is_idle()
                &&& after.faults == 0
                &&& after.draws.len() == old(self).spec_objects().len()
                &&& after.submits == 1
                &&& after.presents == 1
            }),
            rendered matches Err(e) ==> match acquired {
                Err(cause) => e matches RenderError::SurfaceAcquireFailed(c) && c == cause,
                Ok(_) => e.is_pipeline_lookup_failed("Unable to set Render Pipeline!"@),
            },
    {
        match acquired {
            Err(cause) => {
                return Err(RenderError::SurfaceAcquireFailed(cause));
            },
            Ok(_) => {},
        }
        let mut pass = RenderPass::begin();
        match render_system.render(&mut pass, self) {
            Err(e) => {
                return Err(e);
            },
            Ok(_) => {},
        }
        proof {
            let objects = self.spec_objects().len();
            assert(pass.vertex_buffers() =~= buffers_of(BufferUsage::Vertex, objects));
            assert(pass.index_buffers() =~= buffers_of(BufferUsage::Index, objects));
            let uploads = choose|uploads: Seq<Upload>|
                {
                    &&& are_uploads_of(uploads, self.spec_objects(), self.spec_cache())
                    &&& pass.recorded() == frame_opening() + #[trigger] draw_commands(
                        uploads,
                        PIPELINE_NAME@,
                        0,
                        0,
                    )
                };
            assert(pass.recorded() + frame_closing() + release_commands(pass.vertex_buffers())
                + release_commands(pass.index_buffers()) =~= frame_commands(
                uploads,
                PIPELINE_NAME@,
            ));
            frame_on_idle_device(Device::fresh(), uploads, PIPELINE_NAME@);
        }
        Ok(pass.finish())
    }

    /// The size of the surface.
    #[verifier::when_used_as_spec(spec_size)]
    pub fn size(&self) -> (size: PhysicalSize)
        ensures
            size == self.spec_size(),
    {
        self.size
    }

    /// The configuration of the surface.
    pub fn config(&self) -> (config: &SurfaceConfiguration)
        ensures
            config@ == self.spec_config(),
    {
        &self.config
    }

    /// The pipelines that have been built.
    pub fn pipelines(&self) -> (pipelines: &Pipelines)
        ensures
            pipelines@ == self.spec_pipelines(),
            self.wf() ==> pipelines.wf(),
    {
        &self.pipelines
    }

    /// The objects to draw, in the order they were registered.
    pub fn render_objects(&self) -> (objects: &Vec<RenderObject>)
        ensures
            objects@ == self.spec_objects(),
    {
        &self.render_objects
    }

    /// The geometry the objects refer to.
    pub fn cache(&self) -> (cache: &GeometryCache)
        ensures
            cache == self.spec_cache(),
    {
        &self.cache
    }

    /// Registers one more object to draw, after those that are there, and
    /// returns it.
    pub fn add_object(&mut self, vertex: Vec<Vertex>, index: Vec<u16>) -> (object: RenderObject)
        requires
            old(self).wf(),
        ensures
            final(self).wf(),
            final(self).spec_size() == old(self).spec_size(),
            final(self).spec_config() == old(self).spec_config(),
            final(self).spec_pipelines() == old(self).spec_pipelines(),
            final(self).spec_objects() == old(self).spec_objects().push(object),
            object.spec_vertex_addr() == old(self).spec_cache().vertex_lists().len(),
            object.spec_index_addr() == old(self).spec_cache().index_lists().len(),
            final(self).spec_cache().vertex_lists() == old(self).spec_cache().vertex_lists().push(
                vertex@,
            ),
            final(self).spec_cache().index_lists() == old(self).spec_cache().index_lists().push(
                index@,
            ),
    {
        let object = RenderObject::new(&mut self.cache, vertex, index);
        self.render_objects.push(object);
        object
    }
}

} // verus!
