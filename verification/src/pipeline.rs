//! The render pipeline: what is fixed about how triangles are drawn, and the
//! pipelines a renderer has built, by name.

use vstd::prelude::*;
use crate::surface::TextureFormat;
use crate::vertex::{VertexBufferLayout, VertexBufferLayoutView};

verus! {

/// How vertices are assembled into primitives.
#[derive(Clone, Copy, Debug, PartialEq, Eq, Structural)]
pub enum PrimitiveTopology {
    PointList,
    LineList,
    LineStrip,
    TriangleList,
    TriangleStrip,
}

/// The winding of a triangle that faces the viewer.
#[derive(Clone, Copy, Debug, PartialEq, Eq, Structural)]
pub enum FrontFace {
    Ccw,
    Cw,
}

/// A side of a triangle.
#[derive(Clone, Copy, Debug, PartialEq, Eq, Structural)]
pub enum Face {
    Front,
    Back,
}

/// How the inside of a triangle is filled.
#[derive(Clone, Copy, Debug, PartialEq, Eq, Structural)]
pub enum PolygonMode {
    Fill,
    Line,
    Point,
}

/// The width of the indices in an index buffer.
#[derive(Clone, Copy, Debug, PartialEq, Eq, Structural)]
pub enum IndexFormat {
    Uint16,
    Uint32,
}

/// How a drawn colour is combined with the colour already in the target.
#[derive(Clone, Copy, Debug, PartialEq, Eq, Structural)]
pub enum BlendState {
    Replace,
    AlphaBlending,
    PremultipliedAlphaBlending,
}

/// The colour channels a pipeline may write.
#[derive(Clone, Copy, Debug, PartialEq, Eq, Structural)]
pub struct ColorWrites {
    pub red: bool,
    pub green: bool,
    pub blue: bool,
    pub alpha: bool,
}

impl ColorWrites {
    /// Every channel.
    pub open spec fn spec_all() -> ColorWrites {
        ColorWrites { red: true, green: true, blue: true, alpha: true }
    }

    #[verifier::when_used_as_spec(spec_all)]
    pub fn all() -> (mask: ColorWrites)
        ensures
            mask == Self::spec_all(),
    {
        ColorWrites { red: true, green: true, blue: true, alpha: true }
    }
}

/// The one colour target of a pipeline.
#[derive(Clone, Copy, Debug, PartialEq, Eq, Structural)]
pub struct ColorTargetState {
    pub format: TextureFormat,
    pub blend: Option<BlendState>,
    pub write_mask: ColorWrites,
}

/// The fixed-function state that turns vertices into fragments.
#[derive(Clone, Copy, Debug, PartialEq, Eq, Structural)]
pub struct PrimitiveState {
    pub topology: PrimitiveTopology,
    pub strip_index_format: Option<IndexFormat>,
    pub front_face: FrontFace,
    pub cull_mode: Option<Face>,
    pub polygon_mode: PolygonMode,
    pub unclipped_depth: bool,
    pub conservative: bool,
}

/// How many samples a pixel has, and which of them are written.
#[derive(Clone, Copy, Debug, PartialEq, Eq, Structural)]
pub struct MultisampleState {
    pub count: u32,
    pub mask: u64,
    pub alpha_to_coverage_enabled: bool,
}

/// The resources a pipeline binds besides its vertex buffers, by number.
#[derive(Clone, Copy, Debug, PartialEq, Eq, Structural)]
pub struct PipelineLayoutDescriptor {
    pub bind_group_layouts: u32,
    pub push_constant_ranges: u32,
}

/// Everything that is needed to build a render pipeline from a compiled
/// shader.
#[derive(Clone, Debug, PartialEq, Eq)]
pub struct RenderPipelineDescriptor {
    pub layout: PipelineLayoutDescriptor,
    pub vertex_entry_point: String,
    pub vertex_buffer: VertexBufferLayout,
    pub fragment_entry_point: String,
    pub target: ColorTargetState,
    pub primitive: PrimitiveState,
    pub depth_stencil: bool,
    pub multisample: MultisampleState,
    pub multiview: Option<u32>,
}

/// A render pipeline descriptor as a mathematical value.
pub struct RenderPipelineDescriptorView {
    pub layout: PipelineLayoutDescriptor,
    pub vertex_entry_point: Seq<char>,
    pub vertex_buffer: VertexBufferLayoutView,
    pub fragment_entry_point: Seq<char>,
    pub target: ColorTargetState,
    pub primitive: PrimitiveState,
    pub depth_stencil: bool,
    pub multisample: MultisampleState,
    pub multiview: Option<u32>,
}

impl View for RenderPipelineDescriptor {
    type V = RenderPipelineDescriptorView;

    open spec fn view(&self) -> RenderPipelineDescriptorView {
        RenderPipelineDescriptorView {
            layout: self.layout,
            vertex_entry_point: self.vertex_entry_point@,
            vertex_buffer: self.vertex_buffer@,
            fragment_entry_point: self.fragment_entry_point@,
            target: self.target,
            primitive: self.primitive,
            depth_stencil: self.depth_stencil,
            multisample: self.multisample,
            multiview: self.multiview,
        }
    }
}

/// The pipeline that draws coloured triangles into a target of `format` from
/// vertices laid out as `vertex_buffer`:
/// nothing bound besides the vertex buffer; the shader entered at `vs_main`
/// and `fs_main`; a triangle list, counter-clockwise triangles facing the
/// viewer, front faces culled, triangles filled; one sample per pixel; one
/// colour target, blended as premultiplied alpha, all channels written; no
/// depth or stencil attachment.
pub open spec fn position_color_pipeline(
    format: TextureFormat,
    vertex_buffer: VertexBufferLayoutView,
) -> RenderPipelineDescriptorView {
    RenderPipelineDescriptorView {
        layout: PipelineLayoutDescriptor { bind_group_layouts: 0, push_constant_ranges: 0 },
        vertex_entry_point: "vs_main"@,
        vertex_buffer,
        fragment_entry_point: "fs_main"@,
        target: ColorTargetState {
            format,
            blend: Some(BlendState::PremultipliedAlphaBlending),
            write_mask: ColorWrites::spec_all(),
        },
        primitive: PrimitiveState {
            topology: PrimitiveTopology::TriangleList,
            strip_index_format: None,
            front_face: FrontFace::Ccw,
            cull_mode: Some(Face::Front),
            polygon_mode: PolygonMode::Fill,
            unclipped_depth: false,
            conservative: false,
        },
        depth_stencil: false,
        multisample: MultisampleState {
            count: 1,
            mask: u64::MAX,
            alpha_to_coverage_enabled: false,
        },
        multiview: None,
    }
}

/// Describes the pipeline that draws coloured triangles into a target of
/// `format` from vertices laid out as `vertex_buffer`.
pub fn build_pipeline(format: TextureFormat, vertex_buffer: VertexBufferLayout) -> (descriptor:
    RenderPipelineDescriptor)
    ensures
        descriptor@ == position_color_pipeline(format, vertex_buffer@),
{
    RenderPipelineDescriptor {
        layout: PipelineLayoutDescriptor { bind_group_layouts: 0, push_constant_ranges: 0 },
        vertex_entry_point: "vs_main".to_owned(),
        vertex_buffer,
        fragment_entry_point: "fs_main".to_owned(),
        target: ColorTargetState {
            format,
            blend: Some(BlendState::PremultipliedAlphaBlending),
            write_mask: ColorWrites::all(),
        },
        primitive: PrimitiveState {
            topology: PrimitiveTopology::TriangleList,
            strip_index_format: None,
            front_face: FrontFace::Ccw,
            cull_mode: Some(Face::Front),
            polygon_mode: PolygonMode::Fill,
            unclipped_depth: false,
            conservative: false,
        },
        depth_stencil: false,
        multisample: MultisampleState {
            count: 1,
            mask: u64::MAX,
            alpha_to_coverage_enabled: false,
        },
        multiview: None,
    }
}

/// The pipelines a renderer has built, by name. No name occurs twice.
#[derive(Debug)]
pub struct Pipelines {
    names: Vec<String>,
    descriptors: Vec<RenderPipelineDescriptor>,
}

impl Pipelines {
    /// The names in the order the pipelines were first stored.
    pub closed spec fn names(&self) -> Seq<Seq<char>> {
        Seq::new(self.names@.len(), |i: int| self.names@[i]@)
    }

    /// The descriptor stored at each position.
    pub closed spec fn descriptors(&self) -> Seq<RenderPipelineDescriptorView> {
        Seq::new(self.descriptors@.len(), |i: int| self.descriptors@[i]@)
    }

    /// Every name has a descriptor, and no name occurs twice.
    pub closed spec fn wf(&self) -> bool {
        &&& self.names@.len() == self.descriptors@.len()
        &&& forall|i: int, j: int|
            0 <= i < j < self.names@.len() ==> self.names@[i]@ != self.names@[j]@
    }

    /// Whether a pipeline is stored under `name`.
    pub open spec fn has(&self, name: Seq<char>) -> bool {
        self.names().contains(name)
    }

    /// The descriptor stored under `name`.
    pub open spec fn descriptor(&self, name: Seq<char>) -> RenderPipelineDescriptorView
        recommends
            self.has(name),
    {
        self.descriptors()[self.names().index_of(name)]
    }

    /// The pipelines as a map from name to descriptor.
    pub open spec fn view(&self) -> Map<Seq<char>, RenderPipelineDescriptorView> {
        Map::new(|name: Seq<char>| self.has(name), |name: Seq<char>| self.descriptor(name))
    }

    /// In a well-formed store a name stands at one position only.
    proof fn position_is_unique(&self, i: int)
        requires
            self.wf(),
            0 <= i < self.names@.len(),
        ensures
            self.has(self.names()[i]),
            self.names().index_of(self.names()[i]) == i,
            self.descriptor(self.names()[i]) == self.descriptors()[i],
    {
        let name = self.names()[i];
        assert(self.names().contains(name));
        let j = self.names().index_of(name);
        assert(0 <= j < self.names().len() && self.names()[j] == name);
        if j < i {
            assert(self.names@[j]@ != self.names@[i]@);
        } else if i < j {
            assert(self.names@[i]@ != self.names@[j]@);
        }
    }

    /// A store with no pipeline in it.
    pub fn new() -> (pipelines: Pipelines)
        ensures
            pipelines.wf(),
            pipelines@ == Map::<Seq<char>, RenderPipelineDescriptorView>::empty(),
    {
        let pipelines = Pipelines { names: Vec::new(), descriptors: Vec::new() };
        assert(pipelines.names() =~= Seq::empty());
        assert(pipelines@ =~= Map::empty());
        pipelines
    }

    /// The position at which `name` is stored, if it is.
    fn position(&self, name: &String) -> (found: Option<usize>)
        requires
            self.wf(),
        ensures
            found is Some <==> self.has(name@),
            found matches Some(i) ==> i < self.names@.len() && self.names()[i as int] == name@,
    {
        let mut i: usize = 0;
        while i < self.names.len()
            invariant
                i <= self.names@.len(),
                forall|j: int| 0 <= j < i ==> self.names()[j] != name@,
            decreases self.names@.len() - i,
        {
            if self.names[i] == *name {
                assert(self.names()[i as int] == name@);
                return Some(i);
            }
            i += 1;
        }
        None
    }

    /// Stores `descriptor` under `name`, in place of what was stored under
    /// that name before, and returns whether there was something.
    pub fn insert(&mut self, name: &str, descriptor: RenderPipelineDescriptor) -> (replaced: bool)
        requires
            old(self).wf(),
        ensures
            final(self).wf(),
            final(self)@ == old(self)@.insert(name@, descriptor@),
            replaced == old(self).has(name@),
    {
        let key = name.to_owned();
        match self.position(&key) {
            Some(i) => {
                proof {
                    self.position_is_unique(i as int);
                }
                self.descriptors.set(i, descriptor);
                proof {
                    assert(self.names() =~= old(self).names());
                    assert(self.descriptors() =~= old(self).descriptors().update(
                        i as int,
                        descriptor@,
                    ));
                    assert forall|k: Seq<char>| self.has(k) implies #[trigger] self.descriptor(k)
                        == old(self)@.insert(name@, descriptor@)[k] by {
                        let j = self.names().index_of(k);
                        if k != name@ {
                            assert(j != i);
                        }
                    }
                    assert(self@ =~= old(self)@.insert(name@, descriptor@));
                }
                true
            },
            None => {
                self.names.push(key);
                self.descriptors.push(descriptor);
                proof {
                    let n = old(self).names().len() as int;
                    assert(self.names() =~= old(self).names().push(name@));
                    assert(self.descriptors() =~= old(self).descriptors().push(descriptor@));
                    assert(self.wf()) by {
                        assert forall|i: int, j: int| 0 <= i < j < self.names@.len() implies self.names@[i]@
                            != self.names@[j]@ by {
                            if j == n {
                                assert(old(self).names()[i] == self.names@[i]@);
                            } else {
                                assert(old(self).names@[i]@ != old(self).names@[j]@);
                            }
                        }
                    }
                    self.position_is_unique(n);
                    assert forall|k: Seq<char>| #[trigger] self.has(k) <==> (k == name@ || old(
                        self,
                    ).has(k)) by {
                        if self.has(k) {
                            let j = self.names().index_of(k);
                            if j < n {
                                assert(old(self).names()[j] == k);
                            }
                        }
                        if old(self).has(k) {
                            let j = old(self).names().index_of(k);
                            assert(self.names()[j] == k);
                        }
                    }
                    assert forall|k: Seq<char>| old(self).has(k) implies #[trigger] self.descriptor(k)
                        == old(self).descriptor(k) by {
                        let j = old(self).names().index_of(k);
                        old(self).position_is_unique(j);
                        assert(self.names()[j] == k);
                        self.position_is_unique(j);
                    }
                    assert(self@ =~= old(self)@.insert(name@, descriptor@));
                }
                false
            },
        }
    }

    /// The descriptor stored under `name`, if there is one.
    pub fn get(&self, name: &str) -> (found: Option<&RenderPipelineDescriptor>)
        requires
            self.wf(),
        ensures
            found is Some <==> self@.contains_key(name@),
            found matches Some(d) ==> d@ == self@[name@],
    {
        let key = name.to_owned();
        match self.position(&key) {
            Some(i) => {
                proof {
                    self.position_is_unique(i as int);
                }
                Some(&self.descriptors[i])
            },
            None => None,
        }
    }

    /// The number of pipelines stored.
    pub fn len(&self) -> (n: usize)
        requires
            self.wf(),
        ensures
            n == self@.dom().len(),
            self@.dom().finite(),
    {
        proof {
            self.names_are_the_domain();
        }
        self.names.len()
    }

    /// The names of a well-formed store are its domain, each once.
    proof fn names_are_the_domain(&self)
        requires
            self.wf(),
        ensures
            self@.dom().finite(),
            self@.dom().len() == self.names@.len(),
    {
        assert(self.names().no_duplicates()) by {
            assert forall|i: int, j: int|
                0 <= i < self.names().len() && 0 <= j < self.names().len() && i != j implies self.names()[i]
                != self.names()[j] by {
                if i < j {
                    assert(self.names@[i]@ != self.names@[j]@);
                } else {
                    assert(self.names@[j]@ != self.names@[i]@);
                }
            }
        }
        self.names().unique_seq_to_set();
        assert(self@.dom() =~= self.names().to_set());
    }
}

} // verus!
