//! Vertices, and how one vertex is laid out in a vertex buffer.

use vstd::prelude::*;

verus! {

/// One corner of a triangle. Every component is a 32-bit float, held here as
/// its bit pattern: the renderer never calculates with it, it only stores it
/// and hands it to the GPU.
#[derive(Clone, Copy, Debug, PartialEq, Eq)]
pub struct Vertex {
    pub position: [u32; 3],
    pub color: [u32; 4],
    pub tex_coords: [u32; 2],
}

/// The type of one vertex attribute.
#[derive(Clone, Copy, Debug, PartialEq, Eq, Structural)]
pub enum VertexFormat {
    Float32x2,
    Float32x3,
    Float32x4,
}

impl VertexFormat {
    /// The number of bytes a value of this format takes.
    pub open spec fn spec_size(self) -> u64 {
        match self {
            VertexFormat::Float32x2 => 8,
            VertexFormat::Float32x3 => 12,
            VertexFormat::Float32x4 => 16,
        }
    }

    #[verifier::when_used_as_spec(spec_size)]
    pub fn size(self) -> (bytes: u64)
        ensures
            bytes == self.spec_size(),
    {
        match self {
            VertexFormat::Float32x2 => 8,
            VertexFormat::Float32x3 => 12,
            VertexFormat::Float32x4 => 16,
        }
    }
}

/// Whether a buffer advances once per vertex or once per instance.
#[derive(Clone, Copy, Debug, PartialEq, Eq, Structural)]
pub enum VertexStepMode {
    Vertex,
    Instance,
}

/// Where one attribute of a vertex lies, and at which shader location it
/// arrives.
#[derive(Clone, Copy, Debug, PartialEq, Eq, Structural)]
pub struct VertexAttribute {
    pub format: VertexFormat,
    pub offset: u64,
    pub shader_location: u32,
}

impl VertexAttribute {
    /// The first byte after this attribute.
    pub open spec fn end(self) -> int {
        self.offset + self.format.spec_size()
    }
}

/// How the vertices of one buffer are laid out.
#[derive(Clone, Debug, PartialEq, Eq)]
pub struct VertexBufferLayout {
    pub array_stride: u64,
    pub step_mode: VertexStepMode,
    pub attributes: Vec<VertexAttribute>,
}

/// A vertex buffer layout as a mathematical value.
pub struct VertexBufferLayoutView {
    pub array_stride: u64,
    pub step_mode: VertexStepMode,
    pub attributes: Seq<VertexAttribute>,
}

impl View for VertexBufferLayout {
    type V = VertexBufferLayoutView;

    open spec fn view(&self) -> VertexBufferLayoutView {
        VertexBufferLayoutView {
            array_stride: self.array_stride,
            step_mode: self.step_mode,
            attributes: self.attributes@,
        }
    }
}

impl VertexBufferLayoutView {
    /// The attributes follow one another without a gap, the first at offset
    /// zero, and the stride is where the last one ends.
    pub open spec fn is_packed(self) -> bool {
        &&& self.attributes.len() > 0
        &&& self.attributes[0].offset == 0
        &&& forall|i: int|
            0 < i < self.attributes.len() ==> (#[trigger] self.attributes[i]).offset
                == self.attributes[i - 1].end()
        &&& self.array_stride == self.attributes.last().end()
    }

    /// Attribute `i` arrives at shader location `i`.
    pub open spec fn locations_in_order(self) -> bool {
        forall|i: int|
            0 <= i < self.attributes.len() ==> (#[trigger] self.attributes[i]).shader_location == i
    }
}

impl VertexBufferLayout {
    /// A second value of the same layout.
    pub fn duplicate(&self) -> (copy: VertexBufferLayout)
        ensures
            copy@ == self@,
    {
        let mut attributes: Vec<VertexAttribute> = Vec::new();
        let mut i: usize = 0;
        while i < self.attributes.len()
            invariant
                i <= self.attributes@.len(),
                attributes@ == self.attributes@.subrange(0, i as int),
            decreases self.attributes@.len() - i,
        {
            attributes.push(self.attributes[i]);
            i += 1;
        }
        assert(attributes@ =~= self.attributes@);
        VertexBufferLayout { array_stride: self.array_stride, step_mode: self.step_mode, attributes }
    }
}

impl Vertex {
    /// The number of 32-bit words in one vertex.
    pub const WORDS: usize = 9;

    /// The vertex as the words it takes in memory: position, then colour,
    /// then texture coordinate.
    pub open spec fn words(self) -> Seq<u32> {
        self.position@ + self.color@ + self.tex_coords@
    }

    /// The layout of a buffer of vertices: position at location 0 as three
    /// floats, colour at location 1 as four, texture coordinate at location 2
    /// as two, one after the other, one vertex per step.
    pub open spec fn spec_desc() -> VertexBufferLayoutView {
        VertexBufferLayoutView {
            array_stride: 36,
            step_mode: VertexStepMode::Vertex,
            attributes: seq![
                VertexAttribute { format: VertexFormat::Float32x3, offset: 0, shader_location: 0 },
                VertexAttribute { format: VertexFormat::Float32x4, offset: 12, shader_location: 1 },
                VertexAttribute { format: VertexFormat::Float32x2, offset: 28, shader_location: 2 },
            ],
        }
    }

    /// Describes how a buffer of vertices is laid out.
    pub fn desc() -> (layout: VertexBufferLayout)
        ensures
            layout@ == Self::spec_desc(),
    {
        let position = VertexAttribute {
            format: VertexFormat::Float32x3,
            offset: 0,
            shader_location: 0,
        };
        let color = VertexAttribute {
            format: VertexFormat::Float32x4,
            offset: position.offset + position.format.size(),
            shader_location: 1,
        };
        let tex_coords = VertexAttribute {
            format: VertexFormat::Float32x2,
            offset: color.offset + color.format.size(),
            shader_location: 2,
        };
        let array_stride: u64 = tex_coords.offset + tex_coords.format.size();
        let mut attributes: Vec<VertexAttribute> = Vec::new();
        attributes.push(position);
        attributes.push(color);
        attributes.push(tex_coords);
        assert(attributes@ =~= Self::spec_desc().attributes);
        VertexBufferLayout { array_stride, step_mode: VertexStepMode::Vertex, attributes }
    }
}

/// The words of a list of vertices, vertex after vertex.
pub open spec fn packed_words(list: Seq<Vertex>) -> Seq<u32>
    decreases list.len(),
{
    if list.len() == 0 {
        Seq::empty()
    } else {
        packed_words(list.drop_last()) + list.last().words()
    }
}

/// A list of vertices packs into nine words each.
pub proof fn packed_words_len(list: Seq<Vertex>)
    ensures
        packed_words(list).len() == 9 * list.len(),
    decreases list.len(),
{
    if list.len() > 0 {
        packed_words_len(list.drop_last());
    }
}

/// Word `j` of vertex `i` is word `9 * i + j` of the packed list.
pub proof fn packed_words_index(list: Seq<Vertex>, i: int, j: int)
    requires
        0 <= i < list.len(),
        0 <= j < 9,
    ensures
        packed_words(list).len() == 9 * list.len(),
        packed_words(list)[9 * i + j] == list[i].words()[j],
    decreases list.len(),
{
    packed_words_len(list);
    packed_words_len(list.drop_last());
    if i < list.len() - 1 {
        packed_words_index(list.drop_last(), i, j);
    }
}

/// The declared layout is a packed one, its locations count up from zero,
/// and its stride is the number of bytes that the words of one vertex take.
pub proof fn vertex_layout_matches_words(v: Vertex)
    ensures
        Vertex::spec_desc().is_packed(),
        Vertex::spec_desc().locations_in_order(),
        Vertex::spec_desc().array_stride == 4 * v.words().len(),
{
}

/// Packs a list of vertices into the words they take in memory.
pub fn pack_vertices(list: &Vec<Vertex>) -> (words: Vec<u32>)
    ensures
        words@ == packed_words(list@),
{
    let mut words: Vec<u32> = Vec::new();
    let mut i: usize = 0;
    while i < list.len()
        invariant
            i <= list@.len(),
            words@ == packed_words(list@.subrange(0, i as int)),
        decreases list@.len() - i,
    {
        let v = &list[i];
        let ghost before = words@;
        words.push(v.position[0]);
        words.push(v.position[1]);
        words.push(v.position[2]);
        words.push(v.color[0]);
        words.push(v.color[1]);
        words.push(v.color[2]);
        words.push(v.color[3]);
        words.push(v.tex_coords[0]);
        words.push(v.tex_coords[1]);
        proof {
            let next = list@.subrange(0, i + 1);
            assert(next.drop_last() =~= list@.subrange(0, i as int));
            assert(next.last() == list@[i as int]);
            assert(words@ =~= before + list@[i as int].words());
        }
        i += 1;
    }
    assert(list@.subrange(0, i as int) =~= list@);
    words
}

} // verus!
