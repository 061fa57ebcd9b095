//! Static geometry: the vertex type and its buffer layout, the fixed triangle
//! and quad meshes, and the packing of vertex and index data into the byte
//! form a GPU buffer is created from.
//!
//! Vertex components are 32-bit floats on the GPU; the library holds them as
//! their IEEE-754 bit patterns, so the packing into buffer bytes is exact.

use vstd::prelude::*;

verus! {

/// Bit pattern of the 32-bit float 0.0.
pub const F32_BITS_ZERO: u32 = 0x0000_0000;

/// Bit pattern of the 32-bit float 1.0.
pub const F32_BITS_ONE: u32 = 0x3F80_0000;

/// Bit pattern of the 32-bit float 0.75.
pub const F32_BITS_THREE_QUARTERS: u32 = 0x3F40_0000;

/// Bit pattern of the 32-bit float -0.75.
pub const F32_BITS_NEG_THREE_QUARTERS: u32 = 0xBF40_0000;

/// The stride of one packed vertex: two three-component 32-bit attributes.
pub const VERTEX_STRIDE: u64 = 24;

/// One vertex of the fixed geometry: a position and a color, each three
/// 32-bit float components held as bit patterns.
#[derive(Clone, Copy, Debug, PartialEq, Eq)]
pub struct Vertex {
    pub position_bits: [u32; 3],
    pub color_bits: [u32; 3],
}

/// The format of one vertex attribute as the pipeline sees it.
#[derive(Clone, Copy, Debug, PartialEq, Eq, Structural)]
pub enum VertexFormat {
    Float32x2,
    Float32x3,
    Float32x4,
}

impl VertexFormat {
    /// The number of bytes one attribute of this format occupies.
    pub open spec fn size_spec(self) -> int {
        match self {
            VertexFormat::Float32x2 => 8,
            VertexFormat::Float32x3 => 12,
            VertexFormat::Float32x4 => 16,
        }
    }
}

/// Whether a buffer is stepped per vertex or per instance.
#[derive(Clone, Copy, Debug, PartialEq, Eq, Structural)]
pub enum VertexStepMode {
    Vertex,
    Instance,
}

/// One attribute descriptor: format, byte offset within a vertex, and the
/// shader input slot it binds to.
#[derive(Clone, Copy, Debug, PartialEq, Eq, Structural)]
pub struct VertexAttribute {
    pub format: VertexFormat,
    pub offset: u64,
    pub shader_location: u32,
}

/// How raw vertex bytes map to shader inputs: an ordered attribute list and
/// the stride between consecutive vertices.
#[derive(Clone, Debug, PartialEq)]
pub struct VertexBufferLayout {
    pub array_stride: u64,
    pub step_mode: VertexStepMode,
    pub attributes: Vec<VertexAttribute>,
}

/// The total size of the first `i` attributes of `attrs`.
pub open spec fn prefix_size(attrs: Seq<VertexAttribute>, i: int) -> int
    decreases i,
{
    if i <= 0 {
        0
    } else {
        prefix_size(attrs, i - 1) + attrs[i - 1].format.size_spec()
    }
}

impl VertexBufferLayout {
    /// Attributes packed back to back with no padding: each offset is the sum
    /// of the sizes before it, and the stride is the total size.
    pub open spec fn tightly_packed(self) -> bool {
        &&& forall|i: int|
            0 <= i < self.attributes@.len() ==> self.attributes@[i].offset == prefix_size(
                self.attributes@,
                i,
            )
        &&& self.array_stride == prefix_size(self.attributes@, self.attributes@.len() as int)
    }
}

impl Vertex {
    /// The layout of a packed vertex buffer of this vertex type: two
    /// three-component 32-bit float attributes at offsets 0 and 12, stepped
    /// per vertex, with a stride of 24 bytes.
    pub fn get_layout() -> (layout: VertexBufferLayout)
        ensures
            layout.array_stride == VERTEX_STRIDE,
            layout.step_mode is Vertex,
            layout.attributes@.len() == 2,
            layout.attributes@[0] == (VertexAttribute {
                format: VertexFormat::Float32x3,
                offset: 0,
                shader_location: 0,
            }),
            layout.attributes@[1] == (VertexAttribute {
                format: VertexFormat::Float32x3,
                offset: 12,
                shader_location: 1,
            }),
            layout.tightly_packed(),
    {
        let mut attributes: Vec<VertexAttribute> = Vec::new();
        attributes.push(
            VertexAttribute { format: VertexFormat::Float32x3, offset: 0, shader_location: 0 },
        );
        attributes.push(
            VertexAttribute { format: VertexFormat::Float32x3, offset: 12, shader_location: 1 },
        );
        let layout = VertexBufferLayout {
            array_stride: VERTEX_STRIDE,
            step_mode: VertexStepMode::Vertex,
            attributes,
        };
        proof {
            let attrs = layout.attributes@;
            assert(prefix_size(attrs, 0) == 0);
            assert(prefix_size(attrs, 1) == 12);
            assert(prefix_size(attrs, 2) == 24);
        }
        layout
    }
}

/// A static mesh: the packed vertices, the optional index list, and the
/// counts a draw call covers.
#[derive(Clone, Debug, PartialEq)]
pub struct Mesh {
    pub vertex_data: Vec<Vertex>,
    pub index_data: Option<Vec<u32>>,
    pub num_of_vertices: u32,
    pub num_of_indices: u32,
}

impl Mesh {
    /// The counts match the data, and every index points at a vertex.
    pub open spec fn well_formed(self) -> bool {
        &&& self.num_of_vertices == self.vertex_data@.len()
        &&& match self.index_data {
            Option::Some(indices) => {
                &&& self.num_of_indices == indices@.len()
                &&& forall|i: int|
                    0 <= i < indices@.len() ==> indices@[i] < self.num_of_vertices
            },
            Option::None => self.num_of_indices == 0,
        }
    }

    /// Whether draws of this mesh go through an index buffer.
    pub open spec fn indexed(self) -> bool {
        self.index_data is Some
    }
}

/// The three vertices of the fixed triangle: two lower corners and the top,
/// colored red, green and blue.
pub open spec fn triangle_vertices() -> Seq<Vertex> {
    seq![
        Vertex {
            position_bits: [F32_BITS_NEG_THREE_QUARTERS, F32_BITS_NEG_THREE_QUARTERS, F32_BITS_ZERO],
            color_bits: [F32_BITS_ONE, F32_BITS_ZERO, F32_BITS_ZERO],
        },
        Vertex {
            position_bits: [F32_BITS_THREE_QUARTERS, F32_BITS_NEG_THREE_QUARTERS, F32_BITS_ZERO],
            color_bits: [F32_BITS_ZERO, F32_BITS_ONE, F32_BITS_ZERO],
        },
        Vertex {
            position_bits: [F32_BITS_ZERO, F32_BITS_THREE_QUARTERS, F32_BITS_ZERO],
            color_bits: [F32_BITS_ZERO, F32_BITS_ZERO, F32_BITS_ONE],
        },
    ]
}

/// The four corners of the fixed quad, counter-clockwise from the lower left,
/// colored red, green, blue and cyan.
pub open spec fn quad_vertices() -> Seq<Vertex> {
    seq![
        Vertex {
            position_bits: [F32_BITS_NEG_THREE_QUARTERS, F32_BITS_NEG_THREE_QUARTERS, F32_BITS_ZERO],
            color_bits: [F32_BITS_ONE, F32_BITS_ZERO, F32_BITS_ZERO],
        },
        Vertex {
            position_bits: [F32_BITS_THREE_QUARTERS, F32_BITS_NEG_THREE_QUARTERS, F32_BITS_ZERO],
            color_bits: [F32_BITS_ZERO, F32_BITS_ONE, F32_BITS_ZERO],
        },
        Vertex {
            position_bits: [F32_BITS_THREE_QUARTERS, F32_BITS_THREE_QUARTERS, F32_BITS_ZERO],
            color_bits: [F32_BITS_ZERO, F32_BITS_ZERO, F32_BITS_ONE],
        },
        Vertex {
            position_bits: [F32_BITS_NEG_THREE_QUARTERS, F32_BITS_THREE_QUARTERS, F32_BITS_ZERO],
            color_bits: [F32_BITS_ZERO, F32_BITS_ONE, F32_BITS_ONE],
        },
    ]
}

/// The six indices of the quad: two counter-clockwise triangles sharing the
/// diagonal between corners 0 and 2.
pub open spec fn quad_indices() -> Seq<u32> {
    seq![0u32, 1u32, 2u32, 2u32, 3u32, 0u32]
}

/// Builds the fixed triangle mesh: exactly three vertices, no index buffer.
pub fn make_triangle() -> (m: Mesh)
    ensures
        m.vertex_data@ == triangle_vertices(),
        m.index_data is None,
        m.num_of_vertices == 3,
        m.num_of_indices == 0,
        m.well_formed(),
{
    let mut vertex_data: Vec<Vertex> = Vec::new();
    vertex_data.push(
        Vertex {
            position_bits: [F32_BITS_NEG_THREE_QUARTERS, F32_BITS_NEG_THREE_QUARTERS, F32_BITS_ZERO],
            color_bits: [F32_BITS_ONE, F32_BITS_ZERO, F32_BITS_ZERO],
        },
    );
    vertex_data.push(
        Vertex {
            position_bits: [F32_BITS_THREE_QUARTERS, F32_BITS_NEG_THREE_QUARTERS, F32_BITS_ZERO],
            color_bits: [F32_BITS_ZERO, F32_BITS_ONE, F32_BITS_ZERO],
        },
    );
    vertex_data.push(
        Vertex {
            position_bits: [F32_BITS_ZERO, F32_BITS_THREE_QUARTERS, F32_BITS_ZERO],
            color_bits: [F32_BITS_ZERO, F32_BITS_ZERO, F32_BITS_ONE],
        },
    );
    proof {
        assert(vertex_data@ =~= triangle_vertices());
    }
    Mesh { vertex_data, index_data: Option::None, num_of_vertices: 3, num_of_indices: 0 }
}

/// Builds the fixed quad mesh: exactly four vertices and six indices forming
/// two counter-clockwise triangles that cover the quad.
pub fn make_quad() -> (m: Mesh)
    ensures
        m.vertex_data@ == quad_vertices(),
        m.index_data matches Some(indices) && indices@ == quad_indices(),
        m.num_of_vertices == 4,
        m.num_of_indices == 6,
        m.well_formed(),
{
    let mut vertex_data: Vec<Vertex> = Vec::new();
    vertex_data.push(
        Vertex {
            position_bits: [F32_BITS_NEG_THREE_QUARTERS, F32_BITS_NEG_THREE_QUARTERS, F32_BITS_ZERO],
            color_bits: [F32_BITS_ONE, F32_BITS_ZERO, F32_BITS_ZERO],
        },
    );
    vertex_data.push(
        Vertex {
            position_bits: [F32_BITS_THREE_QUARTERS, F32_BITS_NEG_THREE_QUARTERS, F32_BITS_ZERO],
            color_bits: [F32_BITS_ZERO, F32_BITS_ONE, F32_BITS_ZERO],
        },
    );
    vertex_data.push(
        Vertex {
            position_bits: [F32_BITS_THREE_QUARTERS, F32_BITS_THREE_QUARTERS, F32_BITS_ZERO],
            color_bits: [F32_BITS_ZERO, F32_BITS_ZERO, F32_BITS_ONE],
        },
    );
    vertex_data.push(
        Vertex {
            position_bits: [F32_BITS_NEG_THREE_QUARTERS, F32_BITS_THREE_QUARTERS, F32_BITS_ZERO],
            color_bits: [F32_BITS_ZERO, F32_BITS_ONE, F32_BITS_ONE],
        },
    );
    let mut indices: Vec<u32> = Vec::new();
    indices.push(0);
    indices.push(1);
    indices.push(2);
    indices.push(2);
    indices.push(3);
    indices.push(0);
    proof {
        assert(vertex_data@ =~= quad_vertices());
        assert(indices@ =~= quad_indices());
    }
    Mesh {
        vertex_data,
        index_data: Option::Some(indices),
        num_of_vertices: 4,
        num_of_indices: 6,
    }
}

/// The four bytes of one 32-bit word, least significant first.
pub open spec fn word_bytes(w: u32) -> Seq<u8> {
    seq![
        (w % 256) as u8,
        ((w / 256) % 256) as u8,
        ((w / 65536) % 256) as u8,
        ((w / 16777216) % 256) as u8,
    ]
}

/// The 24 packed bytes of one vertex.
pub open spec fn vertex_bytes(v: Vertex) -> Seq<u8> {
    word_bytes(v.position_bits@[0]) + word_bytes(v.position_bits@[1]) + word_bytes(
        v.position_bits@[2],
    ) + word_bytes(v.color_bits@[0]) + word_bytes(v.color_bits@[1]) + word_bytes(v.color_bits@[2])
}

/// The packed bytes of a vertex list, in order.
pub open spec fn vertices_bytes(vs: Seq<Vertex>) -> Seq<u8>
    decreases vs.len(),
{
    if vs.len() == 0 {
        Seq::<u8>::empty()
    } else {
        vertex_bytes(vs[0]) + vertices_bytes(vs.drop_first())
    }
}

/// The packed bytes of an index list, in order.
pub open spec fn indices_bytes(indices: Seq<u32>) -> Seq<u8>
    decreases indices.len(),
{
    if indices.len() == 0 {
        Seq::<u8>::empty()
    } else {
        word_bytes(indices[0]) + indices_bytes(indices.drop_first())
    }
}

proof fn lemma_vertices_bytes_push(vs: Seq<Vertex>, v: Vertex)
    ensures
        vertices_bytes(vs.push(v)) == vertices_bytes(vs) + vertex_bytes(v),
    decreases vs.len(),
{
    if vs.len() == 0 {
        assert(vs.push(v)[0] == v);
        assert(vs.push(v).drop_first() =~= vs);
        assert(vertices_bytes(vs.push(v)) =~= vertices_bytes(vs) + vertex_bytes(v));
    } else {
        assert(vs.push(v).drop_first() =~= vs.drop_first().push(v));
        lemma_vertices_bytes_push(vs.drop_first(), v);
        assert(vertices_bytes(vs.push(v)) =~= vertices_bytes(vs) + vertex_bytes(v));
    }
}

proof fn lemma_indices_bytes_push(indices: Seq<u32>, w: u32)
    ensures
        indices_bytes(indices.push(w)) == indices_bytes(indices) + word_bytes(w),
    decreases indices.len(),
{
    if indices.len() == 0 {
        assert(indices.push(w)[0] == w);
        assert(indices.push(w).drop_first() =~= indices);
        assert(indices_bytes(indices.push(w)) =~= indices_bytes(indices) + word_bytes(w));
    } else {
        assert(indices.push(w).drop_first() =~= indices.drop_first().push(w));
        lemma_indices_bytes_push(indices.drop_first(), w);
        assert(indices_bytes(indices.push(w)) =~= indices_bytes(indices) + word_bytes(w));
    }
}

proof fn lemma_vertices_bytes_len(vs: Seq<Vertex>)
    ensures
        vertices_bytes(vs).len() == 24 * vs.len(),
    decreases vs.len(),
{
    if vs.len() > 0 {
        lemma_vertices_bytes_len(vs.drop_first());
    }
}

proof fn lemma_indices_bytes_len(indices: Seq<u32>)
    ensures
        indices_bytes(indices).len() == 4 * indices.len(),
    decreases indices.len(),
{
    if indices.len() > 0 {
        lemma_indices_bytes_len(indices.drop_first());
    }
}

/// Appends the four bytes of `w`, least significant first.
fn push_word_bytes(out: &mut Vec<u8>, w: u32)
    ensures
        final(out)@ == old(out)@ + word_bytes(w),
{
    out.push((w % 256) as u8);
    out.push(((w / 256) % 256) as u8);
    out.push(((w / 65536) % 256) as u8);
    out.push(((w / 16777216) % 256) as u8);
    proof {
        assert(out@ =~= old(out)@ + word_bytes(w));
    }
}

/// Packs the vertices into the bytes a vertex buffer is created from:
/// 24 bytes per vertex, components least-significant byte first.
pub fn vertex_buffer_bytes(vertices: &Vec<Vertex>) -> (r: Vec<u8>)
    ensures
        r@ == vertices_bytes(vertices@),
        r@.len() == 24 * vertices@.len(),
{
    let mut out: Vec<u8> = Vec::new();
    let mut i: usize = 0;
    proof {
        assert(vertices@.take(0) =~= Seq::<Vertex>::empty());
    }
    while i < vertices.len()
        invariant
            0 <= i <= vertices@.len(),
            out@ == vertices_bytes(vertices@.take(i as int)),
        decreases vertices@.len() - i,
    {
        let v = vertices[i];
        push_word_bytes(&mut out, v.position_bits[0]);
        push_word_bytes(&mut out, v.position_bits[1]);
        push_word_bytes(&mut out, v.position_bits[2]);
        push_word_bytes(&mut out, v.color_bits[0]);
        push_word_bytes(&mut out, v.color_bits[1]);
        push_word_bytes(&mut out, v.color_bits[2]);
        proof {
            lemma_vertices_bytes_push(vertices@.take(i as int), vertices@[i as int]);
            assert(vertices@.take(i as int).push(vertices@[i as int]) =~= vertices@.take(
                i as int + 1,
            ));
            assert(out@ =~= vertices_bytes(vertices@.take(i as int)) + vertex_bytes(
                vertices@[i as int],
            ));
        }
        i += 1;
    }
    proof {
        assert(vertices@.take(vertices@.len() as int) =~= vertices@);
        lemma_vertices_bytes_len(vertices@);
    }
    out
}

/// Packs the indices into the bytes an index buffer is created from:
/// 4 bytes per index, least-significant byte first.
pub fn index_buffer_bytes(indices: &Vec<u32>) -> (r: Vec<u8>)
    ensures
        r@ == indices_bytes(indices@),
        r@.len() == 4 * indices@.len(),
{
    let mut out: Vec<u8> = Vec::new();
    let mut i: usize = 0;
    proof {
        assert(indices@.take(0) =~= Seq::<u32>::empty());
    }
    while i < indices.len()
        invariant
            0 <= i <= indices@.len(),
            out@ == indices_bytes(indices@.take(i as int)),
        decreases indices@.len() - i,
    {
        push_word_bytes(&mut out, indices[i]);
        proof {
            lemma_indices_bytes_push(indices@.take(i as int), indices@[i as int]);
            assert(indices@.take(i as int).push(indices@[i as int]) =~= indices@.take(
                i as int + 1,
            ));
        }
        i += 1;
    }
    proof {
        assert(indices@.take(indices@.len() as int) =~= indices@);
        lemma_indices_bytes_len(indices@);
    }
    out
}

} // verus!
