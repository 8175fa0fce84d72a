//! One draw-able unit: a vertex set, an index set, the associated textures
//! and the GPU buffer handles backing them.
//!
//! The vertex layout is the binding contract between this crate and the
//! graphics pipeline: three position scalars, three normal scalars and two
//! texture-coordinate scalars, packed contiguously in that order. A draw call
//! binds the textures to sequential texture units and to uniforms named by a
//! fixed prefix, the texture's type tag and a 1-based per-type counter.
use vstd::prelude::*;

use vstd::string::StringExecFns;

use crate::errors::ERRUranXError;
use crate::texture::Texture;
use crate::texture::TextureKind;

verus! {

/// One vertex: position, normal and texture coordinates, as binary32 bit
/// patterns, in the fixed attribute order of the pipeline contract.
#[derive(Debug, Clone, Copy, PartialEq)]
pub struct Vertex {
    pub position: [u32; 3],
    pub normal: [u32; 3],
    pub texture_coords: [u32; 2],
}

/// The decimal digit character for a value below ten.
pub open spec fn spec_digit(d: int) -> char {
    if d == 0 {
        '0'
    } else if d == 1 {
        '1'
    } else if d == 2 {
        '2'
    } else if d == 3 {
        '3'
    } else if d == 4 {
        '4'
    } else if d == 5 {
        '5'
    } else if d == 6 {
        '6'
    } else if d == 7 {
        '7'
    } else if d == 8 {
        '8'
    } else {
        '9'
    }
}

/// Decimal digits of a number, most significant first.
pub open spec fn spec_decimal(n: nat) -> Seq<char>
    decreases n,
{
    if n < 10 {
        seq![spec_digit(n as int)]
    } else {
        spec_decimal(n / 10).push(spec_digit((n % 10) as int))
    }
}

fn digit_str(d: usize) -> (s: &'static str)
    requires
        d < 10,
    ensures
        s@ == seq![spec_digit(d as int)],
{
    let s: &'static str = if d == 0 {
        "0"
    } else if d == 1 {
        "1"
    } else if d == 2 {
        "2"
    } else if d == 3 {
        "3"
    } else if d == 4 {
        "4"
    } else if d == 5 {
        "5"
    } else if d == 6 {
        "6"
    } else if d == 7 {
        "7"
    } else if d == 8 {
        "8"
    } else {
        "9"
    };
    proof {
        reveal_strlit("0");
        reveal_strlit("1");
        reveal_strlit("2");
        reveal_strlit("3");
        reveal_strlit("4");
        reveal_strlit("5");
        reveal_strlit("6");
        reveal_strlit("7");
        reveal_strlit("8");
        reveal_strlit("9");
        assert(s@ =~= seq![spec_digit(d as int)]);
    }
    s
}

/// The decimal rendering of a counter.
pub fn usize_decimal(n: usize) -> (s: String)
    ensures
        s@ == spec_decimal(n as nat),
    decreases n,
{
    if n < 10 {
        String::from_str(digit_str(n))
    } else {
        let mut s = usize_decimal(n / 10);
        s.append(digit_str(n % 10));
        proof {
            assert(s@ =~= spec_decimal(n as nat));
        }
        s
    }
}

/// The type tag of a texture kind, as it appears inside uniform names.
pub open spec fn spec_kind_tag(k: TextureKind) -> Seq<char> {
    match k {
        TextureKind::Diffuse => "diffuse"@,
        TextureKind::Specular => "specular"@,
    }
}

fn kind_tag(k: TextureKind) -> (s: &'static str)
    ensures
        s@ == spec_kind_tag(k),
{
    match k {
        TextureKind::Diffuse => "diffuse",
        TextureKind::Specular => "specular",
    }
}

/// The uniform a texture binds to: the fixed prefix, the type tag, and the
/// 1-based per-type counter.
pub open spec fn spec_uniform_name(k: TextureKind, counter: nat) -> Seq<char> {
    "material_"@ + spec_kind_tag(k) + "_"@ + spec_decimal(counter)
}

pub fn uniform_name(k: TextureKind, counter: usize) -> (s: String)
    ensures
        s@ == spec_uniform_name(k, counter as nat),
{
    let mut s = String::from_str("material_");
    s.append(kind_tag(k));
    s.append("_");
    let digits = usize_decimal(counter);
    s.append(digits.as_str());
    proof {
        assert(s@ =~= spec_uniform_name(k, counter as nat));
    }
    s
}

/// How many of the first `upto` textures carry the given kind.
pub open spec fn spec_kind_count(textures: Seq<Texture>, k: TextureKind, upto: int) -> int
    decreases upto,
{
    if upto <= 0 {
        0
    } else {
        spec_kind_count(textures, k, upto - 1) + (if textures[upto - 1].texture_type == k {
            1int
        } else {
            0int
        })
    }
}

fn kind_count_upto(textures: &Vec<Texture>, k: TextureKind, upto: usize) -> (c: usize)
    requires
        upto <= textures@.len(),
    ensures
        c == spec_kind_count(textures@, k, upto as int),
        c <= upto,
{
    let mut c: usize = 0;
    let mut j: usize = 0;
    while j < upto
        invariant
            j <= upto,
            upto <= textures@.len(),
            c == spec_kind_count(textures@, k, j as int),
            c <= j,
        decreases upto - j,
    {
        if textures[j].texture_type == k {
            c = c + 1;
        }
        j = j + 1;
    }
    c
}

/// One entry of a draw call's binding plan: which texture handle goes to
/// which texture unit under which uniform name.
#[derive(Debug, Clone)]
pub struct TextureBinding {
    pub unit: usize,
    pub uniform_name: String,
    pub texture_id: u32,
}

/// The i-th binding of a plan: unit i, the i-th texture's handle, and the
/// uniform named by that texture's kind and its 1-based per-type counter.
pub open spec fn binding_matches(b: TextureBinding, textures: Seq<Texture>, i: int) -> bool {
    &&& b.unit == i
    &&& b.texture_id == textures[i].texture_id
    &&& b.uniform_name@ == spec_uniform_name(
        textures[i].texture_type,
        (spec_kind_count(textures, textures[i].texture_type, i) + 1) as nat,
    )
}

/// Every index points at a vertex.
pub open spec fn indices_in_bounds(indices: Seq<u32>, vertex_count: int) -> bool {
    forall|i: int| 0 <= i < indices.len() ==> (indices[i] as int) < vertex_count
}

#[derive(Debug)]
pub struct Mesh {
    vertices: Vec<Vertex>,
    indices: Vec<u32>,
    textures: Vec<Texture>,
    vertex_array: u32,
    vertex_buffer: u32,
    element_buffer: u32,
}

impl Mesh {
    pub closed spec fn spec_vertices(&self) -> Seq<Vertex> {
        self.vertices@
    }

    pub closed spec fn spec_indices(&self) -> Seq<u32> {
        self.indices@
    }

    pub closed spec fn spec_textures(&self) -> Seq<Texture> {
        self.textures@
    }

    pub closed spec fn spec_vertex_array(&self) -> u32 {
        self.vertex_array
    }

    pub closed spec fn spec_vertex_buffer(&self) -> u32 {
        self.vertex_buffer
    }

    pub closed spec fn spec_element_buffer(&self) -> u32 {
        self.element_buffer
    }

    /// The index invariant of every constructed mesh.
    pub open spec fn wf(&self) -> bool {
        indices_in_bounds(self.spec_indices(), self.spec_vertices().len() as int)
    }

    /// Builds a mesh over already-created GPU buffer handles. Data whose
    /// indices point outside the vertex set is rejected as a decode error:
    /// constructed meshes always satisfy the index invariant.
    pub fn new(
        vertices: Vec<Vertex>,
        indices: Vec<u32>,
        textures: Vec<Texture>,
        vertex_array: u32,
        vertex_buffer: u32,
        element_buffer: u32,
    ) -> (r: Result<Mesh, ERRUranXError>)
        ensures
            r is Ok <==> indices_in_bounds(indices@, vertices@.len() as int),
            r matches Ok(m) ==> {
                &&& m.spec_vertices() == vertices@
                &&& m.spec_indices() == indices@
                &&& m.spec_textures() == textures@
                &&& m.spec_vertex_array() == vertex_array
                &&& m.spec_vertex_buffer() == vertex_buffer
                &&& m.spec_element_buffer() == element_buffer
                &&& m.wf()
            },
            r matches Err(e) ==> e == ERRUranXError::ASSET_DECODE_ERROR,
    {
        let vertex_count = vertices.len();
        let n = indices.len();
        let mut i: usize = 0;
        while i < n
            invariant
                i <= n,
                n == indices@.len(),
                vertex_count == vertices@.len(),
                forall|j: int| 0 <= j < i ==> (indices@[j] as int) < vertex_count,
            decreases n - i,
        {
            if indices[i] as usize >= vertex_count {
                return Err(ERRUranXError::ASSET_DECODE_ERROR);
            }
            i = i + 1;
        }
        Ok(Mesh { vertices, indices, textures, vertex_array, vertex_buffer, element_buffer })
    }

    pub fn vertices(&self) -> (r: &Vec<Vertex>)
        ensures
            r@ == self.spec_vertices(),
    {
        &self.vertices
    }

    pub fn indices(&self) -> (r: &Vec<u32>)
        ensures
            r@ == self.spec_indices(),
    {
        &self.indices
    }

    pub fn textures(&self) -> (r: &Vec<Texture>)
        ensures
            r@ == self.spec_textures(),
    {
        &self.textures
    }

    pub fn vertex_array(&self) -> (r: u32)
        ensures
            r == self.spec_vertex_array(),
    {
        self.vertex_array
    }

    pub fn vertex_buffer(&self) -> (r: u32)
        ensures
            r == self.spec_vertex_buffer(),
    {
        self.vertex_buffer
    }

    pub fn element_buffer(&self) -> (r: u32)
        ensures
            r == self.spec_element_buffer(),
    {
        self.element_buffer
    }

    /// How many indices a draw call covers: the full index range.
    pub fn index_count(&self) -> (n: usize)
        ensures
            n == self.spec_indices().len(),
    {
        self.indices.len()
    }

    /// The binding plan of a draw call: the i-th texture goes to texture
    /// unit i, its handle is bound there, and the uniform named by its type
    /// tag and 1-based per-type counter receives that unit. Units are
    /// sequential from 0, so no two bindings overlap; counters restart at 1
    /// for each type tag.
    pub fn draw_bindings(&self) -> (plan: Vec<TextureBinding>)
        ensures
            plan@.len() == self.spec_textures().len(),
            forall|i: int|
                0 <= i < plan@.len() ==> binding_matches(plan@[i], self.spec_textures(), i),
    {
        let mut plan: Vec<TextureBinding> = Vec::new();
        let n = self.textures.len();
        let mut i: usize = 0;
        while i < n
            invariant
                i <= n,
                n == self.spec_textures().len(),
                self.spec_textures() == self.textures@,
                plan@.len() == i,
                forall|j: int|
                    0 <= j < i ==> binding_matches(plan@[j], self.spec_textures(), j),
            decreases n - i,
        {
            let texture = self.textures[i];
            let number = kind_count_upto(&self.textures, texture.texture_type, i) + 1;
            let name = uniform_name(texture.texture_type, number);
            plan.push(
                TextureBinding { unit: i, uniform_name: name, texture_id: texture.texture_id },
            );
            i = i + 1;
        }
        plan
    }
}

/// The flat scalar image of one vertex, in attribute order.
pub open spec fn spec_flat_vertex(v: Vertex) -> Seq<u32> {
    seq![
        v.position@[0],
        v.position@[1],
        v.position@[2],
        v.normal@[0],
        v.normal@[1],
        v.normal@[2],
        v.texture_coords@[0],
        v.texture_coords@[1],
    ]
}

/// Packs vertices into the contiguous buffer the pipeline consumes: eight
/// scalars per vertex, position, normal and texture coordinates in order.
pub fn flatten_vertices(vertices: &Vec<Vertex>) -> (r: Vec<u32>)
    ensures
        r@.len() == 8 * vertices@.len(),
        forall|i: int|
            0 <= i < vertices@.len() ==> r@.subrange(8 * i, 8 * i + 8) == spec_flat_vertex(
                vertices@[i],
            ),
{
    let mut r: Vec<u32> = Vec::new();
    let n = vertices.len();
    let mut i: usize = 0;
    while i < n
        invariant
            i <= n,
            n == vertices@.len(),
            r@.len() == 8 * i,
            forall|j: int|
                0 <= j < i ==> r@.subrange(8 * j, 8 * j + 8) == spec_flat_vertex(vertices@[j]),
        decreases n - i,
    {
        let ghost before = r@;
        let v = vertices[i];
        r.push(v.position[0]);
        r.push(v.position[1]);
        r.push(v.position[2]);
        r.push(v.normal[0]);
        r.push(v.normal[1]);
        r.push(v.normal[2]);
        r.push(v.texture_coords[0]);
        r.push(v.texture_coords[1]);
        proof {
            assert(r@.subrange(8 * i as int, 8 * i as int + 8) =~= spec_flat_vertex(
                vertices@[i as int],
            ));
            assert forall|j: int| 0 <= j < i implies r@.subrange(8 * j, 8 * j + 8)
                == spec_flat_vertex(vertices@[j]) by {
                assert(r@.subrange(8 * j, 8 * j + 8) =~= before.subrange(8 * j, 8 * j + 8));
            }
        }
        i = i + 1;
    }
    r
}

/// One vertex attribute of the fixed layout: its attribute index, its number
/// of scalar components, and its byte offset inside a vertex.
#[derive(Debug, Clone, Copy, PartialEq, Eq, Structural)]
pub struct VertexAttribute {
    pub index: u32,
    pub size: u32,
    pub offset: usize,
}

/// The byte stride of one packed vertex: eight four-byte scalars.
pub const VERTEX_STRIDE: usize = 32;

/// The fixed 3+3+2 attribute layout: positions at byte 0, normals at byte
/// 12, texture coordinates at byte 24, all with the vertex stride.
pub fn vertex_layout() -> (l: Vec<VertexAttribute>)
    ensures
        l@.len() == 3,
        l@[0] == (VertexAttribute { index: 0, size: 3, offset: 0 }),
        l@[1] == (VertexAttribute { index: 1, size: 3, offset: 12 }),
        l@[2] == (VertexAttribute { index: 2, size: 2, offset: 24 }),
{
    let mut l: Vec<VertexAttribute> = Vec::new();
    l.push(VertexAttribute { index: 0, size: 3, offset: 0 });
    l.push(VertexAttribute { index: 1, size: 3, offset: 12 });
    l.push(VertexAttribute { index: 2, size: 2, offset: 24 });
    l
}

} // verus!
