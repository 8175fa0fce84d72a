//! A loaded model: an ordered mesh list, the owning texture cache, and the
//! base directory for resolving relative texture paths.
//!
//! Decoding the model file itself is the embedding loader's job; it hands the
//! flat per-sub-mesh arrays over, and this module zips them into verified
//! meshes, resolves each sub-mesh's material against the cache, and keeps the
//! cache's decode-at-most-once discipline.
use vstd::prelude::*;

use vstd::string::StringExecFns;

use crate::errors::ERRUranXError;
use crate::math::BITS_ZERO;
use crate::mesh::Mesh;
use crate::mesh::Vertex;
use crate::mesh::indices_in_bounds;
use crate::texture::CacheEntry;
use crate::texture::Texture;
use crate::texture::TextureCache;
use crate::texture::keys_distinct;
use crate::texture::seq_get;

verus! {

/// What the parent-directory decomposition of a path string yields.
pub uninterp spec fn parent_dir_of(path: Seq<char>) -> Seq<char>;

/// Relies on std::path::Path::parent: the path without its final component,
/// a pure function of the path string; a path without a parent maps to the
/// empty string here.
#[verifier::external_body]
fn parent_dir(path: &str) -> (r: String)
    ensures
        r@ == parent_dir_of(path@),
{
    match std::path::Path::new(path).parent() {
        Some(p) => p.to_string_lossy().to_string(),
        None => String::new(),
    }
}

/// A relative texture path resolved against the model's base directory.
pub open spec fn spec_resolved_path(dir: Seq<char>, relative: Seq<char>) -> Seq<char> {
    dir + "/"@ + relative
}

/// The vertex zipped from position `i` of the flat arrays: three position
/// scalars always; three normal scalars when the source provides them for
/// this vertex, zeros otherwise; two texture coordinates likewise.
pub open spec fn spec_zipped_vertex(
    v: Vertex,
    p: Seq<u32>,
    n: Seq<u32>,
    t: Seq<u32>,
    i: int,
) -> bool {
    &&& v.position@ == seq![p[3 * i], p[3 * i + 1], p[3 * i + 2]]
    &&& v.normal@ == (if n.len() > 0 && 3 * i + 2 < n.len() {
        seq![n[3 * i], n[3 * i + 1], n[3 * i + 2]]
    } else {
        seq![BITS_ZERO, BITS_ZERO, BITS_ZERO]
    })
    &&& v.texture_coords@ == (if t.len() > 0 && 2 * i + 1 < t.len() {
        seq![t[2 * i], t[2 * i + 1]]
    } else {
        seq![BITS_ZERO, BITS_ZERO]
    })
}

/// One vertex per position triple, each zipped from the flat arrays.
pub open spec fn spec_zipped_vertices(vs: Seq<Vertex>, p: Seq<u32>, n: Seq<u32>, t: Seq<u32>) -> bool {
    &&& vs.len() == p.len() / 3
    &&& forall|i: int| 0 <= i < vs.len() ==> spec_zipped_vertex(vs[i], p, n, t, i)
}

/// The textures of a sub-mesh: the one cached under the material's resolved
/// diffuse path, or none.
pub open spec fn spec_mesh_textures(
    cache: Seq<CacheEntry>,
    dir: Seq<char>,
    material_diffuse: Option<Seq<char>>,
) -> Seq<Texture> {
    match material_diffuse {
        Option::None => Seq::empty(),
        Option::Some(d) => match seq_get(cache, spec_resolved_path(dir, d)) {
            Option::None => Seq::empty(),
            Option::Some(t) => seq![t],
        },
    }
}

/// Sum of the index counts over a mesh list: with triangulated input, three
/// indices per face, this is the combined index count of a load.
pub open spec fn spec_total_indices(meshes: Seq<Mesh>) -> int
    decreases meshes.len(),
{
    if meshes.len() == 0 {
        0
    } else {
        spec_total_indices(meshes.drop_last()) + meshes.last().spec_indices().len()
    }
}

/// Appending one mesh grows the combined index count by exactly that mesh's
/// index count.
pub proof fn lemma_total_indices_push(meshes: Seq<Mesh>, m: Mesh)
    ensures
        spec_total_indices(meshes.push(m)) == spec_total_indices(meshes)
            + m.spec_indices().len(),
{
    assert(meshes.push(m).drop_last() =~= meshes);
    assert(meshes.push(m).last() == m);
}

#[derive(Debug)]
pub struct Model {
    meshes: Vec<Mesh>,
    texture_loader: TextureCache,
    directory: String,
}

impl Model {
    pub closed spec fn spec_meshes(&self) -> Seq<Mesh> {
        self.meshes@
    }

    pub closed spec fn spec_cache(&self) -> Seq<CacheEntry> {
        self.texture_loader@
    }

    pub closed spec fn spec_directory(&self) -> Seq<char> {
        self.directory@
    }

    /// The texture cached under a path, if any.
    pub open spec fn spec_cached_texture(&self, path: Seq<char>) -> Option<Texture> {
        seq_get(self.spec_cache(), path)
    }

    /// Cache keys stay unique and every mesh satisfies its index invariant.
    pub open spec fn wf(&self) -> bool {
        &&& keys_distinct(self.spec_cache())
        &&& forall|i: int| 0 <= i < self.spec_meshes().len() ==> self.spec_meshes()[i].wf()
    }

    /// A model rooted at the given file path: no meshes yet, an empty cache,
    /// and the base directory the relative texture paths resolve against.
    pub fn new(path: &str) -> (m: Model)
        ensures
            m.spec_meshes() == Seq::<Mesh>::empty(),
            m.spec_cache() == Seq::<CacheEntry>::empty(),
            m.spec_directory() == parent_dir_of(path@),
            m.wf(),
    {
        Model {
            meshes: Vec::new(),
            texture_loader: TextureCache::new(),
            directory: parent_dir(path),
        }
    }

    pub fn directory(&self) -> (d: &String)
        ensures
            d@ == self.spec_directory(),
    {
        &self.directory
    }

    pub fn meshes(&self) -> (r: &Vec<Mesh>)
        ensures
            r@ == self.spec_meshes(),
    {
        &self.meshes
    }

    /// How many distinct texture paths are cached.
    pub fn texture_count(&self) -> (n: usize)
        ensures
            n == self.spec_cache().len(),
    {
        self.texture_loader.len()
    }

    /// The texture cached under the material's resolved diffuse path.
    pub fn cached_texture(&self, relative: &String) -> (r: Option<Texture>)
        ensures
            r == self.spec_cached_texture(
                spec_resolved_path(self.spec_directory(), relative@),
            ),
    {
        let p = self.resolve_path(relative);
        self.texture_loader.get(&p)
    }

    /// The resolved path of a material's relative texture path.
    pub fn resolve_path(&self, relative: &String) -> (p: String)
        ensures
            p@ == spec_resolved_path(self.spec_directory(), relative@),
    {
        let mut p = self.directory.clone();
        p.append("/");
        p.append(relative.as_str());
        p
    }

    /// The path the embedding loader still has to decode for a material:
    /// an empty relative path needs nothing, and a path already cached is
    /// decoded at most once for the lifetime of the cache.
    pub fn texture_to_load(&self, relative: &String) -> (r: Option<String>)
        ensures
            match r {
                Option::Some(p) => {
                    &&& relative@.len() > 0
                    &&& p@ == spec_resolved_path(self.spec_directory(), relative@)
                    &&& self.spec_cached_texture(p@) is None
                },
                Option::None => relative@.len() == 0 || self.spec_cached_texture(
                    spec_resolved_path(self.spec_directory(), relative@),
                ) is Some,
            },
    {
        if relative.as_str().is_empty() {
            return None;
        }
        let p = self.resolve_path(relative);
        match self.texture_loader.get(&p) {
            Some(_) => None,
            None => Some(p),
        }
    }

    /// Stores a decoded texture under its resolved path; the first insert
    /// wins, so a second store under the same path changes nothing and hands
    /// the cached texture back.
    pub fn store_texture(&mut self, path: String, texture: Texture) -> (r: Texture)
        requires
            old(self).wf(),
        ensures
            final(self).wf(),
            final(self).spec_meshes() == old(self).spec_meshes(),
            final(self).spec_directory() == old(self).spec_directory(),
            old(self).spec_cached_texture(path@) matches Some(t) ==> r == t
                && final(self).spec_cache() == old(self).spec_cache(),
            old(self).spec_cached_texture(path@) is None ==> r == texture
                && final(self).spec_cache() == old(self).spec_cache().push(
                (CacheEntry { path, texture }),
            ),
            final(self).spec_cached_texture(path@) == Some(r),
    {
        let r = self.texture_loader.insert(path, texture);
        proof {
            assert(self.spec_meshes() == old(self).spec_meshes());
            assert(forall|i: int|
                0 <= i < self.spec_meshes().len() ==> self.spec_meshes()[i].wf());
        }
        r
    }

    /// One decoded sub-mesh becomes one mesh, appended in load order:
    /// vertices are zipped from the flat arrays with zero substitution for
    /// omitted attributes, indices are copied verbatim, and the material's
    /// resolved diffuse path contributes the cached texture if there is one.
    /// An index outside the vertex set is a decode error and leaves the
    /// model unchanged.
    pub fn process_mesh(
        &mut self,
        positions: &Vec<u32>,
        normals: &Vec<u32>,
        texcoords: &Vec<u32>,
        indices: Vec<u32>,
        material_diffuse: Option<&String>,
        vertex_array: u32,
        vertex_buffer: u32,
        element_buffer: u32,
    ) -> (r: Result<(), ERRUranXError>)
        requires
            old(self).wf(),
        ensures
            final(self).wf(),
            final(self).spec_cache() == old(self).spec_cache(),
            final(self).spec_directory() == old(self).spec_directory(),
            r is Ok <==> indices_in_bounds(indices@, positions@.len() as int / 3),
            r is Ok ==> {
                let m = final(self).spec_meshes().last();
                &&& final(self).spec_meshes() == old(self).spec_meshes().push(m)
                &&& spec_zipped_vertices(m.spec_vertices(), positions@, normals@, texcoords@)
                &&& m.spec_indices() == indices@
                &&& m.spec_textures() == spec_mesh_textures(
                    old(self).spec_cache(),
                    old(self).spec_directory(),
                    match material_diffuse {
                        Option::Some(d) => Option::Some(d@),
                        Option::None => Option::None,
                    },
                )
                &&& m.spec_vertex_array() == vertex_array
                &&& m.spec_vertex_buffer() == vertex_buffer
                &&& m.spec_element_buffer() == element_buffer
                &&& spec_total_indices(final(self).spec_meshes()) == spec_total_indices(
                    old(self).spec_meshes(),
                ) + indices@.len()
            },
            r is Err ==> *final(self) == *old(self),
            r matches Err(e) ==> e == ERRUranXError::ASSET_DECODE_ERROR,
    {
        let position_len = positions.len();
        let vertex_count = position_len / 3;
        let mut vertices: Vec<Vertex> = Vec::new();
        let mut i: usize = 0;
        while i < vertex_count
            invariant
                i <= vertex_count,
                position_len == positions@.len(),
                vertex_count == positions@.len() as int / 3,
                vertices@.len() == i,
                forall|j: int|
                    0 <= j < i ==> spec_zipped_vertex(
                        vertices@[j],
                        positions@,
                        normals@,
                        texcoords@,
                        j,
                    ),
            decreases vertex_count - i,
        {
            proof {
                assert(3 * (i as int) + 2 < position_len as int) by (nonlinear_arith)
                    requires
                        i < vertex_count,
                        vertex_count == position_len as int / 3,
                ;
            }
            let position = [positions[3 * i], positions[3 * i + 1], positions[3 * i + 2]];
            let normal = if normals.len() > 0 && 3 * i + 2 < normals.len() {
                [normals[3 * i], normals[3 * i + 1], normals[3 * i + 2]]
            } else {
                [BITS_ZERO, BITS_ZERO, BITS_ZERO]
            };
            let texture_coords = if texcoords.len() > 0 && 2 * i + 1 < texcoords.len() {
                [texcoords[2 * i], texcoords[2 * i + 1]]
            } else {
                [BITS_ZERO, BITS_ZERO]
            };
            let v = Vertex { position, normal, texture_coords };
            proof {
                assert(spec_zipped_vertex(v, positions@, normals@, texcoords@, i as int));
            }
            vertices.push(v);
            i = i + 1;
        }

        let mut textures: Vec<Texture> = Vec::new();
        match material_diffuse {
            Some(d) => {
                match self.cached_texture(d) {
                    Some(t) => textures.push(t),
                    None => {},
                }
            },
            None => {},
        }

        let ghost meshes_before = self.spec_meshes();
        match Mesh::new(
            vertices,
            indices,
            textures,
            vertex_array,
            vertex_buffer,
            element_buffer,
        ) {
            Ok(m) => {
                proof {
                    lemma_total_indices_push(meshes_before, m);
                }
                self.meshes.push(m);
                Ok(())
            },
            Err(e) => Err(e),
        }
    }
}

} // verus!
