//! Meshes and materials.

use vstd::prelude::*;
use crate::texture::Texture;
use crate::vector::{Vec2, Vec3, Vec4};

verus! {

/// A corner of a triangle: position and normal in model space, and a
/// texture coordinate.
#[derive(Clone, Copy, Debug)]
pub struct Vertex {
    pub position: Vec3,
    pub normal: Vec3,
    pub tex_coord: Vec2,
}

impl Default for Vertex {
    /// The vertex at the origin with no normal and no texture coordinate.
    fn default() -> (v: Vertex)
        ensures
            v.position@ == (0int, 0int, 0int),
            v.normal@ == (0int, 0int, 0int),
            v.tex_coord@ == (0int, 0int),
    {
        Vertex {
            position: Vec3 { x: 0, y: 0, z: 0 },
            normal: Vec3 { x: 0, y: 0, z: 0 },
            tex_coord: Vec2 { x: 0, y: 0 },
        }
    }
}

/// A base color and, optionally, a texture that modulates it.
#[derive(Clone, Debug)]
pub struct Material {
    pub base_color: Vec4,
    pub base_color_texture: Option<Texture>,
}

impl Material {
    /// The texture, if there is one, is usable.
    pub open spec fn wf(&self) -> bool {
        match self.base_color_texture {
            Some(t) => t.wf(),
            None => true,
        }
    }
}

impl Material {
    /// Whether the texture, if there is one, is usable.
    pub fn check(&self) -> (ok: bool)
        ensures
            ok == self.wf(),
    {
        match &self.base_color_texture {
            Some(t) => t.check(),
            None => true,
        }
    }
}

impl Default for Material {
    /// Opaque white, without a texture.
    fn default() -> (m: Material)
        ensures
            m.base_color@ == (65536int, 65536int, 65536int, 65536int),
            m.base_color_texture.is_none(),
            m.wf(),
    {
        Material { base_color: Vec4 { x: 65536, y: 65536, z: 65536, w: 65536 }, base_color_texture: None }
    }
}

/// Why mesh data cannot be used.
#[derive(Clone, Copy, Debug, PartialEq, Eq)]
pub enum MeshError {
    /// There are more normals or texture coordinates than positions.
    TooManyAttributes,
    /// The number of indices is not a multiple of three.
    IncompleteTriangle,
    /// An index does not name a vertex.
    IndexOutOfRange,
    /// The material index does not name a material of the model.
    MaterialOutOfRange,
}

/// Triangles over a common list of vertices: every three indices make one
/// triangle.
#[derive(Clone, Debug)]
pub struct Mesh {
    pub vertices: Vec<Vertex>,
    pub indices: Vec<u32>,
    pub material_idx: usize,
}

impl Mesh {
    /// The indices come in triples and each names a vertex.
    pub open spec fn wf(&self) -> bool {
        &&& self.indices@.len() % 3 == 0
        &&& forall|i: int| 0 <= i < self.indices@.len() ==> (#[trigger] self.indices@[i])
            < self.vertices@.len()
    }

    /// The number of triangles.
    pub open spec fn triangle_count(&self) -> nat {
        self.indices@.len() / 3
    }

    /// The vertex at corner `k` of triangle `i`.
    pub open spec fn corner(&self, i: int, k: int) -> Vertex {
        self.vertices@[self.indices@[3 * i + k] as int]
    }

    /// Checks that the indices come in triples and each names a vertex.
    pub fn check(&self) -> (r: Result<(), MeshError>)
        ensures
            match r {
                Ok(_) => self.wf(),
                Err(MeshError::IncompleteTriangle) => self.indices@.len() % 3 != 0,
                Err(MeshError::IndexOutOfRange) => self.indices@.len() % 3 == 0 && exists|i: int|
                    0 <= i < self.indices@.len() && (#[trigger] self.indices@[i])
                        >= self.vertices@.len(),
                Err(_) => false,
            },
    {
        if self.indices.len() % 3 != 0 {
            return Err(MeshError::IncompleteTriangle);
        }
        let n: usize = self.indices.len();
        let count: usize = self.vertices.len();
        let mut i: usize = 0;
        while i < n
            invariant
                i <= n,
                n == self.indices@.len(),
                n % 3 == 0,
                count == self.vertices@.len(),
                forall|j: int| 0 <= j < i ==> (#[trigger] self.indices@[j]) < count,
            decreases n - i,
        {
            if self.indices[i] as usize >= count {
                assert(self.indices@[i as int] >= self.vertices@.len());
                return Err(MeshError::IndexOutOfRange);
            }
            i = i + 1;
        }
        Ok(())
    }

    /// Assembles a mesh from its attribute streams.  Each position makes a
    /// vertex.  The normals and the texture coordinates, where present, are
    /// given to the vertices in order; a vertex that gets none keeps zero.
    pub fn from_attributes(
        positions: Vec<Vec3>,
        normals: Option<Vec<Vec3>>,
        tex_coords: Option<Vec<Vec2>>,
        indices: Vec<u32>,
        material_idx: usize,
    ) -> (r: Result<Mesh, MeshError>)
        ensures
            match r {
                Ok(mesh) => {
                    &&& attributes_fit(positions@, normals, tex_coords)
                    &&& mesh.wf()
                    &&& mesh.indices@ == indices@
                    &&& mesh.material_idx == material_idx
                    &&& mesh.vertices@.len() == positions@.len()
                    &&& forall|i: int|
                        0 <= i < positions@.len() ==> (#[trigger] mesh.vertices@[i])
                            == assembled_vertex(positions@, normals, tex_coords, i)
                },
                Err(MeshError::TooManyAttributes) => !attributes_fit(positions@, normals, tex_coords),
                Err(MeshError::IncompleteTriangle) => attributes_fit(positions@, normals, tex_coords)
                    && indices@.len() % 3 != 0,
                Err(MeshError::IndexOutOfRange) => attributes_fit(positions@, normals, tex_coords)
                    && indices@.len() % 3 == 0 && exists|i: int|
                    0 <= i < indices@.len() && (#[trigger] indices@[i]) >= positions@.len(),
                Err(MeshError::MaterialOutOfRange) => false,
            },
    {
        let n: usize = positions.len();
        let normal_count: usize = match &normals {
            Some(list) => list.len(),
            None => 0,
        };
        let tex_coord_count: usize = match &tex_coords {
            Some(list) => list.len(),
            None => 0,
        };
        if normal_count > n || tex_coord_count > n {
            return Err(MeshError::TooManyAttributes);
        }
        let mut vertices: Vec<Vertex> = Vec::new();
        let mut i: usize = 0;
        while i < n
            invariant
                i <= n,
                n == positions@.len(),
                vertices@.len() == i,
                attributes_fit(positions@, normals, tex_coords),
                forall|j: int|
                    0 <= j < i ==> (#[trigger] vertices@[j]) == assembled_vertex(
                        positions@,
                        normals,
                        tex_coords,
                        j,
                    ),
            decreases n - i,
        {
            let normal: Vec3 = match &normals {
                Some(list) => if i < list.len() {
                    list[i]
                } else {
                    Vec3 { x: 0, y: 0, z: 0 }
                },
                None => Vec3 { x: 0, y: 0, z: 0 },
            };
            let tex_coord: Vec2 = match &tex_coords {
                Some(list) => if i < list.len() {
                    list[i]
                } else {
                    Vec2 { x: 0, y: 0 }
                },
                None => Vec2 { x: 0, y: 0 },
            };
            vertices.push(Vertex { position: positions[i], normal, tex_coord });
            i = i + 1;
        }
        let mesh = Mesh { vertices, indices, material_idx };
        match mesh.check() {
            Ok(_) => Ok(mesh),
            Err(e) => Err(e),
        }
    }
}

/// There are no more normals and no more texture coordinates than positions.
pub open spec fn attributes_fit(
    positions: Seq<Vec3>,
    normals: Option<Vec<Vec3>>,
    tex_coords: Option<Vec<Vec2>>,
) -> bool {
    &&& normals matches Some(list) ==> list@.len() <= positions.len()
    &&& tex_coords matches Some(list) ==> list@.len() <= positions.len()
}

/// The vertex that is assembled at index `i` of the attribute streams.
pub open spec fn assembled_vertex(
    positions: Seq<Vec3>,
    normals: Option<Vec<Vec3>>,
    tex_coords: Option<Vec<Vec2>>,
    i: int,
) -> Vertex {
    Vertex {
        position: positions[i],
        normal: match normals {
            Some(list) if i < list@.len() => list@[i],
            _ => Vec3 { x: 0, y: 0, z: 0 },
        },
        tex_coord: match tex_coords {
            Some(list) if i < list@.len() => list@[i],
            _ => Vec2 { x: 0, y: 0 },
        },
    }
}

/// Meshes and the materials that they refer to.
#[derive(Clone, Debug)]
pub struct Model {
    pub meshes: Vec<Mesh>,
    pub materials: Vec<Material>,
}

impl Model {
    /// Every mesh is well formed and names a material, and every material
    /// is usable.
    pub open spec fn wf(&self) -> bool {
        &&& forall|i: int|
            0 <= i < self.meshes@.len() ==> (#[trigger] self.meshes@[i]).wf()
                && self.meshes@[i].material_idx < self.materials@.len()
        &&& forall|i: int| 0 <= i < self.materials@.len() ==> (#[trigger] self.materials@[i]).wf()
    }

    /// Whether every mesh is well formed and names a material, and every
    /// material is usable.
    pub fn check(&self) -> (ok: bool)
        ensures
            ok == self.wf(),
    {
        let mut i: usize = 0;
        while i < self.meshes.len()
            invariant
                i <= self.meshes@.len(),
                forall|j: int|
                    0 <= j < i ==> (#[trigger] self.meshes@[j]).wf() && self.meshes@[j].material_idx
                        < self.materials@.len(),
            decreases self.meshes@.len() - i,
        {
            let mesh: &Mesh = &self.meshes[i];
            if mesh.material_idx >= self.materials.len() {
                return false;
            }
            match mesh.check() {
                Ok(_) => {},
                Err(_) => {
                    return false;
                },
            }
            i = i + 1;
        }
        let mut k: usize = 0;
        while k < self.materials.len()
            invariant
                k <= self.materials@.len(),
                forall|j: int|
                    0 <= j < self.meshes@.len() ==> (#[trigger] self.meshes@[j]).wf()
                        && self.meshes@[j].material_idx < self.materials@.len(),
                forall|j: int| 0 <= j < k ==> (#[trigger] self.materials@[j]).wf(),
            decreases self.materials@.len() - k,
        {
            if !self.materials[k].check() {
                return false;
            }
            k = k + 1;
        }
        true
    }

    /// A model without meshes and with `material_count` default materials,
    /// or with one where `material_count` is zero.
    pub fn with_materials(material_count: usize) -> (model: Model)
        ensures
            model.wf(),
            model.meshes@.len() == 0,
            model.materials@.len() == if material_count == 0 {
                1
            } else {
                material_count as int
            },
            forall|i: int|
                0 <= i < model.materials@.len() ==> {
                    &&& (#[trigger] model.materials@[i]).base_color@ == (
                        65536int,
                        65536int,
                        65536int,
                        65536int,
                    )
                    &&& model.materials@[i].base_color_texture.is_none()
                },
    {
        let mut materials: Vec<Material> = Vec::new();
        let mut i: usize = 0;
        while i < material_count
            invariant
                i <= material_count,
                materials@.len() == i,
                forall|j: int|
                    0 <= j < i ==> {
                        &&& (#[trigger] materials@[j]).base_color@ == (
                            65536int,
                            65536int,
                            65536int,
                            65536int,
                        )
                        &&& materials@[j].base_color_texture.is_none()
                    },
            decreases material_count - i,
        {
            materials.push(Material::default());
            i = i + 1;
        }
        if material_count == 0 {
            materials.push(Material::default());
        }
        Model { meshes: Vec::new(), materials }
    }

    /// Adds a mesh and sets the base color and, if one is given, the texture
    /// of the material that it names.
    pub fn add_mesh(&mut self, mesh: Mesh, base_color: Vec4, texture: Option<Texture>) -> (r: Result<
        (),
        MeshError,
    >)
        requires
            old(self).wf(),
            texture matches Some(t) ==> t.wf(),
        ensures
            final(self).wf(),
            match r {
                Ok(_) => {
                    &&& mesh.wf()
                    &&& mesh.material_idx < old(self).materials@.len()
                    &&& final(self).meshes@ == old(self).meshes@.push(mesh)
                    &&& final(self).materials@ == old(self).materials@.update(
                        mesh.material_idx as int,
                        Material {
                            base_color,
                            base_color_texture: match texture {
                                Some(t) => Some(t),
                                None => old(self).materials@[mesh.material_idx as int].base_color_texture,
                            },
                        },
                    )
                },
                Err(MeshError::MaterialOutOfRange) => mesh.material_idx >= old(self).materials@.len()
                    && *final(self) == *old(self),
                Err(MeshError::IncompleteTriangle) => mesh.material_idx < old(self).materials@.len()
                    && !mesh.wf() && mesh.indices@.len() % 3 != 0 && *final(self) == *old(self),
                Err(MeshError::IndexOutOfRange) => mesh.material_idx < old(self).materials@.len()
                    && !mesh.wf() && mesh.indices@.len() % 3 == 0 && *final(self) == *old(self),
                Err(MeshError::TooManyAttributes) => false,
            },
    {
        if mesh.material_idx >= self.materials.len() {
            return Err(MeshError::MaterialOutOfRange);
        }
        match mesh.check() {
            Ok(_) => {},
            Err(e) => {
                return Err(e);
            },
        }
        let idx: usize = mesh.material_idx;
        let previous: Material = self.materials.remove(idx);
        let base_color_texture: Option<Texture> = match texture {
            Some(t) => Some(t),
            None => previous.base_color_texture,
        };
        self.materials.insert(idx, Material { base_color, base_color_texture });
        assert(self.materials@ =~= old(self).materials@.update(
            idx as int,
            Material { base_color, base_color_texture },
        ));
        self.meshes.push(mesh);
        Ok(())
    }
}

} // verus!
