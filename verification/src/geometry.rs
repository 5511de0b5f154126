//! Triangle-mesh scenes and their GPU-layout records.
//!
//! A scene is an indexed triangle mesh: a list of materials (index 0 is the
//! fallback material), a list of vertices, and a list of triangles that refer
//! to both by index.  The orchestrator validates staged scenes — every index
//! must name an existing vertex or material — and converts the lists into the
//! padded records the GPU kernel reads from storage buffers.  As everywhere
//! in this crate, float scalars are carried as raw single-precision bit
//! patterns (see [`crate::f32bits`]).

use crate::f32bits::{F32_MINUS_ONE_BITS, F32_ONE_BITS, F32_ZERO_BITS};
use vstd::prelude::*;

verus! {

/// Surface appearance of a triangle, scalars as single-precision bit
/// patterns.
#[derive(Clone, Copy, Debug, PartialEq, Eq)]
pub struct Material {
    /// Base colour, r/g/b.
    pub albedo: [u32; 3],
    /// Microfacet roughness in `[0, 1]`.
    pub roughness: u32,
    /// Metalness in `[0, 1]`.
    pub metallic: u32,
    /// Emitted radiance, r/g/b.
    pub emission: [u32; 3],
}

impl Material {
    /// The fallback material at index 0: magenta, fully rough, not metallic,
    /// not emissive — deliberately loud, so that triangles pointing at it
    /// stand out.
    pub open spec fn spec_default() -> Material {
        Material {
            albedo: [F32_ONE_BITS, F32_ZERO_BITS, F32_ONE_BITS],
            roughness: F32_ONE_BITS,
            metallic: F32_ZERO_BITS,
            emission: [F32_ZERO_BITS, F32_ZERO_BITS, F32_ZERO_BITS],
        }
    }
}

impl Default for Material {
    /// The fallback material.
    fn default() -> (r: Material)
        ensures
            r == Material::spec_default(),
    {
        Material {
            albedo: [F32_ONE_BITS, F32_ZERO_BITS, F32_ONE_BITS],
            roughness: F32_ONE_BITS,
            metallic: F32_ZERO_BITS,
            emission: [F32_ZERO_BITS, F32_ZERO_BITS, F32_ZERO_BITS],
        }
    }
}

/// One mesh vertex, scalars as single-precision bit patterns.
#[derive(Clone, Copy, Debug, PartialEq, Eq)]
pub struct Vertex {
    /// World-space position, x/y/z.
    pub position: [u32; 3],
    /// Texture coordinate, u/v.
    pub tex_coord: [u32; 2],
    /// Surface normal, x/y/z.
    pub normal: [u32; 3],
}

/// One triangle: three vertex indices and a material index.
#[derive(Clone, Copy, Debug, PartialEq, Eq)]
pub struct Triangle {
    pub vertex_indices: [u32; 3],
    pub material_index: u32,
}

/// Whether every index of `t` names an existing vertex or material in lists
/// of the given lengths.
pub open spec fn triangle_references_ok(t: Triangle, vertex_count: nat, material_count: nat) -> bool {
    &&& t.vertex_indices[0] < vertex_count
    &&& t.vertex_indices[1] < vertex_count
    &&& t.vertex_indices[2] < vertex_count
    &&& t.material_index < material_count
}

/// An indexed triangle-mesh scene.
#[derive(Clone, Debug, PartialEq, Eq)]
pub struct Geometry {
    /// Materials; index 0 is the fallback material.
    pub materials: Vec<Material>,
    pub vertices: Vec<Vertex>,
    pub triangles: Vec<Triangle>,
}

impl Geometry {
    /// A scene is usable when every triangle refers only to vertices and
    /// materials that exist; a scene failing this is replaced wholesale by
    /// the default placeholder, never partially accepted.
    pub open spec fn spec_valid(self) -> bool {
        forall|j: int|
            0 <= j < self.triangles@.len() ==> triangle_references_ok(
                #[trigger] self.triangles@[j],
                self.vertices@.len(),
                self.materials@.len(),
            )
    }

    /// Materials of the placeholder scene: the fallback material alone.
    pub open spec fn spec_default_materials() -> Seq<Material> {
        seq![Material::spec_default()]
    }

    /// Vertices of the placeholder scene: the corners of a unit quad in the
    /// `z = 0` plane, normals along `+z`.
    pub open spec fn spec_default_vertices() -> Seq<Vertex> {
        seq![
            Vertex {
                position: [F32_MINUS_ONE_BITS, F32_MINUS_ONE_BITS, F32_ZERO_BITS],
                tex_coord: [F32_ZERO_BITS, F32_ZERO_BITS],
                normal: [F32_ZERO_BITS, F32_ZERO_BITS, F32_ONE_BITS],
            },
            Vertex {
                position: [F32_ONE_BITS, F32_MINUS_ONE_BITS, F32_ZERO_BITS],
                tex_coord: [F32_ONE_BITS, F32_ZERO_BITS],
                normal: [F32_ZERO_BITS, F32_ZERO_BITS, F32_ONE_BITS],
            },
            Vertex {
                position: [F32_ONE_BITS, F32_ONE_BITS, F32_ZERO_BITS],
                tex_coord: [F32_ONE_BITS, F32_ONE_BITS],
                normal: [F32_ZERO_BITS, F32_ZERO_BITS, F32_ONE_BITS],
            },
            Vertex {
                position: [F32_MINUS_ONE_BITS, F32_ONE_BITS, F32_ZERO_BITS],
                tex_coord: [F32_ZERO_BITS, F32_ONE_BITS],
                normal: [F32_ZERO_BITS, F32_ZERO_BITS, F32_ONE_BITS],
            },
        ]
    }

    /// Triangles of the placeholder scene: the two halves of the quad.
    pub open spec fn spec_default_triangles() -> Seq<Triangle> {
        seq![
            Triangle { vertex_indices: [0u32, 1, 2], material_index: 0u32 },
            Triangle { vertex_indices: [0u32, 2, 3], material_index: 0u32 },
        ]
    }

    /// Decide whether this scene may be uploaded and rendered.
    pub fn validate(&self) -> (r: bool)
        ensures
            r == self.spec_valid(),
    {
        let mut i: usize = 0;
        while i < self.triangles.len()
            invariant
                i <= self.triangles@.len(),
                forall|j: int|
                    0 <= j < i ==> triangle_references_ok(
                        #[trigger] self.triangles@[j],
                        self.vertices@.len(),
                        self.materials@.len(),
                    ),
            decreases self.triangles@.len() - i,
        {
            let t = &self.triangles[i];
            if (t.vertex_indices[0] as usize) >= self.vertices.len() || (t.vertex_indices[1]
                as usize) >= self.vertices.len() || (t.vertex_indices[2] as usize)
                >= self.vertices.len() || (t.material_index as usize) >= self.materials.len() {
                return false;
            }
            i += 1;
        }
        true
    }
}

impl Default for Geometry {
    /// The placeholder scene substituted for an invalid one: a magenta quad.
    fn default() -> (r: Geometry)
        ensures
            r.materials@ == Geometry::spec_default_materials(),
            r.vertices@ == Geometry::spec_default_vertices(),
            r.triangles@ == Geometry::spec_default_triangles(),
            r.spec_valid(),
    {
        let materials = vec![Material::default()];
        let vertices = vec![
            Vertex {
                position: [F32_MINUS_ONE_BITS, F32_MINUS_ONE_BITS, F32_ZERO_BITS],
                tex_coord: [F32_ZERO_BITS, F32_ZERO_BITS],
                normal: [F32_ZERO_BITS, F32_ZERO_BITS, F32_ONE_BITS],
            },
            Vertex {
                position: [F32_ONE_BITS, F32_MINUS_ONE_BITS, F32_ZERO_BITS],
                tex_coord: [F32_ONE_BITS, F32_ZERO_BITS],
                normal: [F32_ZERO_BITS, F32_ZERO_BITS, F32_ONE_BITS],
            },
            Vertex {
                position: [F32_ONE_BITS, F32_ONE_BITS, F32_ZERO_BITS],
                tex_coord: [F32_ONE_BITS, F32_ONE_BITS],
                normal: [F32_ZERO_BITS, F32_ZERO_BITS, F32_ONE_BITS],
            },
            Vertex {
                position: [F32_MINUS_ONE_BITS, F32_ONE_BITS, F32_ZERO_BITS],
                tex_coord: [F32_ZERO_BITS, F32_ONE_BITS],
                normal: [F32_ZERO_BITS, F32_ZERO_BITS, F32_ONE_BITS],
            },
        ];
        let triangles = vec![
            Triangle { vertex_indices: [0u32, 1, 2], material_index: 0u32 },
            Triangle { vertex_indices: [0u32, 2, 3], material_index: 0u32 },
        ];
        let r = Geometry { materials, vertices, triangles };
        proof {
            assert(r.materials@ =~= Geometry::spec_default_materials());
            assert(r.vertices@ =~= Geometry::spec_default_vertices());
            assert(r.triangles@ =~= Geometry::spec_default_triangles());
        }
        r
    }
}

/// GPU-layout record of a [`Material`]: 16-byte aligned vectors with explicit
/// padding, matching the storage-buffer stride the kernel declares.
#[derive(Clone, Copy, Debug, PartialEq, Eq)]
pub struct GpuMaterial {
    pub albedo: [u32; 3],
    pub roughness: u32,
    pub metallic: u32,
    pub pad0: [u32; 3],
    pub emission: [u32; 3],
    pub pad1: u32,
}

/// The GPU record a [`Material`] maps to.
pub open spec fn gpu_material_of(m: Material) -> GpuMaterial {
    GpuMaterial {
        albedo: m.albedo,
        roughness: m.roughness,
        metallic: m.metallic,
        pad0: [0u32, 0, 0],
        emission: m.emission,
        pad1: 0u32,
    }
}

impl From<Material> for GpuMaterial {
    /// Lay a material out for the GPU: copy the scalars, zero the padding.
    fn from(m: Material) -> (r: GpuMaterial) {
        GpuMaterial {
            albedo: m.albedo,
            roughness: m.roughness,
            metallic: m.metallic,
            pad0: [0u32, 0, 0],
            emission: m.emission,
            pad1: 0u32,
        }
    }
}

impl vstd::std_specs::convert::FromSpecImpl<Material> for GpuMaterial {
    open spec fn obeys_from_spec() -> bool {
        true
    }

    open spec fn from_spec(m: Material) -> GpuMaterial {
        gpu_material_of(m)
    }
}

/// GPU-layout record of a [`Vertex`].
#[derive(Clone, Copy, Debug, PartialEq, Eq)]
pub struct GpuVertex {
    pub position: [u32; 3],
    pub pad0: u32,
    pub tex_coord: [u32; 2],
    pub pad1: [u32; 2],
    pub normal: [u32; 3],
    pub pad2: u32,
}

/// The GPU record a [`Vertex`] maps to.
pub open spec fn gpu_vertex_of(v: Vertex) -> GpuVertex {
    GpuVertex {
        position: v.position,
        pad0: 0u32,
        tex_coord: v.tex_coord,
        pad1: [0u32, 0],
        normal: v.normal,
        pad2: 0u32,
    }
}

impl From<Vertex> for GpuVertex {
    /// Lay a vertex out for the GPU: copy the scalars, zero the padding.
    fn from(v: Vertex) -> (r: GpuVertex) {
        GpuVertex {
            position: v.position,
            pad0: 0u32,
            tex_coord: v.tex_coord,
            pad1: [0u32, 0],
            normal: v.normal,
            pad2: 0u32,
        }
    }
}

impl vstd::std_specs::convert::FromSpecImpl<Vertex> for GpuVertex {
    open spec fn obeys_from_spec() -> bool {
        true
    }

    open spec fn from_spec(v: Vertex) -> GpuVertex {
        gpu_vertex_of(v)
    }
}

/// GPU-layout record of a [`Triangle`]; already tightly packed.
#[derive(Clone, Copy, Debug, PartialEq, Eq)]
pub struct GpuTriangle {
    pub vertex_indices: [u32; 3],
    pub material_index: u32,
}

/// The GPU record a [`Triangle`] maps to.
pub open spec fn gpu_triangle_of(t: Triangle) -> GpuTriangle {
    GpuTriangle { vertex_indices: t.vertex_indices, material_index: t.material_index }
}

impl From<Triangle> for GpuTriangle {
    /// Lay a triangle out for the GPU; the packing is already exact.
    fn from(t: Triangle) -> (r: GpuTriangle) {
        GpuTriangle { vertex_indices: t.vertex_indices, material_index: t.material_index }
    }
}

impl vstd::std_specs::convert::FromSpecImpl<Triangle> for GpuTriangle {
    open spec fn obeys_from_spec() -> bool {
        true
    }

    open spec fn from_spec(t: Triangle) -> GpuTriangle {
        gpu_triangle_of(t)
    }
}

/// Convert a material list into its GPU records, in order.
pub fn gpu_materials(materials: &Vec<Material>) -> (r: Vec<GpuMaterial>)
    ensures
        r@ == materials@.map_values(|m: Material| gpu_material_of(m)),
{
    let mut r: Vec<GpuMaterial> = Vec::new();
    let mut i: usize = 0;
    while i < materials.len()
        invariant
            i <= materials@.len(),
            r@ =~= materials@.subrange(0, i as int).map_values(|m: Material| gpu_material_of(m)),
        decreases materials@.len() - i,
    {
        r.push(GpuMaterial::from(materials[i]));
        i += 1;
        proof {
            assert(materials@.subrange(0, i as int) =~= materials@.subrange(0, i - 1).push(
                materials@[i - 1],
            ));
        }
    }
    proof {
        assert(materials@.subrange(0, materials@.len() as int) =~= materials@);
    }
    r
}

/// Convert a vertex list into its GPU records, in order.
pub fn gpu_vertices(vertices: &Vec<Vertex>) -> (r: Vec<GpuVertex>)
    ensures
        r@ == vertices@.map_values(|v: Vertex| gpu_vertex_of(v)),
{
    let mut r: Vec<GpuVertex> = Vec::new();
    let mut i: usize = 0;
    while i < vertices.len()
        invariant
            i <= vertices@.len(),
            r@ =~= vertices@.subrange(0, i as int).map_values(|v: Vertex| gpu_vertex_of(v)),
        decreases vertices@.len() - i,
    {
        r.push(GpuVertex::from(vertices[i]));
        i += 1;
        proof {
            assert(vertices@.subrange(0, i as int) =~= vertices@.subrange(0, i - 1).push(
                vertices@[i - 1],
            ));
        }
    }
    proof {
        assert(vertices@.subrange(0, vertices@.len() as int) =~= vertices@);
    }
    r
}

/// Convert a triangle list into its GPU records, in order.
pub fn gpu_triangles(triangles: &Vec<Triangle>) -> (r: Vec<GpuTriangle>)
    ensures
        r@ == triangles@.map_values(|t: Triangle| gpu_triangle_of(t)),
{
    let mut r: Vec<GpuTriangle> = Vec::new();
    let mut i: usize = 0;
    while i < triangles.len()
        invariant
            i <= triangles@.len(),
            r@ =~= triangles@.subrange(0, i as int).map_values(|t: Triangle| gpu_triangle_of(t)),
        decreases triangles@.len() - i,
    {
        r.push(GpuTriangle::from(triangles[i]));
        i += 1;
        proof {
            assert(triangles@.subrange(0, i as int) =~= triangles@.subrange(0, i - 1).push(
                triangles@[i - 1],
            ));
        }
    }
    proof {
        assert(triangles@.subrange(0, triangles@.len() as int) =~= triangles@);
    }
    r
}

} // verus!
