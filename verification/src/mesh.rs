//! Mesh normalization: from a parsed OBJ model to a flat vertex list.
//!
//! The parser hands over flat position, normal and triangle-index arrays
//! plus an optional material id per sub-mesh. This module expands each
//! triangle index into a full per-vertex record (position, normal, diffuse
//! and specular color), falling back to fixed colors when the sub-mesh has
//! no material and to a zero normal when the model carries none, and it
//! folds the emitted positions into an axis-aligned bounding box.
//!
//! Scalars are IEEE 754 single-precision values carried as their 32-bit
//! patterns, so the logic here moves and compares them exactly; the host
//! application converts to and from `f32` at the boundary and performs the
//! one arithmetic step (the scale factor) that needs floating-point math.

use vstd::prelude::*;

verus! {

/// Bit pattern of the fallback diffuse color channel, 0.8.
pub const FALLBACK_DIFFUSE_BITS: u32 = 0x3F4C_CCCD;

/// Bit pattern of the fallback specular color channel, 0.15.
pub const FALLBACK_SPECULAR_BITS: u32 = 0x3E19_999A;

/// Bit pattern of the fallback shininess, 15.0.
pub const FALLBACK_SHININESS_BITS: u32 = 0x4170_0000;

/// Bit pattern of positive infinity, the seed of the running minimum.
pub const POS_INFINITY_BITS: u32 = 0x7F80_0000;

/// Bit pattern of negative infinity, the seed of the running maximum.
pub const NEG_INFINITY_BITS: u32 = 0xFF80_0000;

/// A three-component vector of single-precision bit patterns.
#[derive(Clone, Copy, Debug, PartialEq, Eq, Structural)]
pub struct Vec3Bits {
    pub x: u32,
    pub y: u32,
    pub z: u32,
}

/// A four-component vector of single-precision bit patterns.
#[derive(Clone, Copy, Debug, PartialEq, Eq, Structural)]
pub struct Vec4Bits {
    pub x: u32,
    pub y: u32,
    pub z: u32,
    pub w: u32,
}

/// One GPU-consumable vertex: a triangle corner with its position, normal,
/// diffuse color, and specular color with shininess in the last component.
#[derive(Clone, Copy, Debug, PartialEq, Eq, Structural)]
pub struct Vertex {
    pub position: Vec3Bits,
    pub normal: Vec3Bits,
    pub color_diffuse: Vec3Bits,
    pub color_specular: Vec4Bits,
}

/// A material from the model's material library: diffuse color, specular
/// color and shininess.
#[derive(Clone, Copy, Debug, PartialEq, Eq, Structural)]
pub struct Material {
    pub diffuse: Vec3Bits,
    pub specular: Vec3Bits,
    pub shininess: u32,
}

/// One parsed sub-mesh: flat position and normal arrays (three scalars per
/// vertex, the normal array empty when the model has none), a triangle
/// index array, and the optional material id.
#[derive(Clone, Debug)]
pub struct MeshData {
    pub positions: Vec<u32>,
    pub normals: Vec<u32>,
    pub indices: Vec<u32>,
    pub material_id: Option<usize>,
}

/// Why a model could not be normalized.
#[derive(Clone, Copy, Debug, PartialEq, Eq, Structural)]
pub enum MeshError {
    /// The file parsed to no sub-mesh at all.
    NoMesh,
    /// The sub-mesh names a material the material list does not have.
    MaterialOutOfRange,
    /// A triangle index points past the end of the position array.
    PositionIndexOutOfRange,
    /// A triangle index points past the end of the non-empty normal array.
    NormalIndexOutOfRange,
}

/// An axis-aligned bounding box, as the running minimum and maximum of the
/// emitted vertex positions per axis.
#[derive(Clone, Copy, Debug, PartialEq, Eq, Structural)]
pub struct Bounds {
    pub min: Vec3Bits,
    pub max: Vec3Bits,
}

/// The magnitude half of a single-precision bit pattern: the pattern with
/// its sign bit cleared.
pub open spec fn f32_magnitude(bits: u32) -> int {
    if bits >= 0x8000_0000 {
        bits - 0x8000_0000
    } else {
        bits as int
    }
}

/// A single-precision pattern is a NaN exactly when its magnitude is above
/// the magnitude of infinity.
pub open spec fn f32_is_nan(bits: u32) -> bool {
    f32_magnitude(bits) > POS_INFINITY_BITS
}

/// A key that orders non-NaN single-precision patterns as the floats they
/// encode: non-negative patterns keep their value, negative patterns fall
/// below zero as their magnitude grows. The two zeros share the key 0.
pub open spec fn f32_key(bits: u32) -> int {
    if bits >= 0x8000_0000 {
        0x8000_0000 - bits
    } else {
        bits as int
    }
}

/// The smaller of two single-precision patterns, by the float order. As
/// with the standard minimum, a NaN loses to the other argument; on a tie
/// (equal patterns, or the two zeros) the first argument is kept.
pub open spec fn f32_min_spec(a: u32, b: u32) -> u32 {
    if f32_is_nan(b) {
        a
    } else if f32_is_nan(a) {
        b
    } else if f32_key(b) < f32_key(a) {
        b
    } else {
        a
    }
}

/// The larger of two single-precision patterns, by the float order, with
/// the same NaN and tie behavior as `f32_min_spec`.
pub open spec fn f32_max_spec(a: u32, b: u32) -> u32 {
    if f32_is_nan(b) {
        a
    } else if f32_is_nan(a) {
        b
    } else if f32_key(b) > f32_key(a) {
        b
    } else {
        a
    }
}

/// The smaller of two single-precision patterns, by the float order.
pub fn f32_min_bits(a: u32, b: u32) -> (r: u32)
    ensures
        r == f32_min_spec(a, b),
{
    let mag_a: u32 = if a >= 0x8000_0000 { a - 0x8000_0000 } else { a };
    let mag_b: u32 = if b >= 0x8000_0000 { b - 0x8000_0000 } else { b };
    if mag_b > POS_INFINITY_BITS {
        a
    } else if mag_a > POS_INFINITY_BITS {
        b
    } else {
        let neg_a = a >= 0x8000_0000;
        let neg_b = b >= 0x8000_0000;
        let b_below = if neg_a && neg_b {
            b > a
        } else if !neg_a && !neg_b {
            b < a
        } else if neg_b {
            !(b == 0x8000_0000 && a == 0)
        } else {
            false
        };
        if b_below {
            b
        } else {
            a
        }
    }
}

/// The larger of two single-precision patterns, by the float order.
pub fn f32_max_bits(a: u32, b: u32) -> (r: u32)
    ensures
        r == f32_max_spec(a, b),
{
    let mag_a: u32 = if a >= 0x8000_0000 { a - 0x8000_0000 } else { a };
    let mag_b: u32 = if b >= 0x8000_0000 { b - 0x8000_0000 } else { b };
    if mag_b > POS_INFINITY_BITS {
        a
    } else if mag_a > POS_INFINITY_BITS {
        b
    } else {
        let neg_a = a >= 0x8000_0000;
        let neg_b = b >= 0x8000_0000;
        let b_above = if neg_a && neg_b {
            b < a
        } else if !neg_a && !neg_b {
            b > a
        } else if neg_a {
            !(a == 0x8000_0000 && b == 0)
        } else {
            false
        };
        if b_above {
            b
        } else {
            a
        }
    }
}

/// The sub-mesh's material id, if any, names an entry of the material list.
pub open spec fn material_ok(mesh: MeshData, materials: Seq<Material>) -> bool {
    mesh.material_id matches Some(m) ==> m < materials.len()
}

/// Every triangle index leaves room for three scalars in the position
/// array.
pub open spec fn position_indices_ok(mesh: MeshData) -> bool {
    forall|k: int|
        0 <= k < mesh.indices@.len() ==> 3 * (mesh.indices@[k] as int) + 3
            <= mesh.positions@.len()
}

/// When the model carries normals, every triangle index leaves room for
/// three scalars in the normal array.
pub open spec fn normal_indices_ok(mesh: MeshData) -> bool {
    mesh.normals@.len() > 0 ==> forall|k: int|
        0 <= k < mesh.indices@.len() ==> 3 * (mesh.indices@[k] as int) + 3
            <= mesh.normals@.len()
}

/// A sub-mesh can be normalized when its material id and all its triangle
/// indices are in range.
pub open spec fn mesh_ok(mesh: MeshData, materials: Seq<Material>) -> bool {
    &&& material_ok(mesh, materials)
    &&& position_indices_ok(mesh)
    &&& normal_indices_ok(mesh)
}

/// The diffuse color a sub-mesh's vertices get: the material's color, or
/// the fixed fallback when the sub-mesh has no material id.
pub open spec fn diffuse_for(mesh: MeshData, materials: Seq<Material>) -> Vec3Bits {
    match mesh.material_id {
        Some(m) => materials[m as int].diffuse,
        None => Vec3Bits {
            x: FALLBACK_DIFFUSE_BITS,
            y: FALLBACK_DIFFUSE_BITS,
            z: FALLBACK_DIFFUSE_BITS,
        },
    }
}

/// The specular color and shininess a sub-mesh's vertices get: the
/// material's values, or the fixed fallback when the sub-mesh has no
/// material id.
pub open spec fn specular_for(mesh: MeshData, materials: Seq<Material>) -> Vec4Bits {
    match mesh.material_id {
        Some(m) => Vec4Bits {
            x: materials[m as int].specular.x,
            y: materials[m as int].specular.y,
            z: materials[m as int].specular.z,
            w: materials[m as int].shininess,
        },
        None => Vec4Bits {
            x: FALLBACK_SPECULAR_BITS,
            y: FALLBACK_SPECULAR_BITS,
            z: FALLBACK_SPECULAR_BITS,
            w: FALLBACK_SHININESS_BITS,
        },
    }
}

/// The vertex emitted for the sub-mesh's `k`-th triangle index: the three
/// position scalars at that index, the three normal scalars at it when the
/// model has normals and the zero-vector sentinel when it has none, and the
/// sub-mesh's colors.
pub open spec fn vertex_for(mesh: MeshData, materials: Seq<Material>, k: int) -> Vertex {
    let i = mesh.indices@[k] as int;
    Vertex {
        position: Vec3Bits {
            x: mesh.positions@[3 * i],
            y: mesh.positions@[3 * i + 1],
            z: mesh.positions@[3 * i + 2],
        },
        normal: if mesh.normals@.len() > 0 {
            Vec3Bits {
                x: mesh.normals@[3 * i],
                y: mesh.normals@[3 * i + 1],
                z: mesh.normals@[3 * i + 2],
            }
        } else {
            Vec3Bits { x: 0, y: 0, z: 0 }
        },
        color_diffuse: diffuse_for(mesh, materials),
        color_specular: specular_for(mesh, materials),
    }
}

/// Expand one sub-mesh into its vertex list: one full vertex per triangle
/// index, in index order, so a triangulated mesh of N triangles yields
/// exactly 3N vertices. Fails, without emitting anything, when the
/// material id or a triangle index is out of range.
pub fn build_vertices(mesh: &MeshData, materials: &Vec<Material>) -> (r: Result<
    Vec<Vertex>,
    MeshError,
>)
    ensures
        !material_ok(*mesh, materials@) ==> r == Result::<Vec<Vertex>, MeshError>::Err(
            MeshError::MaterialOutOfRange,
        ),
        material_ok(*mesh, materials@) && !position_indices_ok(*mesh) ==> r == Result::<
            Vec<Vertex>,
            MeshError,
        >::Err(MeshError::PositionIndexOutOfRange),
        material_ok(*mesh, materials@) && position_indices_ok(*mesh) && !normal_indices_ok(*mesh)
            ==> r == Result::<Vec<Vertex>, MeshError>::Err(MeshError::NormalIndexOutOfRange),
        mesh_ok(*mesh, materials@) <==> r is Ok,
        r matches Ok(v) ==> v@.len() == mesh.indices@.len() && (forall|k: int|
            0 <= k < mesh.indices@.len() ==> v@[k] == vertex_for(*mesh, materials@, k)),
{
    match mesh.material_id {
        Some(m) => {
            if m >= materials.len() {
                return Err(MeshError::MaterialOutOfRange);
            }
        },
        None => {},
    }

    let mut k: usize = 0;
    while k < mesh.indices.len()
        invariant
            k <= mesh.indices@.len(),
            material_ok(*mesh, materials@),
            forall|j: int|
                0 <= j < k ==> 3 * (mesh.indices@[j] as int) + 3 <= mesh.positions@.len(),
        decreases mesh.indices@.len() - k,
    {
        let idx = mesh.indices[k];
        if 3 * (idx as u64) + 3 > mesh.positions.len() as u64 {
            return Err(MeshError::PositionIndexOutOfRange);
        }
        k += 1;
    }

    if mesh.normals.len() > 0 {
        let mut k: usize = 0;
        while k < mesh.indices.len()
            invariant
                k <= mesh.indices@.len(),
                material_ok(*mesh, materials@),
                position_indices_ok(*mesh),
                mesh.normals@.len() > 0,
                forall|j: int|
                    0 <= j < k ==> 3 * (mesh.indices@[j] as int) + 3 <= mesh.normals@.len(),
            decreases mesh.indices@.len() - k,
        {
            let idx = mesh.indices[k];
            if 3 * (idx as u64) + 3 > mesh.normals.len() as u64 {
                return Err(MeshError::NormalIndexOutOfRange);
            }
            k += 1;
        }
    }

    let mut vertices: Vec<Vertex> = Vec::new();
    let mut k: usize = 0;
    while k < mesh.indices.len()
        invariant
            k <= mesh.indices@.len(),
            vertices@.len() == k,
            material_ok(*mesh, materials@),
            position_indices_ok(*mesh),
            normal_indices_ok(*mesh),
            forall|j: int| 0 <= j < k ==> vertices@[j] == vertex_for(*mesh, materials@, j),
        decreases mesh.indices@.len() - k,
    {
        let idx = mesh.indices[k];
        let plen: usize = mesh.positions.len();
        proof {
            assert(3 * (mesh.indices@[k as int] as int) + 3 <= mesh.positions@.len());
        }
        let base64: u64 = 3 * (idx as u64);
        proof {
            assert(base64 + 3 <= plen as u64);
        }
        let base: usize = base64 as usize;
        let position = Vec3Bits {
            x: mesh.positions[base],
            y: mesh.positions[base + 1],
            z: mesh.positions[base + 2],
        };
        let normal = if mesh.normals.len() > 0 {
            proof {
                assert(3 * (mesh.indices@[k as int] as int) + 3 <= mesh.normals@.len());
            }
            Vec3Bits {
                x: mesh.normals[base],
                y: mesh.normals[base + 1],
                z: mesh.normals[base + 2],
            }
        } else {
            Vec3Bits { x: 0, y: 0, z: 0 }
        };
        let (color_diffuse, color_specular) = match mesh.material_id {
            Some(m) => {
                let mat = &materials[m];
                (
                    mat.diffuse,
                    Vec4Bits {
                        x: mat.specular.x,
                        y: mat.specular.y,
                        z: mat.specular.z,
                        w: mat.shininess,
                    },
                )
            },
            None => (
                Vec3Bits {
                    x: FALLBACK_DIFFUSE_BITS,
                    y: FALLBACK_DIFFUSE_BITS,
                    z: FALLBACK_DIFFUSE_BITS,
                },
                Vec4Bits {
                    x: FALLBACK_SPECULAR_BITS,
                    y: FALLBACK_SPECULAR_BITS,
                    z: FALLBACK_SPECULAR_BITS,
                    w: FALLBACK_SHININESS_BITS,
                },
            ),
        };
        vertices.push(Vertex { position, normal, color_diffuse, color_specular });
        k += 1;
    }
    Ok(vertices)
}

/// Normalize a parsed model: expand the first sub-mesh of the file into a
/// vertex list and ignore the rest, the viewer's documented single-object
/// limitation. Fails when the file holds no sub-mesh at all or when the
/// first sub-mesh cannot be expanded.
pub fn build_vertex_list(models: &Vec<MeshData>, materials: &Vec<Material>) -> (r: Result<
    Vec<Vertex>,
    MeshError,
>)
    ensures
        models@.len() == 0 ==> r == Result::<Vec<Vertex>, MeshError>::Err(MeshError::NoMesh),
        models@.len() > 0 ==> {
            &&& !material_ok(models@[0], materials@) ==> r == Result::<Vec<Vertex>, MeshError>::Err(
                MeshError::MaterialOutOfRange,
            )
            &&& material_ok(models@[0], materials@) && !position_indices_ok(models@[0]) ==> r
                == Result::<Vec<Vertex>, MeshError>::Err(MeshError::PositionIndexOutOfRange)
            &&& material_ok(models@[0], materials@) && position_indices_ok(models@[0])
                && !normal_indices_ok(models@[0]) ==> r == Result::<Vec<Vertex>, MeshError>::Err(
                MeshError::NormalIndexOutOfRange,
            )
            &&& mesh_ok(models@[0], materials@) <==> r is Ok
            &&& r matches Ok(v) ==> v@.len() == models@[0].indices@.len() && (forall|k: int|
                0 <= k < models@[0].indices@.len() ==> v@[k] == vertex_for(
                    models@[0],
                    materials@,
                    k,
                ))
        },
{
    if models.len() == 0 {
        return Err(MeshError::NoMesh);
    }
    build_vertices(&models[0], materials)
}

/// One axis of a position vector.
pub open spec fn axis_of(v: Vec3Bits, axis: int) -> u32 {
    if axis == 0 {
        v.x
    } else if axis == 1 {
        v.y
    } else {
        v.z
    }
}

/// The running float minimum of one position axis over a vertex list,
/// folded left from a seed.
pub open spec fn fold_min(s: Seq<Vertex>, axis: int, seed: u32) -> u32
    decreases s.len(),
{
    if s.len() == 0 {
        seed
    } else {
        f32_min_spec(fold_min(s.drop_last(), axis, seed), axis_of(s.last().position, axis))
    }
}

/// The running float maximum of one position axis over a vertex list,
/// folded left from a seed.
pub open spec fn fold_max(s: Seq<Vertex>, axis: int, seed: u32) -> u32
    decreases s.len(),
{
    if s.len() == 0 {
        seed
    } else {
        f32_max_spec(fold_max(s.drop_last(), axis, seed), axis_of(s.last().position, axis))
    }
}

/// Fold the vertex positions into the model's axis-aligned bounding box:
/// per axis, the running float minimum seeded with positive infinity and
/// the running float maximum seeded with negative infinity. An empty
/// vertex list keeps the seeds.
pub fn bounding_box(vertices: &Vec<Vertex>) -> (b: Bounds)
    ensures
        b.min.x == fold_min(vertices@, 0, POS_INFINITY_BITS),
        b.min.y == fold_min(vertices@, 1, POS_INFINITY_BITS),
        b.min.z == fold_min(vertices@, 2, POS_INFINITY_BITS),
        b.max.x == fold_max(vertices@, 0, NEG_INFINITY_BITS),
        b.max.y == fold_max(vertices@, 1, NEG_INFINITY_BITS),
        b.max.z == fold_max(vertices@, 2, NEG_INFINITY_BITS),
{
    let mut min = Vec3Bits { x: POS_INFINITY_BITS, y: POS_INFINITY_BITS, z: POS_INFINITY_BITS };
    let mut max = Vec3Bits { x: NEG_INFINITY_BITS, y: NEG_INFINITY_BITS, z: NEG_INFINITY_BITS };
    let mut k: usize = 0;
    while k < vertices.len()
        invariant
            k <= vertices@.len(),
            min.x == fold_min(vertices@.take(k as int), 0, POS_INFINITY_BITS),
            min.y == fold_min(vertices@.take(k as int), 1, POS_INFINITY_BITS),
            min.z == fold_min(vertices@.take(k as int), 2, POS_INFINITY_BITS),
            max.x == fold_max(vertices@.take(k as int), 0, NEG_INFINITY_BITS),
            max.y == fold_max(vertices@.take(k as int), 1, NEG_INFINITY_BITS),
            max.z == fold_max(vertices@.take(k as int), 2, NEG_INFINITY_BITS),
        decreases vertices@.len() - k,
    {
        let v = &vertices[k];
        min.x = f32_min_bits(min.x, v.position.x);
        min.y = f32_min_bits(min.y, v.position.y);
        min.z = f32_min_bits(min.z, v.position.z);
        max.x = f32_max_bits(max.x, v.position.x);
        max.y = f32_max_bits(max.y, v.position.y);
        max.z = f32_max_bits(max.z, v.position.z);
        proof {
            assert(vertices@.take(k + 1).drop_last() =~= vertices@.take(k as int));
            assert(vertices@.take(k + 1).last() == vertices@[k as int]);
        }
        k += 1;
    }
    proof {
        assert(vertices@.take(vertices@.len() as int) =~= vertices@);
    }
    Bounds { min, max }
}

} // verus!
