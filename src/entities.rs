//! 3d entities that are placed, by name and with a pose, into a 3d widget.
//!
//! Geometry and poses are carried as the IEEE-754 single-precision bit patterns of
//! their coordinates: the protocol moves them between the two sides unchanged and
//! never computes with them.

use vstd::prelude::*;

verus! {

/// Bit pattern of the single-precision number `1.0`.
pub const F32_ONE_BITS: u32 = 0x3f80_0000;

/// A rigid transform: a unit quaternion `(i, j, k, w)` and a translation `(x, y, z)`,
/// each coordinate given by its single-precision bit pattern.
#[derive(Clone, Copy, Debug, PartialEq)]
pub struct Pose {
    /// Rotation as unit quaternion, in the order `i, j, k, w`.
    pub rotation: [u32; 4],
    /// Translation, in the order `x, y, z`.
    pub translation: [u32; 3],
}

impl Pose {
    /// No rotation and no translation.
    pub open spec fn spec_identity() -> Pose {
        Pose { rotation: [0u32, 0u32, 0u32, F32_ONE_BITS], translation: [0u32, 0u32, 0u32] }
    }

    /// The identity pose.
    pub fn identity() -> (r: Pose)
        ensures
            r == Pose::spec_identity(),
    {
        Pose { rotation: [0u32, 0u32, 0u32, F32_ONE_BITS], translation: [0u32, 0u32, 0u32] }
    }
}

/// Colored vertices: position (3 coordinates) then color (4 channels).
#[derive(Clone, Debug, PartialEq)]
pub struct PositionColorVertices {
    /// One entry per vertex.
    pub vertices: Vec<[u32; 7]>,
}

/// Position (3 coordinates) and texture coordinate (2 coordinates) vertices.
#[derive(Clone, Debug, PartialEq)]
pub struct PositionUvVertices {
    /// One entry per vertex.
    pub vertices: Vec<[u32; 5]>,
}

/// A texture.
#[derive(Clone, Debug, PartialEq)]
pub struct Texture {}

/// Position/texture coordinate vertices and texture.
#[derive(Clone, Debug, PartialEq)]
pub struct PositionUvVerticesAndTexture {
    /// The vertices.
    pub vertices: PositionUvVertices,
    /// The texture.
    pub texture: Texture,
}

/// The vertex options of a mesh.
#[derive(Clone, Debug, PartialEq)]
pub enum MeshVertices {
    /// Colored vertices.
    PositionColor(PositionColorVertices),
    /// Position/texture coordinate vertices and texture.
    PositionUvAndTexture(PositionUvVerticesAndTexture),
}

/// Triangle faces; a face is three vertex indices.
#[derive(Clone, Debug, PartialEq)]
pub struct Faces {
    /// The faces.
    pub indices: Vec<[i16; 3]>,
}

/// The largest number of triangles whose consecutive vertex indices fit in `i16`.
pub const MAX_CONSECUTIVE_TRIANGLES: usize = 10922;

/// Face `i` of a triangle soup: vertices `3i`, `3i + 1` and `3i + 2`.
pub open spec fn consecutive_face(i: int) -> [i16; 3] {
    [(3 * i) as i16, (3 * i + 1) as i16, (3 * i + 2) as i16]
}

impl Faces {
    /// Faces from a list of vertex-index triples.
    pub fn new(indices: Vec<[i16; 3]>) -> (r: Faces)
        ensures
            r.indices == indices,
    {
        Faces { indices }
    }

    /// The faces of `num_triangles` triangles whose vertices are listed one after the
    /// other; `None` where an index would not fit in `i16`.
    pub fn consecutive(num_triangles: usize) -> (r: Option<Faces>)
        ensures
            r is Some <==> num_triangles <= MAX_CONSECUTIVE_TRIANGLES,
            r is Some ==> r->0.indices@.len() == num_triangles,
            r is Some ==> forall|i: int|
                0 <= i < num_triangles ==> #[trigger] r->0.indices@[i] == consecutive_face(i),
    {
        if num_triangles > MAX_CONSECUTIVE_TRIANGLES {
            return None;
        }
        let mut indices: Vec<[i16; 3]> = Vec::new();
        let mut i: i16 = 0;
        while (i as usize) < num_triangles
            invariant
                num_triangles <= MAX_CONSECUTIVE_TRIANGLES,
                0 <= i <= num_triangles,
                indices@.len() == i,
                forall|j: int| 0 <= j < i ==> #[trigger] indices@[j] == consecutive_face(j),
            decreases num_triangles - i,
        {
            indices.push([i * 3, i * 3 + 1, i * 3 + 2]);
            i = i + 1;
        }
        Some(Faces { indices })
    }
}

/// A 3d mesh.
#[derive(Clone, Debug, PartialEq)]
pub struct Mesh3 {
    /// The vertices.
    pub vertices: MeshVertices,
    /// The faces.
    pub faces: Faces,
}

impl Mesh3 {
    /// A mesh of colored vertices.
    pub fn from_position_color_vertices_and_faces(vertices: PositionColorVertices, faces: Faces) -> (r: Mesh3)
        ensures
            r == (Mesh3 { vertices: MeshVertices::PositionColor(vertices), faces }),
    {
        Mesh3 { vertices: MeshVertices::PositionColor(vertices), faces }
    }

    /// A mesh of textured vertices.
    pub fn from_position_uv_vertices_texture_and_faces(
        vertices: PositionUvVertices,
        texture: Texture,
        faces: Faces,
    ) -> (r: Mesh3)
        ensures
            r == (Mesh3 {
                vertices: MeshVertices::PositionUvAndTexture(
                    PositionUvVerticesAndTexture { vertices, texture },
                ),
                faces,
            }),
    {
        Mesh3 {
            vertices: MeshVertices::PositionUvAndTexture(
                PositionUvVerticesAndTexture { vertices, texture },
            ),
            faces,
        }
    }
}

/// 3d line segments.
#[derive(Clone, Debug, PartialEq)]
pub struct LineSegments3 {
    /// The vertices.
    pub vertices: PositionColorVertices,
    /// Two vertex indices make up a line segment.
    pub indices: Vec<[i16; 2]>,
}

/// A 3d entity to be placed into a 3d widget.
#[derive(Clone, Debug, PartialEq)]
pub enum Entity3 {
    /// A mesh.
    Mesh(Mesh3),
    /// Line segments.
    LineSegments(LineSegments3),
}

/// An entity with its name and its pose in the scene.
#[derive(Clone, Debug, PartialEq)]
pub struct NamedEntity3 {
    /// The name.
    pub label: String,
    /// The geometry.
    pub entity: Entity3,
    /// Pose of the entity in the scene.
    pub scene_pose_entity: Pose,
}

} // verus!
