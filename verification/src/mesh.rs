//! Triangle meshes of robot links, tools and environment objects, each
//! with the pose at which it is placed.
use vstd::prelude::*;
use std::sync::Arc;
use parry3d::math::Pose as ParryPose;
use parry3d::shape::TriMesh;
use crate::error::ValueError;
use crate::text::{decimal, push_decimal};

verus! {

#[verifier::external_type_specification]
#[verifier::external_body]
pub struct ExTriMesh(TriMesh);

#[verifier::external_type_specification]
#[verifier::external_body]
pub struct ExParryPose(ParryPose);

/// The vertices of a triangle mesh, each as the binary32 bit patterns of
/// its x, y and z coordinates.
pub uninterp spec fn trimesh_vertices(mesh: TriMesh) -> Seq<(u32, u32, u32)>;

/// The triangles of a triangle mesh, each as three vertex indices.
pub uninterp spec fn trimesh_triangles(mesh: TriMesh) -> Seq<(u32, u32, u32)>;

/// `TriMesh::vertices` of parry3d, counted: the number of vertices that the
/// mesh holds.
#[verifier::external_body]
fn vertex_count_of(mesh: &TriMesh) -> (n: usize)
    ensures
        n == trimesh_vertices(*mesh).len(),
{
    mesh.vertices().len()
}

/// `TriMesh::indices` of parry3d, counted: the number of triangles that the
/// mesh holds.
#[verifier::external_body]
fn triangle_count_of(mesh: &TriMesh) -> (n: usize)
    ensures
        n == trimesh_triangles(*mesh).len(),
{
    mesh.indices().len()
}

/// `Clone::clone` of parry3d's `TriMesh`: a copy with the same vertices and
/// triangles (the derived clone copies every field).
#[verifier::external_body]
fn clone_of(mesh: &TriMesh) -> (c: TriMesh)
    ensures
        trimesh_vertices(c) == trimesh_vertices(*mesh),
        trimesh_triangles(c) == trimesh_triangles(*mesh),
{
    mesh.clone()
}

/// A shared triangle mesh and the pose at which it is placed.
pub struct Mesh {
    mesh: Arc<TriMesh>,
    pose: ParryPose,
}

impl Mesh {
    /// The mesh that this value places.
    pub closed spec fn shape(&self) -> TriMesh {
        *self.mesh
    }

    /// The pose at which the mesh is placed.
    pub closed spec fn placement(&self) -> ParryPose {
        self.pose
    }

    /// A mesh placed at `pose`.
    pub fn from_parts(mesh: Arc<TriMesh>, pose: ParryPose) -> (m: Mesh)
        ensures
            m.shape() == *mesh,
            m.placement() == pose,
    {
        Mesh { mesh, pose }
    }

    /// The shared mesh.
    pub fn shared_mesh(&self) -> (m: &Arc<TriMesh>)
        ensures
            **m == self.shape(),
    {
        &self.mesh
    }

    /// The pose at which the mesh is placed.
    pub fn pose(&self) -> (p: &ParryPose)
        ensures
            *p == self.placement(),
    {
        &self.pose
    }

    /// The number of vertices.
    pub fn vertex_count(&self) -> (n: usize)
        ensures
            n == trimesh_vertices(self.shape()).len(),
    {
        vertex_count_of(&self.mesh)
    }

    /// The number of triangles.
    pub fn triangle_count(&self) -> (n: usize)
        ensures
            n == trimesh_triangles(self.shape()).len(),
    {
        triangle_count_of(&self.mesh)
    }

    /// A copy of the mesh, in its own coordinates (the pose is not applied).
    pub fn clone_trimesh(&self) -> (c: TriMesh)
        ensures
            trimesh_vertices(c) == trimesh_vertices(self.shape()),
            trimesh_triangles(c) == trimesh_triangles(self.shape()),
    {
        clone_of(&self.mesh)
    }

    /// `Mesh(vertex_count=V, triangle_count=T)`.
    #[allow(non_snake_case)]
    pub fn __repr__(&self) -> (s: String)
        ensures
            s@ == "Mesh(vertex_count="@ + decimal(trimesh_vertices(self.shape()).len()) + ", triangle_count="@
                + decimal(trimesh_triangles(self.shape()).len()) + ")"@,
    {
        let mut s = String::new();
        s.append("Mesh(vertex_count=");
        push_decimal(&mut s, self.vertex_count());
        s.append(", triangle_count=");
        push_decimal(&mut s, self.triangle_count());
        s.append(")");
        s
    }
}


/// The six link meshes of a robot, J1 to J6, as an array; refused unless
/// exactly six are given.
pub fn joint_mesh_array<T>(meshes: Vec<T>) -> (r: Result<[T; 6], ValueError>)
    ensures
        r is Ok <==> meshes@.len() == 6,
        r matches Ok(a) ==> a@ == meshes@,
        r matches Err(e) ==> e@ == "joint_meshes must contain exactly 6 meshes"@,
{
    if meshes.len() != 6 {
        return Err(ValueError::new("joint_meshes must contain exactly 6 meshes"));
    }
    let ghost given = meshes@;
    let mut rest = meshes;
    let j6 = rest.pop().unwrap();
    let j5 = rest.pop().unwrap();
    let j4 = rest.pop().unwrap();
    let j3 = rest.pop().unwrap();
    let j2 = rest.pop().unwrap();
    let j1 = rest.pop().unwrap();
    let a = [j1, j2, j3, j4, j5, j6];
    assert(a@ =~= given);
    Ok(a)
}

} // verus!
