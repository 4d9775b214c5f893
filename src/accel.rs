use vstd::prelude::*;

use crate::scene::{Mesh, Scene, SceneView, mesh_in_range};
use crate::uniforms::InstanceInfo;

verus! {

/// Visibility mask given to every instance of the top-level structure.
pub const INSTANCE_MASK: u8 = 0xff;

/// The first index of each of a mesh's triangles: the per-triangle geometry
/// descriptors its bottom-level structure is built from.
pub open spec fn triangle_starts(m: Mesh) -> Seq<u32> {
    Seq::new((m.index_count / 3) as nat, |k: int| (m.index_offset + 3 * k) as u32)
}

/// One descriptor per whole triangle of the mesh, in index order.
pub fn triangle_geometries(m: &Mesh) -> (r: Vec<u32>)
    requires
        m.index_offset + m.index_count <= u32::MAX,
    ensures
        r@ == triangle_starts(*m),
        r@.len() == m.index_count / 3,
{
    let n = m.index_count / 3;
    let mut r: Vec<u32> = Vec::new();
    let mut k: u32 = 0;
    while k < n
        invariant
            n == m.index_count / 3,
            k <= n,
            m.index_offset + m.index_count <= u32::MAX,
            r@ == triangle_starts(*m).subrange(0, k as int),
        decreases n - k,
    {
        r.push(m.index_offset + 3 * k);
        assert(r@ =~= triangle_starts(*m).subrange(0, k as int + 1));
        k = k + 1;
    }
    assert(triangle_starts(*m).subrange(0, n as int) =~= triangle_starts(*m));
    r
}

/// The geometry descriptors of every mesh's bottom-level structure, one
/// list per mesh, in mesh order.
pub fn blas_geometries(scene: &Scene) -> (r: Vec<Vec<u32>>)
    requires
        scene@.wf(),
    ensures
        r@.len() == scene@.meshes.len(),
        forall|i: int| 0 <= i < r@.len() ==> (#[trigger] r@[i])@ == triangle_starts(scene@.meshes[i]),
{
    let mut r: Vec<Vec<u32>> = Vec::new();
    let mut i: usize = 0;
    while i < scene.meshes.len()
        invariant
            scene@.wf(),
            i <= scene@.meshes.len(),
            r@.len() == i,
            forall|j: int| 0 <= j < i ==> (#[trigger] r@[j])@ == triangle_starts(scene@.meshes[j]),
        decreases scene@.meshes.len() - i,
    {
        assert(mesh_in_range(scene@.meshes[i as int], scene@));
        let g = triangle_geometries(&scene.meshes[i]);
        r.push(g);
        i = i + 1;
    }
    r
}

/// One entry of the top-level structure's instance table. Its transform is
/// the identity.
#[derive(Debug, Clone, Copy, PartialEq, Eq, Structural)]
pub struct InstanceEntry {
    /// The bottom-level structure: that of the mesh with this number.
    pub blas_index: u32,
    /// The instance's custom index: the mesh's material.
    pub custom_index: u32,
    pub mask: u8,
}

pub open spec fn instance_of(meshes: Seq<Mesh>, i: int) -> InstanceEntry {
    InstanceEntry { blas_index: i as u32, custom_index: meshes[i].material_index, mask: INSTANCE_MASK }
}

/// The instance table written before every trace dispatch: one entry per
/// mesh, in mesh order.
pub fn instance_table(meshes: &Vec<Mesh>) -> (r: Vec<InstanceEntry>)
    requires
        meshes@.len() <= u32::MAX,
    ensures
        r@ == Seq::new(meshes@.len(), |i: int| instance_of(meshes@, i)),
{
    let mut r: Vec<InstanceEntry> = Vec::new();
    let mut i: usize = 0;
    while i < meshes.len()
        invariant
            meshes@.len() <= u32::MAX,
            i <= meshes@.len(),
            r@ == Seq::new(i as nat, |j: int| instance_of(meshes@, j)),
        decreases meshes@.len() - i,
    {
        r.push(InstanceEntry { blas_index: i as u32, custom_index: meshes[i].material_index, mask: INSTANCE_MASK });
        assert(r@ =~= Seq::new(i as nat + 1, |j: int| instance_of(meshes@, j)));
        i = i + 1;
    }
    r
}

/// The per-instance data the trace kernel reads: each mesh's first index.
pub fn instance_infos(meshes: &Vec<Mesh>) -> (r: Vec<InstanceInfo>)
    ensures
        r@ == Seq::new(meshes@.len(), |i: int| InstanceInfo { index_offset: meshes@[i].index_offset }),
{
    let mut r: Vec<InstanceInfo> = Vec::new();
    let mut i: usize = 0;
    while i < meshes.len()
        invariant
            i <= meshes@.len(),
            r@ == Seq::new(i as nat, |j: int| InstanceInfo { index_offset: meshes@[j].index_offset }),
        decreases meshes@.len() - i,
    {
        r.push(InstanceInfo::new(meshes[i].index_offset));
        assert(r@ =~= Seq::new(i as nat + 1, |j: int| InstanceInfo { index_offset: meshes@[j].index_offset }));
        i = i + 1;
    }
    r
}

/// Every mesh of a well-formed scene gets exactly `index_count / 3`
/// geometry descriptors, which together cover its indices.
pub proof fn lemma_descriptor_count(v: SceneView, i: int)
    requires
        v.wf(),
        0 <= i < v.meshes.len(),
    ensures
        triangle_starts(v.meshes[i]).len() == v.meshes[i].index_count / 3,
        triangle_starts(v.meshes[i]).len() * 3 == v.meshes[i].index_count,
{
    assert(mesh_in_range(v.meshes[i], v));
}

} // verus!
