//! What one frame submits: the uniform rewrite, then one indexed draw per
//! registered instance, in registration order.
//!
//! The renderer decides a frame as data — a [`FramePlan`] — and the host
//! shell replays it against the graphics queue inside a single render pass:
//! bind the pipeline and the two bind groups, then for each draw refresh the
//! instance buffer if the plan carries a transform, bind the mesh's vertex
//! buffer (slot 0), the instance buffer (slot 1) and the index buffer, and
//! issue one indexed draw over the full index range.

use vstd::prelude::*;

use crate::mesh::{Mesh, MeshInstance};
use crate::transform::Mat4Bits;

verus! {

/// One indexed draw of a frame.
#[derive(Clone, Copy, Debug)]
pub struct DrawCall {
    /// Arena handle of the mesh whose vertex and index buffers are bound.
    pub mesh: usize,
    /// The instance whose buffer feeds the per-instance stream.
    pub instance: usize,
    /// The full index range of the mesh; the draw covers `0..index_count`.
    pub index_count: u32,
    /// Always one: each instance is drawn by its own call.
    pub instance_count: u32,
    /// The refresh the instance buffer needs before the draw, if its GPU
    /// copy is stale.
    pub transform_upload: Option<Mat4Bits>,
}

/// Everything one frame submits, in order.
#[derive(Debug)]
pub struct FramePlan {
    /// The view-projection matrix to rewrite the uniform buffer with, or
    /// nothing, in which case the previously uploaded matrix stays.
    pub uniform_write: Option<Mat4Bits>,
    /// The draws of the frame, one per registered instance, in registration
    /// order.
    pub draws: Vec<DrawCall>,
}

/// The draw that instance `i` contributes to a frame.
pub open spec fn spec_draw(meshes: Seq<Mesh>, inst: MeshInstance, i: int) -> DrawCall
    recommends
        0 <= inst.mesh < meshes.len(),
{
    DrawCall {
        mesh: inst.mesh,
        instance: i as usize,
        index_count: meshes[inst.mesh as int].index_count,
        instance_count: 1,
        transform_upload: if inst.dirty {
            Some(inst.transform)
        } else {
            None
        },
    }
}

/// The draw list of a frame: one call per instance, in registration order.
pub open spec fn spec_frame_draws(meshes: Seq<Mesh>, instances: Seq<MeshInstance>) -> Seq<
    DrawCall,
> {
    Seq::new(instances.len(), |i: int| spec_draw(meshes, instances[i], i))
}

/// Updating one instance's transform touches no other draw of the frame, and
/// leaves even its own draw's mesh binding and index range as they were:
/// instances that share a mesh keep sharing its buffers, and only the
/// updated instance's buffer is refreshed.
pub proof fn lemma_transform_update_isolated(
    meshes: Seq<Mesh>,
    instances: Seq<MeshInstance>,
    i: int,
    updated: MeshInstance,
)
    requires
        0 <= i < instances.len(),
        updated.mesh == instances[i].mesh,
    ensures
        spec_frame_draws(meshes, instances.update(i, updated)).len() == spec_frame_draws(
            meshes,
            instances,
        ).len(),
        forall|j: int|
            0 <= j < instances.len() && j != i ==> spec_frame_draws(
                meshes,
                instances.update(i, updated),
            )[j] == spec_frame_draws(meshes, instances)[j],
        spec_frame_draws(meshes, instances.update(i, updated))[i].mesh == spec_frame_draws(
            meshes,
            instances,
        )[i].mesh,
        spec_frame_draws(meshes, instances.update(i, updated))[i].index_count == spec_frame_draws(
            meshes,
            instances,
        )[i].index_count,
{
}

/// A frame over instances whose GPU copies are all fresh — as every frame
/// leaves them — refreshes no instance buffer at all: repeated frames
/// without transform changes upload nothing.
pub proof fn lemma_clean_frame_uploads_nothing(meshes: Seq<Mesh>, instances: Seq<MeshInstance>)
    requires
        forall|i: int| 0 <= i < instances.len() ==> !(#[trigger] instances[i]).dirty,
    ensures
        forall|i: int|
            0 <= i < instances.len() ==> (#[trigger] spec_frame_draws(meshes, instances)[i]).transform_upload is None,
{
}

/// Two instances that hold the same mesh handle draw with the same vertex
/// and index buffers and the same index range.
pub proof fn lemma_shared_mesh_same_buffers(
    meshes: Seq<Mesh>,
    instances: Seq<MeshInstance>,
    i: int,
    j: int,
)
    requires
        0 <= i < instances.len(),
        0 <= j < instances.len(),
        instances[i].mesh == instances[j].mesh,
    ensures
        spec_frame_draws(meshes, instances)[i].mesh == spec_frame_draws(meshes, instances)[j].mesh,
        spec_frame_draws(meshes, instances)[i].index_count == spec_frame_draws(
            meshes,
            instances,
        )[j].index_count,
{
}

} // verus!
