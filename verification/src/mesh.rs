//! Meshes and the instances that draw them.
//!
//! A mesh owns its vertex and index data, uploaded once and immutable after
//! construction; the cached index count is what every indexed draw of the
//! mesh covers. Instances never hold a mesh themselves: they keep a handle
//! into the renderer's mesh arena, so any number of instances share one
//! mesh's buffers and destruction order is irrelevant.
//!
//! Each instance also models the small GPU buffer holding its transform: the
//! CPU-side copy is authoritative, and a stale GPU copy (after a transform
//! change) is flagged so the next frame refreshes it before drawing.

use vstd::prelude::*;

use crate::bytes::{lemma_words_le_bytes_len, lemma_words_le_bytes_push, push_u32_le,
    words_le_bytes};
use crate::transform::Mat4Bits;
use crate::vertex::Vertex;

verus! {

/// An immutable mesh: its vertex records, its 32-bit indices, and the cached
/// count of indices a draw of it covers.
#[derive(Debug)]
pub struct Mesh {
    pub vertices: Vec<Vertex>,
    pub indices: Vec<u32>,
    pub index_count: u32,
}

impl Mesh {
    /// The cached count is exactly the number of indices.
    pub open spec fn wf(&self) -> bool {
        self.index_count == self.indices@.len()
    }

    /// The byte image of the vertex buffer: the concatenation of every
    /// vertex's 32-byte record.
    pub open spec fn spec_vertex_bytes(&self) -> Seq<u8> {
        spec_vertex_seq_bytes(self.vertices@)
    }

    /// The byte image of the index buffer: each index as four little-endian
    /// bytes.
    pub open spec fn spec_index_bytes(&self) -> Seq<u8> {
        words_le_bytes(self.indices@)
    }

    /// Builds a mesh from its source arrays. An empty mesh is legal and
    /// draws nothing; index values are not checked against the vertex count,
    /// since a bad index is a GPU-side error rather than one this layer
    /// reports.
    pub fn new(vertices: Vec<Vertex>, indices: Vec<u32>) -> (m: Mesh)
        requires
            indices@.len() <= u32::MAX,
        ensures
            m.wf(),
            m.vertices@ == vertices@,
            m.indices@ == indices@,
            m.index_count == indices@.len(),
    {
        let index_count = indices.len() as u32;
        Mesh { vertices, indices, index_count }
    }

    /// The index count a draw of this mesh covers.
    pub fn index_count(&self) -> (n: u32)
        ensures
            n == self.index_count,
    {
        self.index_count
    }

    /// The bytes the one-time vertex buffer upload carries.
    pub fn vertex_bytes(&self) -> (b: Vec<u8>)
        ensures
            b@ == self.spec_vertex_bytes(),
            b@.len() == 32 * self.vertices@.len(),
    {
        let mut b: Vec<u8> = Vec::new();
        let mut i: usize = 0;
        while i < self.vertices.len()
            invariant
                i <= self.vertices@.len(),
                b@ == spec_vertex_seq_bytes(self.vertices@.take(i as int)),
                b@.len() == 32 * i,
            decreases self.vertices@.len() - i,
        {
            let ghost prefix = self.vertices@.take(i as int);
            self.vertices[i].append_bytes(&mut b);
            proof {
                assert(self.vertices@.take(i + 1) =~= prefix.push(self.vertices@[i as int]));
                lemma_vertex_seq_bytes_push(prefix, self.vertices@[i as int]);
                lemma_vertex_bytes_len(self.vertices@[i as int]);
            }
            i = i + 1;
        }
        proof {
            assert(self.vertices@.take(self.vertices@.len() as int) =~= self.vertices@);
        }
        b
    }

    /// The bytes the one-time index buffer upload carries.
    pub fn index_bytes(&self) -> (b: Vec<u8>)
        ensures
            b@ == self.spec_index_bytes(),
            b@.len() == 4 * self.indices@.len(),
    {
        let mut b: Vec<u8> = Vec::new();
        let mut i: usize = 0;
        while i < self.indices.len()
            invariant
                i <= self.indices@.len(),
                b@ == words_le_bytes(self.indices@.take(i as int)),
                b@.len() == 4 * i,
            decreases self.indices@.len() - i,
        {
            let ghost prefix = self.indices@.take(i as int);
            push_u32_le(&mut b, self.indices[i]);
            proof {
                assert(self.indices@.take(i + 1) =~= prefix.push(self.indices@[i as int]));
                lemma_words_le_bytes_push(prefix, self.indices@[i as int]);
            }
            i = i + 1;
        }
        proof {
            assert(self.indices@.take(self.indices@.len() as int) =~= self.indices@);
        }
        b
    }
}

/// The concatenation of the byte images of a sequence of vertices.
pub open spec fn spec_vertex_seq_bytes(s: Seq<Vertex>) -> Seq<u8>
    decreases s.len(),
{
    if s.len() == 0 {
        Seq::empty()
    } else {
        s[0].spec_bytes() + spec_vertex_seq_bytes(s.drop_first())
    }
}

/// A vertex's byte image is one 32-byte record.
pub proof fn lemma_vertex_bytes_len(v: Vertex)
    ensures
        v.spec_bytes().len() == 32,
{
    lemma_words_le_bytes_len(v.spec_components());
}

/// Appending a vertex appends its 32-byte record to the byte image.
pub proof fn lemma_vertex_seq_bytes_push(s: Seq<Vertex>, v: Vertex)
    ensures
        spec_vertex_seq_bytes(s.push(v)) == spec_vertex_seq_bytes(s) + v.spec_bytes(),
    decreases s.len(),
{
    let t = s.push(v);
    if s.len() == 0 {
        assert(t.drop_first() =~= Seq::<Vertex>::empty());
        assert(t[0] == v);
        assert(spec_vertex_seq_bytes(Seq::<Vertex>::empty()) =~= Seq::<u8>::empty());
        assert(spec_vertex_seq_bytes(t) =~= v.spec_bytes());
        assert(spec_vertex_seq_bytes(s) + v.spec_bytes() =~= v.spec_bytes());
    } else {
        assert(t.drop_first() =~= s.drop_first().push(v));
        lemma_vertex_seq_bytes_push(s.drop_first(), v);
        assert(t[0] == s[0]);
        assert(spec_vertex_seq_bytes(t) =~= (s[0].spec_bytes() + spec_vertex_seq_bytes(
            s.drop_first(),
        )) + v.spec_bytes());
    }
}

/// One drawable occurrence of a mesh: the arena handle of the mesh it draws,
/// the authoritative transform, and the state of the GPU-resident copy.
#[derive(Clone, Copy, Debug)]
pub struct MeshInstance {
    /// Handle into the renderer's mesh arena.
    pub mesh: usize,
    /// The transform as the caller last set it.
    pub transform: Mat4Bits,
    /// The transform the instance buffer currently holds.
    pub uploaded: Mat4Bits,
    /// Whether the instance buffer is stale and must be refreshed before the
    /// next draw.
    pub dirty: bool,
}

impl MeshInstance {
    /// A clean instance's buffer holds its current transform.
    pub open spec fn wf(&self) -> bool {
        !self.dirty ==> self.uploaded == self.transform
    }

    /// A fresh instance: its buffer is created already holding the given
    /// transform.
    pub fn new(mesh: usize, transform: &Mat4Bits) -> (inst: MeshInstance)
        ensures
            inst.wf(),
            inst.mesh == mesh,
            inst.transform == *transform,
            inst.uploaded == *transform,
            !inst.dirty,
    {
        MeshInstance { mesh, transform: *transform, uploaded: *transform, dirty: false }
    }

    /// Replaces the CPU-side transform. The GPU copy is refreshed lazily,
    /// immediately before the next draw that includes this instance.
    pub fn set_transform(&mut self, transform: &Mat4Bits)
        ensures
            final(self).wf(),
            final(self).mesh == old(self).mesh,
            final(self).transform == *transform,
            final(self).uploaded == old(self).uploaded,
            final(self).dirty,
    {
        self.transform = *transform;
        self.dirty = true;
    }
}

} // verus!
