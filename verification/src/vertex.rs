//! The per-vertex record of the vertex buffer.
//!
//! A vertex carries a position, a color and a texture coordinate, each
//! component the 32-bit pattern of its IEEE-754 encoding. The byte image
//! produced here is what the vertex buffer upload carries, and it matches the
//! per-vertex layout in [`crate::layout`] attribute for attribute.

use vstd::prelude::*;

use crate::bytes::{lemma_words_le_bytes_concat, lemma_words_le_bytes_len,
    lemma_words_le_bytes_push, push_u32_le, words_le_bytes};
use crate::transform::F32_ONE_BITS;

verus! {

/// One vertex: position, color, texture coordinates, as IEEE-754 bit
/// patterns.
#[derive(Clone, Copy, Debug, PartialEq, Eq)]
pub struct Vertex {
    pub position: [u32; 3],
    pub color: [u32; 3],
    pub uv: [u32; 2],
}

impl Vertex {
    /// The eight 32-bit components in buffer order: position, then color,
    /// then texture coordinates.
    pub open spec fn spec_components(&self) -> Seq<u32> {
        self.position@ + self.color@ + self.uv@
    }

    /// The 32-byte image of the vertex as the vertex buffer holds it.
    pub open spec fn spec_bytes(&self) -> Seq<u8> {
        words_le_bytes(self.spec_components())
    }

    /// The components of the vertex in buffer order.
    pub fn components(&self) -> (c: Vec<u32>)
        ensures
            c@ == self.spec_components(),
            c@.len() == 8,
    {
        let c: Vec<u32> = vec![
            self.position[0],
            self.position[1],
            self.position[2],
            self.color[0],
            self.color[1],
            self.color[2],
            self.uv[0],
            self.uv[1],
        ];
        proof {
            assert(c@ =~= self.spec_components());
        }
        c
    }

    /// Appends the 32-byte image of the vertex to `out`.
    pub fn append_bytes(&self, out: &mut Vec<u8>)
        ensures
            final(out)@ == old(out)@ + self.spec_bytes(),
    {
        let components = self.components();
        let mut i: usize = 0;
        while i < components.len()
            invariant
                i <= components@.len(),
                components@ == self.spec_components(),
                out@ == old(out)@ + words_le_bytes(components@.take(i as int)),
            decreases components@.len() - i,
        {
            let ghost prefix = components@.take(i as int);
            push_u32_le(out, components[i]);
            proof {
                assert(components@.take(i + 1) =~= prefix.push(components@[i as int]));
                lemma_words_le_bytes_push(prefix, components@[i as int]);
            }
            i = i + 1;
        }
        proof {
            assert(components@.take(components@.len() as int) =~= components@);
        }
    }
}

/// A vertex's byte image honors the per-vertex buffer layout: each
/// attribute of [`crate::layout::is_vertex_layout`] reads exactly the bytes
/// of its components — position at offset 0, color at offset 12, texture
/// coordinates at offset 24 of the 32-byte record.
pub proof fn lemma_vertex_bytes_match_layout(v: Vertex)
    ensures
        v.spec_bytes().len() == 32,
        v.spec_bytes().subrange(0, 12) == words_le_bytes(v.position@),
        v.spec_bytes().subrange(12, 24) == words_le_bytes(v.color@),
        v.spec_bytes().subrange(24, 32) == words_le_bytes(v.uv@),
{
    lemma_words_le_bytes_concat(v.position@ + v.color@, v.uv@);
    lemma_words_le_bytes_concat(v.position@, v.color@);
    lemma_words_le_bytes_len(v.position@);
    lemma_words_le_bytes_len(v.color@);
    lemma_words_le_bytes_len(v.uv@);
    assert(v.spec_bytes() =~= (words_le_bytes(v.position@) + words_le_bytes(v.color@))
        + words_le_bytes(v.uv@));
    assert(v.spec_bytes().subrange(0, 12) =~= words_le_bytes(v.position@));
    assert(v.spec_bytes().subrange(12, 24) =~= words_le_bytes(v.color@));
    assert(v.spec_bytes().subrange(24, 32) =~= words_le_bytes(v.uv@));
}

/// Builds the vertex list from the source streams of a mesh, one vertex per
/// position. A missing color entry defaults to white and a missing texture
/// coordinate to zero, so partial streams still yield a complete buffer.
pub fn assemble_vertices(positions: Vec<[u32; 3]>, colors: Vec<[u32; 3]>, uvs: Vec<[u32; 2]>) -> (r:
    Vec<Vertex>)
    ensures
        r@.len() == positions@.len(),
        forall|i: int|
            0 <= i < r@.len() ==> (#[trigger] r@[i]).position == positions@[i],
        forall|i: int|
            0 <= i < r@.len() ==> (#[trigger] r@[i]).color == (if i < colors@.len() {
                colors@[i]
            } else {
                [F32_ONE_BITS, F32_ONE_BITS, F32_ONE_BITS]
            }),
        forall|i: int|
            0 <= i < r@.len() ==> (#[trigger] r@[i]).uv == (if i < uvs@.len() {
                uvs@[i]
            } else {
                [0u32, 0u32]
            }),
{
    let mut r: Vec<Vertex> = Vec::new();
    let mut i: usize = 0;
    while i < positions.len()
        invariant
            i <= positions@.len(),
            r@.len() == i,
            forall|j: int|
                0 <= j < i ==> (#[trigger] r@[j]).position == positions@[j],
            forall|j: int|
                0 <= j < i ==> (#[trigger] r@[j]).color == (if j < colors@.len() {
                    colors@[j]
                } else {
                    [F32_ONE_BITS, F32_ONE_BITS, F32_ONE_BITS]
                }),
            forall|j: int|
                0 <= j < i ==> (#[trigger] r@[j]).uv == (if j < uvs@.len() {
                    uvs@[j]
                } else {
                    [0u32, 0u32]
                }),
        decreases positions@.len() - i,
    {
        let color: [u32; 3] = if i < colors.len() {
            colors[i]
        } else {
            [F32_ONE_BITS, F32_ONE_BITS, F32_ONE_BITS]
        };
        let uv: [u32; 2] = if i < uvs.len() {
            uvs[i]
        } else {
            [0u32, 0u32]
        };
        r.push(Vertex { position: positions[i], color, uv });
        i = i + 1;
    }
    r
}

} // verus!
