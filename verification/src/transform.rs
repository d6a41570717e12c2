//! The 4x4 transform matrix as it travels to the GPU.
//!
//! Entries are kept column-major as the 32-bit patterns of their IEEE-754
//! encodings; the renderer never computes with them, it only stores, compares
//! and uploads them, so the opaque patterns are the exact model of what a
//! uniform or instance buffer holds.

use vstd::prelude::*;

use crate::bytes::{lemma_words_le_bytes_concat, lemma_words_le_bytes_len,
    lemma_words_le_bytes_push, push_u32_le, words_le_bytes};

verus! {

/// Bit pattern of one in IEEE-754 single precision.
pub const F32_ONE_BITS: u32 = 0x3f80_0000;

/// A 4x4 matrix of IEEE-754 bit patterns, in column-major order.
#[derive(Clone, Copy, Debug, PartialEq, Eq)]
pub struct Mat4Bits {
    pub entries: [u32; 16],
}

impl Mat4Bits {
    /// Every entry is the zero pattern.
    pub open spec fn is_zero(&self) -> bool {
        forall|i: int| 0 <= i < 16 ==> self.entries[i] == 0
    }

    /// The byte image of the matrix as a uniform or instance buffer holds it.
    pub open spec fn spec_bytes(&self) -> Seq<u8> {
        words_le_bytes(self.entries@)
    }

    /// The all-zero matrix, the initial contents of the uniform buffer.
    pub fn zeroed() -> (m: Mat4Bits)
        ensures
            m.is_zero(),
    {
        Mat4Bits { entries: [0u32; 16] }
    }

    /// The identity transform: the pattern of one on the diagonal, zero
    /// elsewhere.
    pub fn identity() -> (m: Mat4Bits)
        ensures
            forall|i: int|
                0 <= i < 16 ==> m.entries[i] == (if i == 0 || i == 5 || i == 10 || i == 15 {
                    F32_ONE_BITS
                } else {
                    0u32
                }),
    {
        let mut entries: [u32; 16] = [0u32; 16];
        entries[0] = F32_ONE_BITS;
        entries[5] = F32_ONE_BITS;
        entries[10] = F32_ONE_BITS;
        entries[15] = F32_ONE_BITS;
        Mat4Bits { entries }
    }

    /// The 64 bytes that a buffer write of this matrix carries.
    pub fn to_bytes(&self) -> (b: Vec<u8>)
        ensures
            b@ == self.spec_bytes(),
            b@.len() == 64,
    {
        let mut b: Vec<u8> = Vec::new();
        let mut i: usize = 0;
        while i < 16
            invariant
                i <= 16,
                b@ == words_le_bytes(self.entries@.take(i as int)),
                b@.len() == 4 * i,
            decreases 16 - i,
        {
            let ghost prefix = self.entries@.take(i as int);
            push_u32_le(&mut b, self.entries[i]);
            proof {
                assert(self.entries@.take(i + 1) =~= prefix.push(self.entries@[i as int]));
                lemma_words_le_bytes_push(prefix, self.entries@[i as int]);
            }
            i = i + 1;
        }
        proof {
            assert(self.entries@.take(16) =~= self.entries@);
        }
        b
    }
}

/// A matrix's byte image honors the per-instance buffer layout: column `k`
/// of [`crate::layout::is_instance_layout`] — the 16-byte attribute at
/// offset `16 * k` — reads exactly the bytes of entries `4k` to `4k + 3`.
pub proof fn lemma_matrix_bytes_match_layout(m: Mat4Bits, k: int)
    requires
        0 <= k < 4,
    ensures
        m.spec_bytes().len() == 64,
        m.spec_bytes().subrange(16 * k, 16 * k + 16) == words_le_bytes(
            m.entries@.subrange(4 * k, 4 * k + 4),
        ),
{
    let s = m.entries@;
    let pre = s.subrange(0, 4 * k);
    let mid = s.subrange(4 * k, 4 * k + 4);
    let post = s.subrange(4 * k + 4, 16);
    assert(s =~= (pre + mid) + post);
    lemma_words_le_bytes_concat(pre + mid, post);
    lemma_words_le_bytes_concat(pre, mid);
    lemma_words_le_bytes_len(pre);
    lemma_words_le_bytes_len(mid);
    lemma_words_le_bytes_len(post);
    lemma_words_le_bytes_len(s);
    assert(m.spec_bytes().subrange(16 * k, 16 * k + 16) =~= words_le_bytes(mid));
}

} // verus!
