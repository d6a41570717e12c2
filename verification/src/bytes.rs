//! Little-endian byte encoding of the 32-bit words that GPU buffers hold.
//!
//! Vertex, index and uniform buffers all receive packed arrays of 32-bit
//! values; the layouts in [`crate::layout`] describe buffer contents in terms
//! of this encoding.

use vstd::prelude::*;

verus! {

/// The four bytes of `x`, least significant first.
pub open spec fn u32_le_bytes(x: u32) -> Seq<u8> {
    seq![
        (x & 0xff) as u8,
        ((x >> 8) & 0xff) as u8,
        ((x >> 16) & 0xff) as u8,
        ((x >> 24) & 0xff) as u8,
    ]
}

/// The concatenation of the little-endian encodings of every word of `s`.
pub open spec fn words_le_bytes(s: Seq<u32>) -> Seq<u8>
    decreases s.len(),
{
    if s.len() == 0 {
        Seq::empty()
    } else {
        u32_le_bytes(s[0]) + words_le_bytes(s.drop_first())
    }
}

pub proof fn lemma_words_le_bytes_len(s: Seq<u32>)
    ensures
        words_le_bytes(s).len() == 4 * s.len(),
    decreases s.len(),
{
    if s.len() > 0 {
        lemma_words_le_bytes_len(s.drop_first());
    }
}

/// Appending one word to a sequence appends its four bytes to the encoding.
pub proof fn lemma_words_le_bytes_push(s: Seq<u32>, x: u32)
    ensures
        words_le_bytes(s.push(x)) == words_le_bytes(s) + u32_le_bytes(x),
    decreases s.len(),
{
    let t = s.push(x);
    if s.len() == 0 {
        assert(t.drop_first() =~= Seq::<u32>::empty());
        assert(t[0] == x);
        assert(words_le_bytes(Seq::<u32>::empty()) =~= Seq::<u8>::empty());
        assert(words_le_bytes(t) =~= u32_le_bytes(x));
        assert(words_le_bytes(s) + u32_le_bytes(x) =~= u32_le_bytes(x));
    } else {
        assert(t.drop_first() =~= s.drop_first().push(x));
        lemma_words_le_bytes_push(s.drop_first(), x);
        assert(t[0] == s[0]);
        assert(words_le_bytes(t) =~= (u32_le_bytes(s[0]) + words_le_bytes(s.drop_first()))
            + u32_le_bytes(x));
    }
}

/// The encoding of a concatenation is the concatenation of the encodings.
pub proof fn lemma_words_le_bytes_concat(a: Seq<u32>, b: Seq<u32>)
    ensures
        words_le_bytes(a + b) == words_le_bytes(a) + words_le_bytes(b),
    decreases a.len(),
{
    if a.len() == 0 {
        assert(a + b =~= b);
        assert(words_le_bytes(a) + words_le_bytes(b) =~= words_le_bytes(b));
    } else {
        assert((a + b).drop_first() =~= a.drop_first() + b);
        lemma_words_le_bytes_concat(a.drop_first(), b);
        assert((a + b)[0] == a[0]);
        assert((a + b).len() > 0);
        assert(words_le_bytes(a + b) =~= (u32_le_bytes(a[0]) + words_le_bytes(a.drop_first()))
            + words_le_bytes(b));
    }
}

/// Appends the little-endian encoding of `x` to `out`.
pub fn push_u32_le(out: &mut Vec<u8>, x: u32)
    ensures
        final(out)@ == old(out)@ + u32_le_bytes(x),
{
    proof {
        assert(x & 0xff < 256 && (x >> 8) & 0xff < 256 && (x >> 16) & 0xff < 256 && (x >> 24)
            & 0xff < 256) by (bit_vector);
    }
    out.push((x & 0xff) as u8);
    out.push(((x >> 8) & 0xff) as u8);
    out.push(((x >> 16) & 0xff) as u8);
    out.push(((x >> 24) & 0xff) as u8);
    proof {
        assert(out@ =~= old(out)@ + u32_le_bytes(x));
    }
}

} // verus!
