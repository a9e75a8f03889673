//! Byte-level wire layouts: the 128-byte per-draw payload (two 4x4 matrices
//! of 32-bit values, column-major, little-endian) and the packing of a binary
//! shader blob into 4-byte words.
//!
//! Matrix entries are carried as the raw 32-bit patterns of their values, so
//! the layout is stated and proved bit-exactly without floating point.

use vstd::prelude::*;

verus! {

/// A 4x4 matrix as 16 raw 32-bit entries in column-major order.
#[derive(Clone, Copy, Debug, PartialEq, Eq)]
pub struct Mat4Bits {
    pub vals: [u32; 16],
}

/// The four little-endian bytes of a 32-bit value.
pub open spec fn u32_le_bytes(x: u32) -> Seq<u8> {
    seq![
        (x % 256) as u8,
        ((x / 256) % 256) as u8,
        ((x / 65536) % 256) as u8,
        ((x / 16777216) % 256) as u8,
    ]
}

/// All words of a sequence, each as its four little-endian bytes.
pub open spec fn le_bytes_of_words(ws: Seq<u32>) -> Seq<u8>
    decreases ws.len(),
{
    if ws.len() == 0 {
        Seq::empty()
    } else {
        u32_le_bytes(ws[0]) + le_bytes_of_words(ws.drop_first())
    }
}

pub proof fn lemma_le_bytes_len(ws: Seq<u32>)
    ensures
        le_bytes_of_words(ws).len() == 4 * ws.len(),
    decreases ws.len(),
{
    if ws.len() > 0 {
        lemma_le_bytes_len(ws.drop_first());
    }
}

/// Byte `4*i + j` of the encoding is byte `j` of word `i`.
pub proof fn lemma_le_bytes_index(ws: Seq<u32>, i: int, j: int)
    requires
        0 <= i < ws.len(),
        0 <= j < 4,
    ensures
        le_bytes_of_words(ws).len() == 4 * ws.len(),
        le_bytes_of_words(ws)[4 * i + j] == u32_le_bytes(ws[i])[j],
    decreases i,
{
    lemma_le_bytes_len(ws);
    lemma_le_bytes_len(ws.drop_first());
    if i > 0 {
        lemma_le_bytes_index(ws.drop_first(), i - 1, j);
    }
}

pub proof fn lemma_le_bytes_push(ws: Seq<u32>, x: u32)
    ensures
        le_bytes_of_words(ws.push(x)) == le_bytes_of_words(ws) + u32_le_bytes(x),
    decreases ws.len(),
{
    if ws.len() == 0 {
        let s = ws.push(x);
        assert(s.len() == 1);
        assert(s[0] == x);
        assert(le_bytes_of_words(s) == u32_le_bytes(x) + le_bytes_of_words(s.drop_first()));
        assert(s.drop_first() =~= Seq::<u32>::empty());
        assert(le_bytes_of_words(s.drop_first()) == Seq::<u8>::empty());
        assert(le_bytes_of_words(ws) == Seq::<u8>::empty());
        assert(u32_le_bytes(x) + Seq::<u8>::empty() =~= Seq::<u8>::empty() + u32_le_bytes(x));
    } else {
        assert(ws.push(x)[0] == ws[0]);
        assert(ws.push(x).drop_first() =~= ws.drop_first().push(x));
        lemma_le_bytes_push(ws.drop_first(), x);
        assert(le_bytes_of_words(ws.push(x)) == u32_le_bytes(ws[0]) + (le_bytes_of_words(
            ws.drop_first(),
        ) + u32_le_bytes(x)));
        assert(u32_le_bytes(ws[0]) + (le_bytes_of_words(ws.drop_first()) + u32_le_bytes(x)) =~= (
        u32_le_bytes(ws[0]) + le_bytes_of_words(ws.drop_first())) + u32_le_bytes(x));
    }
}

/// Append the four little-endian bytes of `x`.
fn push_u32_le(out: &mut Vec<u8>, x: u32)
    ensures
        final (out)@ == old(out)@ + u32_le_bytes(x),
{
    out.push((x % 256) as u8);
    out.push(((x / 256) % 256) as u8);
    out.push(((x / 65536) % 256) as u8);
    out.push(((x / 16777216) % 256) as u8);
    proof {
        assert(out@ =~= old(out)@ + u32_le_bytes(x));
    }
}

/// Serialize the per-draw payload: exactly 128 bytes, the combined
/// projection-view-model matrix in bytes [0, 64) and the model matrix alone
/// in bytes [64, 128), each column-major with little-endian 32-bit entries.
pub fn matrices_to_bytes(mvp: &Mat4Bits, model: &Mat4Bits) -> (bytes: Vec<u8>)
    ensures
        bytes@.len() == 128,
        bytes@ == le_bytes_of_words(mvp.vals@) + le_bytes_of_words(model.vals@),
{
    let mut out: Vec<u8> = Vec::new();
    let mut i: usize = 0;
    while i < 16
        invariant
            0 <= i <= 16,
            out@ == le_bytes_of_words(mvp.vals@.take(i as int)),
        decreases 16 - i,
    {
        proof {
            assert(mvp.vals@.take(i + 1) =~= mvp.vals@.take(i as int).push(mvp.vals@[i as int]));
            lemma_le_bytes_push(mvp.vals@.take(i as int), mvp.vals@[i as int]);
        }
        push_u32_le(&mut out, mvp.vals[i]);
        i += 1;
    }
    proof {
        assert(mvp.vals@.take(16) =~= mvp.vals@);
    }
    let mut i: usize = 0;
    while i < 16
        invariant
            0 <= i <= 16,
            out@ == le_bytes_of_words(mvp.vals@) + le_bytes_of_words(model.vals@.take(i as int)),
        decreases 16 - i,
    {
        proof {
            assert(model.vals@.take(i + 1) =~= model.vals@.take(i as int).push(
                model.vals@[i as int],
            ));
            lemma_le_bytes_push(model.vals@.take(i as int), model.vals@[i as int]);
            assert(le_bytes_of_words(mvp.vals@) + (le_bytes_of_words(model.vals@.take(i as int))
                + u32_le_bytes(model.vals@[i as int])) =~= (le_bytes_of_words(mvp.vals@)
                + le_bytes_of_words(model.vals@.take(i as int))) + u32_le_bytes(
                model.vals@[i as int],
            ));
        }
        push_u32_le(&mut out, model.vals[i]);
        i += 1;
    }
    proof {
        assert(model.vals@.take(16) =~= model.vals@);
        lemma_le_bytes_len(mvp.vals@);
        lemma_le_bytes_len(model.vals@);
    }
    out
}

/// Law: the payload layout is byte-exact — in the 128 bytes for matrices
/// `(mvp, model)`, byte `4*i + j` is byte `j` of `mvp`'s word `i`, and byte
/// `64 + 4*i + j` is byte `j` of `model`'s word `i`.
pub proof fn lemma_payload_layout(mvp: Seq<u32>, model: Seq<u32>, i: int, j: int)
    requires
        mvp.len() == 16,
        model.len() == 16,
        0 <= i < 16,
        0 <= j < 4,
    ensures
        (le_bytes_of_words(mvp) + le_bytes_of_words(model)).len() == 128,
        (le_bytes_of_words(mvp) + le_bytes_of_words(model))[4 * i + j] == u32_le_bytes(mvp[i])[j],
        (le_bytes_of_words(mvp) + le_bytes_of_words(model))[64 + 4 * i + j] == u32_le_bytes(
            model[i],
        )[j],
{
    lemma_le_bytes_index(mvp, i, j);
    lemma_le_bytes_index(model, i, j);
}

/// A 32-bit value is the sum of its four little-endian bytes at their place
/// values.
proof fn lemma_u32_le_reconstruct(x: u32)
    ensures
        (x % 256) + ((x / 256) % 256) * 256 + ((x / 65536) % 256) * 65536 + ((x / 16777216) % 256)
            * 16777216 == x,
{
    vstd::arithmetic::div_mod::lemma_fundamental_div_mod(x as int, 256);
    vstd::arithmetic::div_mod::lemma_fundamental_div_mod(x as int / 256, 256);
    vstd::arithmetic::div_mod::lemma_fundamental_div_mod(x as int / 65536, 256);
    vstd::arithmetic::div_mod::lemma_div_denominator(x as int, 256, 256);
    vstd::arithmetic::div_mod::lemma_div_denominator(x as int, 65536, 256);
    assert(x / 16777216 < 256);
    vstd::arithmetic::div_mod::lemma_small_mod((x / 16777216) as nat, 256);
}

/// The 32-bit word read little-endian from bytes `4*i ..= 4*i + 3`.
pub open spec fn spec_word_at(bs: Seq<u8>, i: int) -> u32
    recommends
        0 <= i,
        4 * i + 4 <= bs.len(),
{
    (bs[4 * i] + bs[4 * i + 1] * 256 + bs[4 * i + 2] * 65536 + bs[4 * i + 3] * 16777216) as u32
}

/// Pack a binary shader blob into 4-byte little-endian words, one word per
/// four bytes; a trailing remainder of fewer than four bytes is dropped.
pub fn words_of_bytes(bytes: &Vec<u8>) -> (words: Vec<u32>)
    ensures
        words@.len() == bytes@.len() / 4,
        forall|i: int| 0 <= i < words@.len() ==> words@[i] == spec_word_at(bytes@, i),
{
    let n = bytes.len() / 4;
    proof {
        vstd::arithmetic::div_mod::lemma_fundamental_div_mod(bytes@.len() as int, 4);
    }
    let mut words: Vec<u32> = Vec::new();
    let mut i: usize = 0;
    while i < n
        invariant
            0 <= i <= n,
            n == bytes@.len() / 4,
            4 * n <= bytes@.len(),
            bytes@.len() <= usize::MAX,
            words@.len() == i,
            forall|j: int| 0 <= j < i ==> words@[j] == spec_word_at(bytes@, j),
        decreases n - i,
    {
        let b0 = bytes[4 * i] as u32;
        let b1 = bytes[4 * i + 1] as u32;
        let b2 = bytes[4 * i + 2] as u32;
        let b3 = bytes[4 * i + 3] as u32;
        words.push(b0 + b1 * 256 + b2 * 65536 + b3 * 16777216);
        i += 1;
    }
    words
}

/// Law: the little-endian layouts agree — reading word `i` back out of the
/// byte encoding of a word sequence returns exactly the original word, so
/// the encoding loses nothing.
pub proof fn lemma_words_bytes_roundtrip(ws: Seq<u32>, i: int)
    requires
        0 <= i < ws.len(),
    ensures
        spec_word_at(le_bytes_of_words(ws), i) == ws[i],
{
    lemma_le_bytes_index(ws, i, 0);
    lemma_le_bytes_index(ws, i, 1);
    lemma_le_bytes_index(ws, i, 2);
    lemma_le_bytes_index(ws, i, 3);
    lemma_u32_le_reconstruct(ws[i]);
}

} // verus!
