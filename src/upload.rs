use vstd::prelude::*;

use crate::vertex::{Vec2, Vec3, Vertex};

verus! {

/// Byte `j` (0 = least significant) of `w`.
pub open spec fn byte_of(w: u32, j: int) -> u8 {
    if j == 0 {
        (w & 0xff) as u8
    } else if j == 1 {
        ((w >> 8u32) & 0xff) as u8
    } else if j == 2 {
        ((w >> 16u32) & 0xff) as u8
    } else {
        ((w >> 24u32) & 0xff) as u8
    }
}

/// The word whose little-endian bytes are `b0..b3`.
pub open spec fn word_of(b0: u8, b1: u8, b2: u8, b3: u8) -> u32 {
    (b0 as u32) | ((b1 as u32) << 8u32) | ((b2 as u32) << 16u32) | ((b3 as u32) << 24u32)
}

/// The little-endian bytes of `words`, four per word.
pub open spec fn words_le(words: Seq<u32>) -> Seq<u8> {
    Seq::new(4 * words.len(), |k: int| byte_of(words[k / 4], k % 4))
}

/// The words that little-endian `bytes` hold, one per four bytes.
pub open spec fn le_words(bytes: Seq<u8>) -> Seq<u32> {
    Seq::new(
        bytes.len() / 4,
        |i: int| word_of(bytes[4 * i], bytes[4 * i + 1], bytes[4 * i + 2], bytes[4 * i + 3]),
    )
}

/// The eight components of a vertex, in buffer order.
pub open spec fn vertex_words(v: Vertex) -> Seq<u32> {
    seq![v.pos.x, v.pos.y, v.pos.z, v.color.x, v.color.y, v.color.z, v.tex_coord.x, v.tex_coord.y]
}

/// The components of `vertices`, eight per vertex.
pub open spec fn vertices_words(vertices: Seq<Vertex>) -> Seq<u32> {
    Seq::new(8 * vertices.len(), |k: int| vertex_words(vertices[k / 8])[k % 8])
}

/// The vertex whose components start at `words[8 * i]`.
pub open spec fn vertex_at(words: Seq<u32>, i: int) -> Vertex {
    Vertex {
        pos: Vec3 { x: words[8 * i], y: words[8 * i + 1], z: words[8 * i + 2] },
        color: Vec3 { x: words[8 * i + 3], y: words[8 * i + 4], z: words[8 * i + 5] },
        tex_coord: Vec2 { x: words[8 * i + 6], y: words[8 * i + 7] },
    }
}

/// The vertices that `words` hold, one per eight words.
pub open spec fn words_vertices(words: Seq<u32>) -> Seq<Vertex> {
    Seq::new(words.len() / 8, |i: int| vertex_at(words, i))
}

proof fn lemma_word_bytes(w: u32)
    ensures
        word_of(byte_of(w, 0), byte_of(w, 1), byte_of(w, 2), byte_of(w, 3)) == w,
{
    assert(((w & 0xff) as u8 as u32) | ((((w >> 8u32) & 0xff) as u8 as u32) << 8u32) | ((((w
        >> 16u32) & 0xff) as u8 as u32) << 16u32) | ((((w >> 24u32) & 0xff) as u8 as u32)
        << 24u32) == w) by (bit_vector);
}

fn push_word(bytes: &mut Vec<u8>, w: u32)
    ensures
        final(bytes)@ == old(bytes)@ + seq![byte_of(w, 0), byte_of(w, 1), byte_of(w, 2), byte_of(w, 3)],
{
    bytes.push((w & 0xff) as u8);
    bytes.push(((w >> 8) & 0xff) as u8);
    bytes.push(((w >> 16) & 0xff) as u8);
    bytes.push(((w >> 24) & 0xff) as u8);
    assert(bytes@ =~= old(bytes)@ + seq![byte_of(w, 0), byte_of(w, 1), byte_of(w, 2), byte_of(w, 3)]);
}

/// The bytes that a staging buffer receives for `words`: each word little-endian.
pub fn words_to_bytes(words: &Vec<u32>) -> (r: Vec<u8>)
    requires
        4 * words@.len() <= usize::MAX,
    ensures
        r@ == words_le(words@),
{
    let mut r: Vec<u8> = Vec::new();
    let mut i: usize = 0;
    while i < words.len()
        invariant
            i <= words@.len(),
            r@ == words_le(words@.subrange(0, i as int)),
        decreases words@.len() - i,
    {
        let ghost prev = r@;
        push_word(&mut r, words[i]);
        proof {
            let next = words@.subrange(0, i + 1);
            assert forall|k: int| 0 <= k < 4 * (i + 1) implies #[trigger] r@[k] == byte_of(
                next[k / 4],
                k % 4,
            ) by {
                if k < 4 * i {
                    assert(r@[k] == prev[k]);
                    assert(next[k / 4] == words@.subrange(0, i as int)[k / 4]);
                } else {
                    assert(k / 4 == i);
                }
            }
            assert(r@ =~= words_le(next));
        }
        i = i + 1;
    }
    assert(words@.subrange(0, words@.len() as int) =~= words@);
    r
}

/// The words that a buffer of little-endian bytes holds.
pub fn bytes_to_words(bytes: &Vec<u8>) -> (r: Vec<u32>)
    ensures
        r@ == le_words(bytes@),
{
    let len = bytes.len();
    let n = len / 4;
    let mut r: Vec<u32> = Vec::new();
    let mut i: usize = 0;
    while i < n
        invariant
            n == bytes@.len() / 4,
            len == bytes@.len(),
            i <= n,
            r@ == le_words(bytes@).subrange(0, i as int),
        decreases n - i,
    {
        proof {
            assert(4 * i + 3 < bytes@.len()) by (nonlinear_arith)
                requires
                    i < n,
                    n == bytes@.len() / 4,
            ;
        }
        let b = 4 * i;
        let w = (bytes[b] as u32) | ((bytes[b + 1] as u32) << 8) | ((bytes[b + 2] as u32) << 16) | ((
        bytes[b + 3] as u32) << 24);
        r.push(w);
        assert(r@ =~= le_words(bytes@).subrange(0, i + 1));
        i = i + 1;
    }
    assert(le_words(bytes@).subrange(0, n as int) =~= le_words(bytes@));
    r
}

/// The components of `vertices` in buffer order, eight per vertex.
pub fn vertices_to_words(vertices: &Vec<Vertex>) -> (r: Vec<u32>)
    requires
        8 * vertices@.len() <= usize::MAX,
    ensures
        r@ == vertices_words(vertices@),
{
    let mut r: Vec<u32> = Vec::new();
    let mut i: usize = 0;
    while i < vertices.len()
        invariant
            i <= vertices@.len(),
            r@ == vertices_words(vertices@.subrange(0, i as int)),
        decreases vertices@.len() - i,
    {
        let v = vertices[i];
        let ghost prev = r@;
        r.push(v.pos.x);
        r.push(v.pos.y);
        r.push(v.pos.z);
        r.push(v.color.x);
        r.push(v.color.y);
        r.push(v.color.z);
        r.push(v.tex_coord.x);
        r.push(v.tex_coord.y);
        proof {
            let next = vertices@.subrange(0, i + 1);
            assert forall|k: int| 0 <= k < 8 * (i + 1) implies #[trigger] r@[k] == vertex_words(
                next[k / 8],
            )[k % 8] by {
                if k < 8 * i {
                    assert(r@[k] == prev[k]);
                    assert(next[k / 8] == vertices@.subrange(0, i as int)[k / 8]);
                } else {
                    assert(k / 8 == i);
                }
            }
            assert(r@ =~= vertices_words(next));
        }
        i = i + 1;
    }
    assert(vertices@.subrange(0, vertices@.len() as int) =~= vertices@);
    r
}

/// The vertices whose components `words` holds, eight words each.
pub fn words_to_vertices(words: &Vec<u32>) -> (r: Vec<Vertex>)
    ensures
        r@ == words_vertices(words@),
{
    let len = words.len();
    let n = len / 8;
    let mut r: Vec<Vertex> = Vec::new();
    let mut i: usize = 0;
    while i < n
        invariant
            n == words@.len() / 8,
            len == words@.len(),
            i <= n,
            r@ == words_vertices(words@).subrange(0, i as int),
        decreases n - i,
    {
        proof {
            assert(8 * i + 7 < words@.len()) by (nonlinear_arith)
                requires
                    i < n,
                    n == words@.len() / 8,
            ;
        }
        let b = 8 * i;
        r.push(
            Vertex {
                pos: Vec3 { x: words[b], y: words[b + 1], z: words[b + 2] },
                color: Vec3 { x: words[b + 3], y: words[b + 4], z: words[b + 5] },
                tex_coord: Vec2 { x: words[b + 6], y: words[b + 7] },
            },
        );
        assert(r@ =~= words_vertices(words@).subrange(0, i + 1));
        i = i + 1;
    }
    assert(words_vertices(words@).subrange(0, n as int) =~= words_vertices(words@));
    r
}

/// The staging-buffer bytes of a vertex list.
pub fn vertex_bytes(vertices: &Vec<Vertex>) -> (r: Vec<u8>)
    requires
        32 * vertices@.len() <= usize::MAX,
    ensures
        r@ == words_le(vertices_words(vertices@)),
{
    let words = vertices_to_words(vertices);
    words_to_bytes(&words)
}

/// The staging-buffer bytes of an index list.
pub fn index_bytes(indices: &Vec<u32>) -> (r: Vec<u8>)
    requires
        4 * indices@.len() <= usize::MAX,
    ensures
        r@ == words_le(indices@),
{
    words_to_bytes(indices)
}

/// Reading back little-endian words gives the words that were written.
pub proof fn lemma_words_round_trip(words: Seq<u32>)
    ensures
        le_words(words_le(words)) == words,
{
    let bytes = words_le(words);
    assert forall|i: int| 0 <= i < words.len() implies #[trigger] le_words(bytes)[i] == words[i] by {
        assert((4 * i) / 4 == i) by (nonlinear_arith);
        assert((4 * i + 1) / 4 == i) by (nonlinear_arith);
        assert((4 * i + 2) / 4 == i) by (nonlinear_arith);
        assert((4 * i + 3) / 4 == i) by (nonlinear_arith);
        assert((4 * i) % 4 == 0) by (nonlinear_arith);
        assert((4 * i + 1) % 4 == 1) by (nonlinear_arith);
        assert((4 * i + 2) % 4 == 2) by (nonlinear_arith);
        assert((4 * i + 3) % 4 == 3) by (nonlinear_arith);
        lemma_word_bytes(words[i]);
    }
    assert(le_words(bytes) =~= words);
}

proof fn lemma_div8(i: int, j: int)
    requires
        0 <= i,
        0 <= j < 8,
    ensures
        (8 * i + j) / 8 == i,
        (8 * i + j) % 8 == j,
{
    assert((8 * i + j) / 8 == i && (8 * i + j) % 8 == j) by (nonlinear_arith)
        requires
            0 <= j < 8,
            0 <= i,
    ;
}

/// Reading back vertex components gives the vertices that were written.
pub proof fn lemma_vertices_round_trip(vertices: Seq<Vertex>)
    ensures
        words_vertices(vertices_words(vertices)) == vertices,
{
    let words = vertices_words(vertices);
    assert forall|i: int| 0 <= i < vertices.len() implies #[trigger] words_vertices(words)[i]
        == vertices[i] by {
        lemma_div8(i, 0);
        lemma_div8(i, 1);
        lemma_div8(i, 2);
        lemma_div8(i, 3);
        lemma_div8(i, 4);
        lemma_div8(i, 5);
        lemma_div8(i, 6);
        lemma_div8(i, 7);
    }
    assert(words_vertices(words) =~= vertices);
}

/// Staging round trip: the bytes written for a vertex list, read back from the
/// buffer, give the same vertices; likewise for an index list.
pub proof fn lemma_staging_round_trip(vertices: Seq<Vertex>, indices: Seq<u32>)
    ensures
        words_vertices(le_words(words_le(vertices_words(vertices)))) == vertices,
        le_words(words_le(indices)) == indices,
{
    lemma_words_round_trip(vertices_words(vertices));
    lemma_vertices_round_trip(vertices);
    lemma_words_round_trip(indices);
}

} // verus!
