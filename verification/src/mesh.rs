//! Meshes and the bytes that are uploaded for them.

use vstd::prelude::*;
use crate::pixels::Color32;
use crate::screen::ClipRect;
use crate::texture::TextureId;
use crate::units::Pos2;

verus! {

/// A vertex: position, texture coordinates and colour.
#[derive(Clone, Copy, Debug, PartialEq, Eq, Structural)]
pub struct Vertex {
    /// Position in points.
    pub pos: Pos2,
    /// Normalized texture coordinates.
    pub uv: Pos2,
    /// Colour with premultiplied alpha.
    pub color: Color32,
}

/// Textured triangles in two dimensions.
#[derive(Clone, Debug, PartialEq, Eq)]
pub struct Mesh {
    /// Three indices into `vertices` for each triangle.
    pub indices: Vec<u32>,
    /// The vertices that `indices` refer to.
    pub vertices: Vec<Vertex>,
    /// The texture to draw the triangles with.
    pub texture_id: TextureId,
}

/// A mesh together with the rectangle that it is clipped to.
#[derive(Clone, Debug, PartialEq, Eq)]
pub struct ClippedPrimitive {
    /// The clip rectangle in physical pixels.
    pub clip_rect: ClipRect,
    /// The triangles to draw.
    pub mesh: Mesh,
}

/// The four bytes of a 32-bit word, least significant byte first, or most
/// significant byte first where `big_endian` is set.
pub open spec fn word_bytes(word: u32, big_endian: bool) -> Seq<u8> {
    let b0 = (word % 0x100) as u8;
    let b1 = (word / 0x100 % 0x100) as u8;
    let b2 = (word / 0x1_0000 % 0x100) as u8;
    let b3 = (word / 0x100_0000) as u8;
    if big_endian {
        seq![b3, b2, b1, b0]
    } else {
        seq![b0, b1, b2, b3]
    }
}

/// The bytes of a row of 32-bit words, word after word.
pub open spec fn words_data(words: Seq<u32>, big_endian: bool) -> Seq<u8>
    decreases words.len(),
{
    if words.len() == 0 {
        Seq::empty()
    } else {
        words_data(words.drop_last(), big_endian) + word_bytes(words.last(), big_endian)
    }
}

/// The four words of a vertex that hold its position and its texture
/// coordinates.
pub open spec fn vertex_words(v: Vertex) -> Seq<u32> {
    seq![v.pos.x.bits, v.pos.y.bits, v.uv.x.bits, v.uv.y.bits]
}

/// The twenty bytes of a vertex: position, texture coordinates, and the
/// colour as red, green, blue and alpha.
pub open spec fn vertex_record(v: Vertex, big_endian: bool) -> Seq<u8> {
    words_data(vertex_words(v), big_endian) + seq![v.color.r, v.color.g, v.color.b, v.color.a]
}

/// The bytes of a row of vertices, vertex after vertex.
pub open spec fn vertex_data(vertices: Seq<Vertex>, big_endian: bool) -> Seq<u8>
    decreases vertices.len(),
{
    if vertices.len() == 0 {
        Seq::empty()
    } else {
        vertex_data(vertices.drop_last(), big_endian) + vertex_record(
            vertices.last(),
            big_endian,
        )
    }
}

/// The position words of a row of vertices, vertex after vertex.
pub open spec fn position_words(vertices: Seq<Vertex>) -> Seq<u32>
    decreases vertices.len(),
{
    if vertices.len() == 0 {
        Seq::empty()
    } else {
        position_words(vertices.drop_last()) + vertex_words(vertices.last())
    }
}

/// Calls `bytemuck::cast_slice` to view a slice of 32-bit words as bytes, and
/// copies the bytes out.
///
/// Believed of it: the bytes are those of the words in the order of the
/// slice, each word in the byte order of the machine, which is the same for
/// every word: least significant byte first, or most significant byte first.
/// The cast from words to bytes never fails.
#[verifier::external_body]
fn cast_words(words: &Vec<u32>) -> (bytes: Vec<u8>)
    ensures
        bytes@ == words_data(words@, false) || bytes@ == words_data(words@, true),
{
    bytemuck::cast_slice::<u32, u8>(words.as_slice()).to_vec()
}

/// There are four bytes for each word.
pub proof fn lemma_words_data_len(words: Seq<u32>, big_endian: bool)
    ensures
        words_data(words, big_endian).len() == 4 * words.len(),
    decreases words.len(),
{
    if words.len() > 0 {
        lemma_words_data_len(words.drop_last(), big_endian);
    }
}

/// There are twenty bytes for each vertex.
pub proof fn lemma_vertex_data_len(vertices: Seq<Vertex>, big_endian: bool)
    ensures
        vertex_data(vertices, big_endian).len() == 20 * vertices.len(),
    decreases vertices.len(),
{
    if vertices.len() > 0 {
        lemma_vertex_data_len(vertices.drop_last(), big_endian);
        lemma_words_data_len(vertex_words(vertices.last()), big_endian);
    }
}

proof fn lemma_words_data_concat(a: Seq<u32>, b: Seq<u32>, big_endian: bool)
    ensures
        words_data(a + b, big_endian) == words_data(a, big_endian) + words_data(b, big_endian),
    decreases b.len(),
{
    if b.len() == 0 {
        assert(a + b =~= a);
        assert(words_data(a, big_endian) + words_data(b, big_endian) =~= words_data(
            a,
            big_endian,
        ));
    } else {
        lemma_words_data_concat(a, b.drop_last(), big_endian);
        assert((a + b).drop_last() =~= a + b.drop_last());
        assert((a + b).last() == b.last());
        assert(words_data(a + b, big_endian) =~= words_data(a, big_endian) + words_data(
            b,
            big_endian,
        ));
    }
}

/// In the bytes of the position words of a row of vertices, the sixteen
/// bytes from `16 * i` on are those of vertex `i`.
proof fn lemma_position_slice(vertices: Seq<Vertex>, big_endian: bool, i: int)
    requires
        0 <= i < vertices.len(),
    ensures
        words_data(position_words(vertices), big_endian).len() == 16 * vertices.len(),
        words_data(position_words(vertices), big_endian).subrange(16 * i, 16 * i + 16)
            == words_data(vertex_words(vertices[i]), big_endian),
    decreases vertices.len(),
{
    let head = vertices.drop_last();
    let head_bytes = words_data(position_words(head), big_endian);
    let last_bytes = words_data(vertex_words(vertices.last()), big_endian);
    lemma_words_data_concat(position_words(head), vertex_words(vertices.last()), big_endian);
    lemma_words_data_len(vertex_words(vertices.last()), big_endian);
    lemma_words_data_len(position_words(head), big_endian);
    lemma_position_words_len(head);
    let all = words_data(position_words(vertices), big_endian);
    assert(all == head_bytes + last_bytes);
    if i < vertices.len() - 1 {
        lemma_position_slice(head, big_endian, i);
        assert(all.subrange(16 * i, 16 * i + 16) =~= head_bytes.subrange(16 * i, 16 * i + 16));
    } else {
        assert(all.subrange(16 * i, 16 * i + 16) =~= last_bytes);
    }
}

proof fn lemma_position_words_len(vertices: Seq<Vertex>)
    ensures
        position_words(vertices).len() == 4 * vertices.len(),
    decreases vertices.len(),
{
    if vertices.len() > 0 {
        lemma_position_words_len(vertices.drop_last());
    }
}

/// The bytes of a mesh's indices as they are uploaded into an index buffer:
/// four bytes for each index, in the byte order of the machine.
pub fn mesh_index_data(mesh: &Mesh) -> (bytes: Vec<u8>)
    ensures
        bytes@ == words_data(mesh.indices@, false) || bytes@ == words_data(mesh.indices@, true),
        bytes@.len() == 4 * mesh.indices@.len(),
{
    proof {
        lemma_words_data_len(mesh.indices@, false);
        lemma_words_data_len(mesh.indices@, true);
    }
    cast_words(&mesh.indices)
}

/// The bytes of a mesh's vertices as they are uploaded into a vertex buffer:
/// twenty bytes for each vertex, the four position words of each in the byte
/// order of the machine, followed by the four colour bytes.
pub fn mesh_vertex_data(mesh: &Mesh) -> (bytes: Vec<u8>)
    ensures
        bytes@ == vertex_data(mesh.vertices@, false) || bytes@ == vertex_data(
            mesh.vertices@,
            true,
        ),
        bytes@.len() == 20 * mesh.vertices@.len(),
{
    let vertices = &mesh.vertices;
    let mut words: Vec<u32> = Vec::new();
    let mut i: usize = 0;
    while i < vertices.len()
        invariant
            i <= vertices.len(),
            words@ == position_words(vertices@.take(i as int)),
        decreases vertices.len() - i,
    {
        let v = vertices[i];
        words.push(v.pos.x.bits);
        words.push(v.pos.y.bits);
        words.push(v.uv.x.bits);
        words.push(v.uv.y.bits);
        proof {
            let next = vertices@.take(i + 1);
            assert(next.drop_last() =~= vertices@.take(i as int));
            assert(next.last() == v);
            assert(words@ =~= position_words(vertices@.take(i as int)) + vertex_words(v));
        }
        i = i + 1;
    }
    assert(vertices@.take(vertices.len() as int) =~= vertices@);
    let raw = cast_words(&words);
    let ghost big_endian: bool = raw@ != words_data(words@, false);
    assert(raw@ == words_data(position_words(vertices@), big_endian));
    proof {
        lemma_words_data_len(position_words(vertices@), big_endian);
        lemma_position_words_len(vertices@);
    }
    let mut bytes: Vec<u8> = Vec::new();
    let mut k: usize = 0;
    while k < vertices.len()
        invariant
            k <= vertices.len(),
            raw@ == words_data(position_words(vertices@), big_endian),
            raw.len() == 16 * vertices.len(),
            bytes@ == vertex_data(vertices@.take(k as int), big_endian),
        decreases vertices.len() - k,
    {
        proof {
            lemma_position_slice(vertices@, big_endian, k as int);
        }
        let ghost start = bytes@;
        let base: usize = 16 * k;
        let mut j: usize = 0;
        while j < 16
            invariant
                j <= 16,
                base == 16 * k,
                k < vertices.len(),
                raw.len() == 16 * vertices.len(),
                bytes@ == start + raw@.subrange(base as int, base + j),
            decreases 16 - j,
        {
            bytes.push(raw[base + j]);
            assert(bytes@ =~= start + raw@.subrange(base as int, base + j + 1));
            j = j + 1;
        }
        let v = vertices[k];
        bytes.push(v.color.r);
        bytes.push(v.color.g);
        bytes.push(v.color.b);
        bytes.push(v.color.a);
        proof {
            let next = vertices@.take(k + 1);
            assert(next.drop_last() =~= vertices@.take(k as int));
            assert(next.last() == v);
            assert(bytes@ =~= start + vertex_record(v, big_endian));
        }
        k = k + 1;
    }
    proof {
        lemma_vertex_data_len(vertices@, false);
        lemma_vertex_data_len(vertices@, true);
    }
    bytes
}

} // verus!
