//! Renderer settings and mesh data for the GPU.
use vstd::prelude::*;
use crate::bits::Vec3Bits;

verus! {

/// Settings the renderer starts with.
#[derive(Clone, Copy, Debug, PartialEq, Eq, Structural)]
pub struct RendererConfig {
    pub width: u32,
    pub height: u32,
    pub vsync: bool,
    pub wireframe: bool,
}

impl Default for RendererConfig {
    /// A 1280 by 720 surface with vsync on and wireframe off.
    fn default() -> (c: RendererConfig)
        ensures
            c == (RendererConfig { width: 1280, height: 720, vsync: true, wireframe: false }),
    {
        RendererConfig { width: 1280, height: 720, vsync: true, wireframe: false }
    }
}

/// The size a surface is configured with for a window of `width` by
/// `height`: each side at least one pixel.
pub fn surface_size(width: u32, height: u32) -> (r: (u32, u32))
    ensures
        r.0 == (if width == 0 { 1 } else { width }),
        r.1 == (if height == 0 { 1 } else { height }),
{
    let w = if width < 1 { 1 } else { width };
    let h = if height < 1 { 1 } else { height };
    (w, h)
}

/// A vertex of coloured geometry; components are IEEE-754 binary32 bit patterns.
#[derive(Clone, Copy, Debug, PartialEq, Eq, Structural)]
pub struct Vertex {
    pub position: Vec3Bits,
    pub color: Vec3Bits,
}

/// Mesh data: vertices and the triangle list that indexes them.
#[derive(Debug)]
pub struct Mesh {
    pub vertices: Vec<Vertex>,
    pub indices: Vec<u32>,
    pub index_count: usize,
}

/// Bit pattern of `0.5`.
pub const HALF_BITS: u32 = 0x3f00_0000;

/// Bit pattern of `-0.5`.
pub const NEG_HALF_BITS: u32 = 0xbf00_0000;

/// The corners of the unit cube centred on the origin, four per face, in the
/// order front, back, top, bottom, right, left.
pub open spec fn cube_corners() -> Seq<Vec3Bits> {
    let n = NEG_HALF_BITS;
    let p = HALF_BITS;
    seq![
        Vec3Bits { x: n, y: n, z: p },
        Vec3Bits { x: p, y: n, z: p },
        Vec3Bits { x: p, y: p, z: p },
        Vec3Bits { x: n, y: p, z: p },
        Vec3Bits { x: n, y: n, z: n },
        Vec3Bits { x: n, y: p, z: n },
        Vec3Bits { x: p, y: p, z: n },
        Vec3Bits { x: p, y: n, z: n },
        Vec3Bits { x: n, y: p, z: n },
        Vec3Bits { x: n, y: p, z: p },
        Vec3Bits { x: p, y: p, z: p },
        Vec3Bits { x: p, y: p, z: n },
        Vec3Bits { x: n, y: n, z: n },
        Vec3Bits { x: p, y: n, z: n },
        Vec3Bits { x: p, y: n, z: p },
        Vec3Bits { x: n, y: n, z: p },
        Vec3Bits { x: p, y: n, z: n },
        Vec3Bits { x: p, y: p, z: n },
        Vec3Bits { x: p, y: p, z: p },
        Vec3Bits { x: p, y: n, z: p },
        Vec3Bits { x: n, y: n, z: n },
        Vec3Bits { x: n, y: n, z: p },
        Vec3Bits { x: n, y: p, z: p },
        Vec3Bits { x: n, y: p, z: n },
    ]
}

/// The two triangles `(0, 1, 2)` and `(0, 2, 3)` of the face whose first
/// corner is `4 * face`.
pub open spec fn face_indices(face: int) -> Seq<u32> {
    let b = 4 * face;
    seq![b as u32, (b + 1) as u32, (b + 2) as u32, b as u32, (b + 2) as u32, (b + 3) as u32]
}

/// The triangle list of the first `faces` faces of the cube.
pub open spec fn cube_indices(faces: int) -> Seq<u32>
    decreases faces,
{
    if faces <= 0 {
        Seq::empty()
    } else {
        cube_indices(faces - 1) + face_indices(faces - 1)
    }
}

/// The six words of one vertex: position x, y, z, then colour x, y, z.
pub open spec fn vertex_word_group(v: Vertex) -> Seq<u32> {
    seq![v.position.x, v.position.y, v.position.z, v.color.x, v.color.y, v.color.z]
}

/// The words of a run of vertices, one group of six after another.
pub open spec fn vertex_words_of(vs: Seq<Vertex>) -> Seq<u32>
    decreases vs.len(),
{
    if vs.len() == 0 {
        Seq::empty()
    } else {
        vertex_words_of(vs.drop_last()) + vertex_word_group(vs.last())
    }
}

/// Every index of the cube's first `faces` faces is below `4 * faces`, and
/// the list holds six of them per face.
proof fn lemma_cube_indices_bounded(faces: int)
    requires
        0 <= faces <= 6,
    ensures
        cube_indices(faces).len() == 6 * faces,
        forall|j: int| 0 <= j < cube_indices(faces).len() ==> #[trigger] cube_indices(faces)[j] < 4 * faces,
    decreases faces,
{
    if faces > 0 {
        lemma_cube_indices_bounded(faces - 1);
        let prev = cube_indices(faces - 1);
        assert forall|j: int| 0 <= j < cube_indices(faces).len() implies #[trigger] cube_indices(
            faces,
        )[j] < 4 * faces by {
            if j < prev.len() {
                assert(cube_indices(faces)[j] == prev[j]);
            } else {
                assert(cube_indices(faces)[j] == face_indices(faces - 1)[j - prev.len()]);
            }
        }
    }
}

/// The four bytes of `w`, least significant first.
pub open spec fn word_bytes_le(w: u32) -> Seq<u8> {
    seq![
        (w % 256) as u8,
        ((w / 256) % 256) as u8,
        ((w / 65536) % 256) as u8,
        ((w / 16777216) % 256) as u8,
    ]
}

/// The four bytes of `w`, most significant first.
pub open spec fn word_bytes_be(w: u32) -> Seq<u8> {
    seq![
        ((w / 16777216) % 256) as u8,
        ((w / 65536) % 256) as u8,
        ((w / 256) % 256) as u8,
        (w % 256) as u8,
    ]
}

/// The bytes of a run of words, four per word, least significant first when
/// `little` holds and most significant first otherwise.
pub open spec fn words_bytes(ws: Seq<u32>, little: bool) -> Seq<u8>
    decreases ws.len(),
{
    if ws.len() == 0 {
        Seq::empty()
    } else {
        words_bytes(ws.drop_last(), little) + (if little {
            word_bytes_le(ws.last())
        } else {
            word_bytes_be(ws.last())
        })
    }
}

/// The in-memory bytes of `words`, through `bytemuck::cast_slice`, which
/// reinterprets a slice of `u32` as a slice of `u8` four times as long.
/// The contract claims what that reinterpretation gives on any machine: the
/// bytes of each word in turn, all in the machine's byte order, which is
/// either least or most significant byte first. Which of the two is left open.
#[verifier::external_body]
fn cast_words_to_bytes(words: &[u32]) -> (bytes: Vec<u8>)
    ensures
        bytes@ == words_bytes(words@, true) || bytes@ == words_bytes(words@, false),
{
    bytemuck::cast_slice::<u32, u8>(words).to_vec()
}

impl Mesh {
    /// A unit cube centred on the origin with every vertex of colour `color`:
    /// four vertices per face, two triangles per face.
    pub fn cube(color: Vec3Bits) -> (m: Mesh)
        ensures
            m.vertices@.len() == 24,
            forall|i: int| 0 <= i < 24 ==> #[trigger] m.vertices@[i] == (Vertex {
                position: cube_corners()[i],
                color,
            }),
            m.indices@ == cube_indices(6),
            m.indices@.len() == 36,
            m.index_count == 36,
            forall|j: int| 0 <= j < m.indices@.len() ==> #[trigger] m.indices@[j] < m.vertices@.len(),
    {
        let n = NEG_HALF_BITS;
        let p = HALF_BITS;
        let vertices = vec![
            // front
            Vertex { position: Vec3Bits { x: n, y: n, z: p }, color },
            Vertex { position: Vec3Bits { x: p, y: n, z: p }, color },
            Vertex { position: Vec3Bits { x: p, y: p, z: p }, color },
            Vertex { position: Vec3Bits { x: n, y: p, z: p }, color },
            // back
            Vertex { position: Vec3Bits { x: n, y: n, z: n }, color },
            Vertex { position: Vec3Bits { x: n, y: p, z: n }, color },
            Vertex { position: Vec3Bits { x: p, y: p, z: n }, color },
            Vertex { position: Vec3Bits { x: p, y: n, z: n }, color },
            // top
            Vertex { position: Vec3Bits { x: n, y: p, z: n }, color },
            Vertex { position: Vec3Bits { x: n, y: p, z: p }, color },
            Vertex { position: Vec3Bits { x: p, y: p, z: p }, color },
            Vertex { position: Vec3Bits { x: p, y: p, z: n }, color },
            // bottom
            Vertex { position: Vec3Bits { x: n, y: n, z: n }, color },
            Vertex { position: Vec3Bits { x: p, y: n, z: n }, color },
            Vertex { position: Vec3Bits { x: p, y: n, z: p }, color },
            Vertex { position: Vec3Bits { x: n, y: n, z: p }, color },
            // right
            Vertex { position: Vec3Bits { x: p, y: n, z: n }, color },
            Vertex { position: Vec3Bits { x: p, y: p, z: n }, color },
            Vertex { position: Vec3Bits { x: p, y: p, z: p }, color },
            Vertex { position: Vec3Bits { x: p, y: n, z: p }, color },
            // left
            Vertex { position: Vec3Bits { x: n, y: n, z: n }, color },
            Vertex { position: Vec3Bits { x: n, y: n, z: p }, color },
            Vertex { position: Vec3Bits { x: n, y: p, z: p }, color },
            Vertex { position: Vec3Bits { x: n, y: p, z: n }, color },
        ];
        let mut indices: Vec<u32> = Vec::new();
        let mut face: u32 = 0;
        while face < 6
            invariant
                0 <= face <= 6,
                indices@ == cube_indices(face as int),
            decreases 6 - face,
        {
            let b = 4 * face;
            indices.push(b);
            indices.push(b + 1);
            indices.push(b + 2);
            indices.push(b);
            indices.push(b + 2);
            indices.push(b + 3);
            assert(indices@ =~= cube_indices(face as int) + face_indices(face as int));
            face = face + 1;
        }
        proof {
            lemma_cube_indices_bounded(6);
        }
        let index_count = indices.len();
        Mesh { vertices, indices, index_count }
    }

    /// The vertex data as words, in the layout the vertex buffer uses:
    /// position x, y, z, then colour x, y, z, vertex after vertex.
    pub fn vertex_words(&self) -> (r: Vec<u32>)
        ensures
            r@ == vertex_words_of(self.vertices@),
    {
        let mut words: Vec<u32> = Vec::new();
        let mut i: usize = 0;
        while i < self.vertices.len()
            invariant
                0 <= i <= self.vertices@.len(),
                words@ == vertex_words_of(self.vertices@.subrange(0, i as int)),
            decreases self.vertices@.len() - i,
        {
            let v = self.vertices[i];
            words.push(v.position.x);
            words.push(v.position.y);
            words.push(v.position.z);
            words.push(v.color.x);
            words.push(v.color.y);
            words.push(v.color.z);
            assert(self.vertices@.subrange(0, i + 1).drop_last() =~= self.vertices@.subrange(0, i as int));
            assert(words@ =~= vertex_words_of(self.vertices@.subrange(0, i + 1)));
            i = i + 1;
        }
        assert(self.vertices@.subrange(0, i as int) =~= self.vertices@);
        words
    }

    /// The bytes of the vertex buffer: the vertex words in the machine's byte order.
    pub fn vertex_bytes(&self) -> (r: Vec<u8>)
        ensures
            r@ == words_bytes(vertex_words_of(self.vertices@), true) || r@ == words_bytes(
                vertex_words_of(self.vertices@),
                false,
            ),
    {
        let words = self.vertex_words();
        cast_words_to_bytes(words.as_slice())
    }

    /// The bytes of the index buffer: the indices in the machine's byte order.
    pub fn index_bytes(&self) -> (r: Vec<u8>)
        ensures
            r@ == words_bytes(self.indices@, true) || r@ == words_bytes(self.indices@, false),
    {
        cast_words_to_bytes(self.indices.as_slice())
    }
}

/// Each face of the cube lies on its own side, at half a unit from the
/// centre: front `z = +0.5`, back `z = -0.5`, top `y = +0.5`, bottom
/// `y = -0.5`, right `x = +0.5`, left `x = -0.5`; every coordinate of every
/// vertex is `±0.5`; the four corners of a face are four different points;
/// and every vertex has the colour given.
pub proof fn lemma_cube_faces(vs: Seq<Vertex>, color: Vec3Bits)
    requires
        vs.len() == 24,
        forall|i: int| 0 <= i < 24 ==> #[trigger] vs[i] == (Vertex { position: cube_corners()[i], color }),
    ensures
        forall|j: int| 0 <= j < 4 ==> (#[trigger] vs[j]).position.z == HALF_BITS,
        forall|j: int| 4 <= j < 8 ==> (#[trigger] vs[j]).position.z == NEG_HALF_BITS,
        forall|j: int| 8 <= j < 12 ==> (#[trigger] vs[j]).position.y == HALF_BITS,
        forall|j: int| 12 <= j < 16 ==> (#[trigger] vs[j]).position.y == NEG_HALF_BITS,
        forall|j: int| 16 <= j < 20 ==> (#[trigger] vs[j]).position.x == HALF_BITS,
        forall|j: int| 20 <= j < 24 ==> (#[trigger] vs[j]).position.x == NEG_HALF_BITS,
        forall|j: int|
            0 <= j < 24 ==> {
                let p = (#[trigger] vs[j]).position;
                &&& p.x == HALF_BITS || p.x == NEG_HALF_BITS
                &&& p.y == HALF_BITS || p.y == NEG_HALF_BITS
                &&& p.z == HALF_BITS || p.z == NEG_HALF_BITS
                &&& vs[j].color == color
            },
        forall|f: int, a: int, b: int|
            0 <= f < 6 && 0 <= a < b < 4 ==> (#[trigger] vs[4 * f + a]).position != (#[trigger] vs[4
                * f + b]).position,
{
    let c = cube_corners();
    assert forall|f: int, a: int, b: int|
        0 <= f < 6 && 0 <= a < b < 4 implies (#[trigger] vs[4 * f + a]).position != (#[trigger] vs[4
        * f + b]).position by {
        assert(vs[4 * f + a].position == c[4 * f + a]);
        assert(vs[4 * f + b].position == c[4 * f + b]);
    }
}

/// Every triangle of the cube's index list stays on one face: the six
/// indices of face `f` all name one of that face's four vertices.
pub proof fn lemma_cube_triangles_on_faces()
    ensures
        forall|f: int, m: int|
            0 <= f < 6 && 0 <= m < 6 ==> 4 * f <= #[trigger] cube_indices(6)[6 * f + m] < 4 * f + 4,
{
    let idx = cube_indices(6);
    assert(idx =~= face_indices(0) + face_indices(1) + face_indices(2) + face_indices(3) + face_indices(4)
        + face_indices(5)) by {
        reveal_with_fuel(cube_indices, 7);
    }
    assert forall|f: int, m: int| 0 <= f < 6 && 0 <= m < 6 implies 4 * f <= #[trigger] idx[6 * f + m]
        < 4 * f + 4 by {
        assert(idx[6 * f + m] == face_indices(f)[m]);
    }
}

/// The bytes of a run of words number four per word, in either byte order.
pub proof fn lemma_words_bytes_len(ws: Seq<u32>, little: bool)
    ensures
        words_bytes(ws, little).len() == 4 * ws.len(),
    decreases ws.len(),
{
    if ws.len() > 0 {
        lemma_words_bytes_len(ws.drop_last(), little);
    }
}

/// The words of a run of vertices number six per vertex.
pub proof fn lemma_vertex_words_len(vs: Seq<Vertex>)
    ensures
        vertex_words_of(vs).len() == 6 * vs.len(),
    decreases vs.len(),
{
    if vs.len() > 0 {
        lemma_vertex_words_len(vs.drop_last());
    }
}

} // verus!
