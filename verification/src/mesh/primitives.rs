//! The cube: the corners, texture coordinates and indices of its six faces.

use vstd::prelude::*;
use crate::mesh::{upload_commands, Mesh, MeshUpload};
use crate::mesh::vertex::{lemma_packed_layout, lemma_packed_len, words_before};
use crate::vertex::Vertex;

verus! {

/// The word of the number one half.
pub const HALF: u32 = 0x3F00_0000;

/// The word of the number minus one half.
pub const NEG_HALF: u32 = 0xBF00_0000;

/// The word of the number one.
pub const ONE: u32 = 0x3F80_0000;

/// The word of the number minus one.
pub const NEG_ONE: u32 = 0xBF80_0000;

/// The word of the number zero.
pub const ZERO: u32 = 0;

/// The number of vertices of the cube: four for each of its six faces.
pub const CUBE_VERTICES: usize = 24;

/// The number of indices of the cube: two triangles for each face.
pub const CUBE_INDICES: usize = 36;

/// The corners of the cube, face after face: front, back, left, right, top and
/// bottom. An entry gives the side of the x, y and z axis on which the corner
/// lies: `true` for the positive side.
pub open spec fn corner_sides() -> Seq<(bool, bool, bool)> {
    seq![
        (false, false, true), (true, false, true), (true, true, true), (false, true, true),
        (false, false, false), (true, false, false), (true, true, false), (false, true, false),
        (false, false, false), (false, false, true), (false, true, true), (false, true, false),
        (true, false, false), (true, false, true), (true, true, true), (true, true, false),
        (false, true, true), (true, true, true), (true, true, false), (false, true, false),
        (false, false, true), (true, false, true), (true, false, false), (false, false, false),
    ]
}

/// The word of a coordinate on the given side of an axis.
pub open spec fn side_word(positive: bool, far: u32, near: u32) -> u32 {
    if positive {
        far
    } else {
        near
    }
}

/// The position of corner `i` of the cube whose faces lie at the coordinates
/// `far`, on the positive side of each axis, and `near`, on the negative one.
pub open spec fn corner_position(i: int, far: u32, near: u32) -> Seq<u32> {
    let sides = corner_sides()[i];
    seq![
        side_word(sides.0, far, near),
        side_word(sides.1, far, near),
        side_word(sides.2, far, near),
    ]
}

/// The texture coordinates of the corners of a face: the unit square, walked
/// from its origin along the first axis.
pub open spec fn corner_uv(corner: int) -> Seq<u32> {
    if corner == 0 {
        seq![ZERO, ZERO]
    } else if corner == 1 {
        seq![ONE, ZERO]
    } else if corner == 2 {
        seq![ONE, ONE]
    } else {
        seq![ZERO, ONE]
    }
}

/// The indices of the cube: two triangles for each face, over the four
/// vertices of that face.
pub open spec fn cube_indices() -> Seq<i32> {
    seq![
        0i32, 1i32, 2i32, 0i32, 2i32, 3i32,
        4i32, 7i32, 6i32, 4i32, 6i32, 5i32,
        8i32, 9i32, 10i32, 8i32, 10i32, 11i32,
        12i32, 15i32, 14i32, 12i32, 14i32, 13i32,
        16i32, 17i32, 18i32, 16i32, 18i32, 19i32,
        20i32, 23i32, 22i32, 20i32, 22i32, 21i32,
    ]
}

/// The vertex buffer of the textured unit cube: for each of its 24 vertices
/// the position of the corner, half a unit from the centre along every axis,
/// and behind it the texture coordinates.
pub open spec fn cube_words() -> Seq<u32> {
    Seq::new(
        120,
        |k: int|
            if k % 5 < 3 {
                corner_position(k / 5, HALF, NEG_HALF)[k % 5]
            } else {
                corner_uv((k / 5) % 4)[k % 5 - 3]
            },
    )
}

/// Every index of the cube names one of the four vertices of the face that
/// its triangle belongs to; none reaches beyond the 24 vertices.
pub proof fn lemma_cube_indices_in_range(i: int)
    requires
        0 <= i < CUBE_INDICES,
    ensures
        cube_indices().len() == CUBE_INDICES,
        0 <= cube_indices()[i] < CUBE_VERTICES,
        cube_indices()[i] / 4 == i / 6,
{
}

/// The positions of the 24 corners of a cube whose faces lie at `far` and
/// `near`.
pub fn cube_positions(far: u32, near: u32) -> (positions: Vec<[u32; 3]>)
    ensures
        positions@.len() == CUBE_VERTICES,
        forall|i: int|
            0 <= i < CUBE_VERTICES ==> (#[trigger] positions@[i])@ == corner_position(
                i,
                far,
                near,
            ),
{
    let positions: Vec<[u32; 3]> = vec![
        [near, near, far], [far, near, far], [far, far, far], [near, far, far],
        [near, near, near], [far, near, near], [far, far, near], [near, far, near],
        [near, near, near], [near, near, far], [near, far, far], [near, far, near],
        [far, near, near], [far, near, far], [far, far, far], [far, far, near],
        [near, far, far], [far, far, far], [far, far, near], [near, far, near],
        [near, near, far], [far, near, far], [far, near, near], [near, near, near],
    ];
    assert forall|i: int| 0 <= i < CUBE_VERTICES implies (#[trigger] positions@[i])@
        == corner_position(i, far, near) by {
        assert(positions@[i]@ =~= corner_position(i, far, near));
    }
    positions
}

/// The indices of the cube.
pub fn cube_index_list() -> (indices: Vec<i32>)
    ensures
        indices@ == cube_indices(),
{
    let indices: Vec<i32> = vec![
        0, 1, 2, 0, 2, 3,
        4, 7, 6, 4, 6, 5,
        8, 9, 10, 8, 10, 11,
        12, 15, 14, 12, 14, 13,
        16, 17, 18, 16, 18, 19,
        20, 23, 22, 20, 22, 21,
    ];
    assert(indices@ =~= cube_indices());
    indices
}

/// The texture coordinates of corner `corner` of a face.
fn uv_of(corner: usize) -> (uv: [u32; 2])
    requires
        corner < 4,
    ensures
        uv@ == corner_uv(corner as int),
{
    let uv: [u32; 2] = if corner == 0 {
        [ZERO, ZERO]
    } else if corner == 1 {
        [ONE, ZERO]
    } else if corner == 2 {
        [ONE, ONE]
    } else {
        [ZERO, ONE]
    };
    assert(uv@ =~= corner_uv(corner as int));
    uv
}

impl Mesh {
    /// Plans the upload of the textured unit cube into the objects `vao`,
    /// `vbo` and `ebo`: 24 vertices of a position and texture coordinates,
    /// 480 bytes at a stride of 20, and 36 indices.
    pub fn create_cube(vao: u32, vbo: u32, ebo: u32) -> (upload: MeshUpload)
        ensures
            upload.mesh.vao == vao,
            upload.mesh.vbo == vbo,
            upload.mesh.ebo == ebo,
            upload.mesh.indices@ == cube_indices(),
            upload.vertices@ == cube_words(),
            upload.commands@ == upload_commands(vao, vbo, ebo, seq![3u32, 2u32], 24, 36),
    {
        let positions = cube_positions(HALF, NEG_HALF);
        let mut vertices: Vec<Vertex> = Vec::new();
        let mut i: usize = 0;
        while i < CUBE_VERTICES
            invariant
                i <= CUBE_VERTICES,
                positions@.len() == CUBE_VERTICES,
                vertices@.len() == i,
                forall|j: int|
                    0 <= j < CUBE_VERTICES ==> (#[trigger] positions@[j])@ == corner_position(
                        j,
                        HALF,
                        NEG_HALF,
                    ),
                forall|j: int|
                    0 <= j < i ==> (#[trigger] vertices@[j]).position@ == corner_position(
                        j,
                        HALF,
                        NEG_HALF,
                    ) && vertices@[j].uv@ == corner_uv(j % 4),
            decreases CUBE_VERTICES - i,
        {
            vertices.push(Vertex::new(positions[i], uv_of(i % 4)));
            i += 1;
        }
        let indices = cube_index_list();
        proof {
            lemma_cube_words(vertices@);
            reveal_with_fuel(words_before, 3);
        }
        Mesh::create(vao, vbo, ebo, vertices, indices)
    }
}

/// The vertex buffer of the cube's vertices is the buffer of the cube.
proof fn lemma_cube_words(vertices: Seq<Vertex>)
    requires
        vertices.len() == CUBE_VERTICES,
        forall|j: int|
            0 <= j < CUBE_VERTICES ==> (#[trigger] vertices[j]).position@ == corner_position(
                j,
                HALF,
                NEG_HALF,
            ) && vertices[j].uv@ == corner_uv(j % 4),
    ensures
        crate::mesh::vertex::packed_words(vertices) == cube_words(),
{
    let packed = crate::mesh::vertex::packed_words(vertices);
    reveal_with_fuel(words_before, 3);
    lemma_packed_len(vertices);
    assert(packed.len() == 120);
    assert forall|k: int| 0 <= k < 120 implies packed[k] == cube_words()[k] by {
        let index = k / 5;
        let at = k % 5;
        if at < 3 {
            lemma_packed_layout(vertices, index, 0, at);
        } else {
            lemma_packed_layout(vertices, index, 1, at - 3);
        }
    }
    assert(packed =~= cube_words());
}

} // verus!
