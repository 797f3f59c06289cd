//! The mesh of a block: a cube with a vertex of its own for every corner of
//! every face.
//!
//! Positions and normals are in whole world units, texture coordinates in
//! hundredths of the texture's width and height.

use vstd::prelude::*;

verus! {

/// Half the edge of a block, in world units.
pub const BLOCK_HALF_SIZE: i32 = 8;

/// Three whole coordinates.
#[derive(Clone, Copy, Debug, PartialEq, Eq, Structural)]
pub struct Triple {
    pub x: i32,
    pub y: i32,
    pub z: i32,
}

/// A place on the texture, in hundredths; (0, 0) is its top left corner.
#[derive(Clone, Copy, Debug, PartialEq, Eq, Structural)]
pub struct TexturePoint {
    pub u: u8,
    pub v: u8,
}

/// One vertex of a mesh.
#[derive(Clone, Copy, Debug, PartialEq, Eq, Structural)]
pub struct Vertex {
    pub position: Triple,
    pub normal: Triple,
    pub uv: TexturePoint,
}

/// A mesh of triangles: every three indices name the vertices of one.
#[derive(Debug)]
pub struct CubeMesh {
    pub vertices: Vec<Vertex>,
    pub indices: Vec<u32>,
}

/// A vertex from its eight numbers.
pub open spec fn vertex(
    px: i32,
    py: i32,
    pz: i32,
    nx: i32,
    ny: i32,
    nz: i32,
    u: u8,
    v: u8,
) -> Vertex {
    Vertex {
        position: Triple { x: px, y: py, z: pz },
        normal: Triple { x: nx, y: ny, z: nz },
        uv: TexturePoint { u: u, v: v },
    }
}

/// A vertex from its eight numbers.
fn make_vertex(px: i32, py: i32, pz: i32, nx: i32, ny: i32, nz: i32, u: u8, v: u8) -> (made: Vertex)
    ensures
        made == vertex(px, py, pz, nx, ny, nz, u, v),
{
    Vertex {
        position: Triple { x: px, y: py, z: pz },
        normal: Triple { x: nx, y: ny, z: nz },
        uv: TexturePoint { u: u, v: v },
    }
}

/// The vertices of the block: four for each face. The top takes the upper
/// fifth of the texture, the bottom the band below it, the four sides the
/// band from a fifth down to 45 hundredths.
pub open spec fn cube_vertices() -> Seq<Vertex> {
    seq![
        // the top, towards +y
        vertex(-8i32, 8, -8i32, 0, 1, 0, 0, 20),
        vertex(8, 8, -8i32, 0, 1, 0, 0, 0),
        vertex(8, 8, 8, 0, 1, 0, 100, 0),
        vertex(-8i32, 8, 8, 0, 1, 0, 100, 20),
        // the bottom, towards -y
        vertex(-8i32, -8i32, -8i32, 0, -1i32, 0, 0, 45),
        vertex(8, -8i32, -8i32, 0, -1i32, 0, 0, 25),
        vertex(8, -8i32, 8, 0, -1i32, 0, 100, 25),
        vertex(-8i32, -8i32, 8, 0, -1i32, 0, 100, 45),
        // the right side, towards +x
        vertex(8, -8i32, -8i32, 1, 0, 0, 100, 45),
        vertex(8, -8i32, 8, 1, 0, 0, 0, 45),
        vertex(8, 8, 8, 1, 0, 0, 0, 20),
        vertex(8, 8, -8i32, 1, 0, 0, 100, 20),
        // the left side, towards -x
        vertex(-8i32, -8i32, -8i32, -1i32, 0, 0, 100, 45),
        vertex(-8i32, -8i32, 8, -1i32, 0, 0, 0, 45),
        vertex(-8i32, 8, 8, -1i32, 0, 0, 0, 20),
        vertex(-8i32, 8, -8i32, -1i32, 0, 0, 100, 20),
        // the back, towards +z
        vertex(-8i32, -8i32, 8, 0, 0, 1, 0, 45),
        vertex(-8i32, 8, 8, 0, 0, 1, 0, 20),
        vertex(8, 8, 8, 0, 0, 1, 100, 20),
        vertex(8, -8i32, 8, 0, 0, 1, 100, 45),
        // the front, towards -z
        vertex(-8i32, -8i32, -8i32, 0, 0, -1i32, 0, 45),
        vertex(-8i32, 8, -8i32, 0, 0, -1i32, 0, 20),
        vertex(8, 8, -8i32, 0, 0, -1i32, 100, 20),
        vertex(8, -8i32, -8i32, 0, 0, -1i32, 100, 45),
    ]
}

/// The triangles of the block: two for each face.
pub open spec fn cube_indices() -> Seq<u32> {
    seq![
        0, 3, 1, 1, 3, 2,
        4, 5, 7, 5, 6, 7,
        8, 11, 9, 9, 11, 10,
        12, 13, 15, 13, 14, 15,
        16, 19, 17, 17, 19, 18,
        20, 21, 23, 21, 22, 23,
    ]
}

/// The scalar product of two triples.
pub open spec fn dot(a: Triple, b: Triple) -> int {
    a.x * b.x + a.y * b.y + a.z * b.z
}

/// The scalar triple product of the sides `ab` and `ac` with `n`: positive
/// where `a`, `b`, `c` run counter-clockwise for one who looks against `n`.
pub open spec fn winding(a: Triple, b: Triple, c: Triple, n: Triple) -> int {
    ((b.y - a.y) * (c.z - a.z) - (b.z - a.z) * (c.y - a.y)) * n.x + ((b.z - a.z) * (c.x - a.x) - (
    b.x - a.x) * (c.z - a.z)) * n.y + ((b.x - a.x) * (c.y - a.y) - (b.y - a.y) * (c.x - a.x)) * n.z
}

/// The vertex lies on the face of the block that its normal points out of,
/// and the normal has length one.
pub open spec fn on_its_face(v: Vertex) -> bool {
    &&& dot(v.normal, v.normal) == 1
    &&& dot(v.position, v.normal) == BLOCK_HALF_SIZE
}

/// Triangle `t` has its three vertices on one face and shows its front to
/// the outside of the block.
pub open spec fn faces_outward(vertices: Seq<Vertex>, indices: Seq<u32>, t: int) -> bool {
    let a = vertices[indices[3 * t] as int];
    let b = vertices[indices[3 * t + 1] as int];
    let c = vertices[indices[3 * t + 2] as int];
    &&& indices[3 * t] < vertices.len()
    &&& indices[3 * t + 1] < vertices.len()
    &&& indices[3 * t + 2] < vertices.len()
    &&& a.normal == b.normal
    &&& a.normal == c.normal
    &&& winding(a.position, b.position, c.position, a.normal) > 0
}

/// The mesh is a closed block seen from outside: every vertex lies on the
/// face that its normal points out of, and every triangle lies in one face
/// and shows its front to the outside.
pub proof fn lemma_cube_faces_outward()
    ensures
        cube_vertices().len() == 24,
        cube_indices().len() == 36,
        forall|i: int| 0 <= i < 24 ==> on_its_face(#[trigger] cube_vertices()[i]),
        forall|t: int| 0 <= t < 12 ==> #[trigger] faces_outward(cube_vertices(), cube_indices(), t),
{
    let vertices = cube_vertices();
    let indices = cube_indices();
    assert(on_its_face(vertex(-8i32, 8, -8i32, 0, 1, 0, 0, 20))) by (nonlinear_arith);
    assert(vertices[0] == vertex(-8i32, 8, -8i32, 0, 1, 0, 0, 20));
    assert(on_its_face(vertex(8, 8, -8i32, 0, 1, 0, 0, 0))) by (nonlinear_arith);
    assert(vertices[1] == vertex(8, 8, -8i32, 0, 1, 0, 0, 0));
    assert(on_its_face(vertex(8, 8, 8, 0, 1, 0, 100, 0))) by (nonlinear_arith);
    assert(vertices[2] == vertex(8, 8, 8, 0, 1, 0, 100, 0));
    assert(on_its_face(vertex(-8i32, 8, 8, 0, 1, 0, 100, 20))) by (nonlinear_arith);
    assert(vertices[3] == vertex(-8i32, 8, 8, 0, 1, 0, 100, 20));
    assert(on_its_face(vertex(-8i32, -8i32, -8i32, 0, -1i32, 0, 0, 45))) by (nonlinear_arith);
    assert(vertices[4] == vertex(-8i32, -8i32, -8i32, 0, -1i32, 0, 0, 45));
    assert(on_its_face(vertex(8, -8i32, -8i32, 0, -1i32, 0, 0, 25))) by (nonlinear_arith);
    assert(vertices[5] == vertex(8, -8i32, -8i32, 0, -1i32, 0, 0, 25));
    assert(on_its_face(vertex(8, -8i32, 8, 0, -1i32, 0, 100, 25))) by (nonlinear_arith);
    assert(vertices[6] == vertex(8, -8i32, 8, 0, -1i32, 0, 100, 25));
    assert(on_its_face(vertex(-8i32, -8i32, 8, 0, -1i32, 0, 100, 45))) by (nonlinear_arith);
    assert(vertices[7] == vertex(-8i32, -8i32, 8, 0, -1i32, 0, 100, 45));
    assert(on_its_face(vertex(8, -8i32, -8i32, 1, 0, 0, 100, 45))) by (nonlinear_arith);
    assert(vertices[8] == vertex(8, -8i32, -8i32, 1, 0, 0, 100, 45));
    assert(on_its_face(vertex(8, -8i32, 8, 1, 0, 0, 0, 45))) by (nonlinear_arith);
    assert(vertices[9] == vertex(8, -8i32, 8, 1, 0, 0, 0, 45));
    assert(on_its_face(vertex(8, 8, 8, 1, 0, 0, 0, 20))) by (nonlinear_arith);
    assert(vertices[10] == vertex(8, 8, 8, 1, 0, 0, 0, 20));
    assert(on_its_face(vertex(8, 8, -8i32, 1, 0, 0, 100, 20))) by (nonlinear_arith);
    assert(vertices[11] == vertex(8, 8, -8i32, 1, 0, 0, 100, 20));
    assert(on_its_face(vertex(-8i32, -8i32, -8i32, -1i32, 0, 0, 100, 45))) by (nonlinear_arith);
    assert(vertices[12] == vertex(-8i32, -8i32, -8i32, -1i32, 0, 0, 100, 45));
    assert(on_its_face(vertex(-8i32, -8i32, 8, -1i32, 0, 0, 0, 45))) by (nonlinear_arith);
    assert(vertices[13] == vertex(-8i32, -8i32, 8, -1i32, 0, 0, 0, 45));
    assert(on_its_face(vertex(-8i32, 8, 8, -1i32, 0, 0, 0, 20))) by (nonlinear_arith);
    assert(vertices[14] == vertex(-8i32, 8, 8, -1i32, 0, 0, 0, 20));
    assert(on_its_face(vertex(-8i32, 8, -8i32, -1i32, 0, 0, 100, 20))) by (nonlinear_arith);
    assert(vertices[15] == vertex(-8i32, 8, -8i32, -1i32, 0, 0, 100, 20));
    assert(on_its_face(vertex(-8i32, -8i32, 8, 0, 0, 1, 0, 45))) by (nonlinear_arith);
    assert(vertices[16] == vertex(-8i32, -8i32, 8, 0, 0, 1, 0, 45));
    assert(on_its_face(vertex(-8i32, 8, 8, 0, 0, 1, 0, 20))) by (nonlinear_arith);
    assert(vertices[17] == vertex(-8i32, 8, 8, 0, 0, 1, 0, 20));
    assert(on_its_face(vertex(8, 8, 8, 0, 0, 1, 100, 20))) by (nonlinear_arith);
    assert(vertices[18] == vertex(8, 8, 8, 0, 0, 1, 100, 20));
    assert(on_its_face(vertex(8, -8i32, 8, 0, 0, 1, 100, 45))) by (nonlinear_arith);
    assert(vertices[19] == vertex(8, -8i32, 8, 0, 0, 1, 100, 45));
    assert(on_its_face(vertex(-8i32, -8i32, -8i32, 0, 0, -1i32, 0, 45))) by (nonlinear_arith);
    assert(vertices[20] == vertex(-8i32, -8i32, -8i32, 0, 0, -1i32, 0, 45));
    assert(on_its_face(vertex(-8i32, 8, -8i32, 0, 0, -1i32, 0, 20))) by (nonlinear_arith);
    assert(vertices[21] == vertex(-8i32, 8, -8i32, 0, 0, -1i32, 0, 20));
    assert(on_its_face(vertex(8, 8, -8i32, 0, 0, -1i32, 100, 20))) by (nonlinear_arith);
    assert(vertices[22] == vertex(8, 8, -8i32, 0, 0, -1i32, 100, 20));
    assert(on_its_face(vertex(8, -8i32, -8i32, 0, 0, -1i32, 100, 45))) by (nonlinear_arith);
    assert(vertices[23] == vertex(8, -8i32, -8i32, 0, 0, -1i32, 100, 45));
    assert(winding(
        Triple { x: -8i32, y: 8, z: -8i32 },
        Triple { x: -8i32, y: 8, z: 8 },
        Triple { x: 8, y: 8, z: -8i32 },
        Triple { x: 0, y: 1, z: 0 },
    ) == 256) by (nonlinear_arith);
    assert(faces_outward(vertices, indices, 0));
    assert(winding(
        Triple { x: 8, y: 8, z: -8i32 },
        Triple { x: -8i32, y: 8, z: 8 },
        Triple { x: 8, y: 8, z: 8 },
        Triple { x: 0, y: 1, z: 0 },
    ) == 256) by (nonlinear_arith);
    assert(faces_outward(vertices, indices, 1));
    assert(winding(
        Triple { x: -8i32, y: -8i32, z: -8i32 },
        Triple { x: 8, y: -8i32, z: -8i32 },
        Triple { x: -8i32, y: -8i32, z: 8 },
        Triple { x: 0, y: -1i32, z: 0 },
    ) == 256) by (nonlinear_arith);
    assert(faces_outward(vertices, indices, 2));
    assert(winding(
        Triple { x: 8, y: -8i32, z: -8i32 },
        Triple { x: 8, y: -8i32, z: 8 },
        Triple { x: -8i32, y: -8i32, z: 8 },
        Triple { x: 0, y: -1i32, z: 0 },
    ) == 256) by (nonlinear_arith);
    assert(faces_outward(vertices, indices, 3));
    assert(winding(
        Triple { x: 8, y: -8i32, z: -8i32 },
        Triple { x: 8, y: 8, z: -8i32 },
        Triple { x: 8, y: -8i32, z: 8 },
        Triple { x: 1, y: 0, z: 0 },
    ) == 256) by (nonlinear_arith);
    assert(faces_outward(vertices, indices, 4));
    assert(winding(
        Triple { x: 8, y: -8i32, z: 8 },
        Triple { x: 8, y: 8, z: -8i32 },
        Triple { x: 8, y: 8, z: 8 },
        Triple { x: 1, y: 0, z: 0 },
    ) == 256) by (nonlinear_arith);
    assert(faces_outward(vertices, indices, 5));
    assert(winding(
        Triple { x: -8i32, y: -8i32, z: -8i32 },
        Triple { x: -8i32, y: -8i32, z: 8 },
        Triple { x: -8i32, y: 8, z: -8i32 },
        Triple { x: -1i32, y: 0, z: 0 },
    ) == 256) by (nonlinear_arith);
    assert(faces_outward(vertices, indices, 6));
    assert(winding(
        Triple { x: -8i32, y: -8i32, z: 8 },
        Triple { x: -8i32, y: 8, z: 8 },
        Triple { x: -8i32, y: 8, z: -8i32 },
        Triple { x: -1i32, y: 0, z: 0 },
    ) == 256) by (nonlinear_arith);
    assert(faces_outward(vertices, indices, 7));
    assert(winding(
        Triple { x: -8i32, y: -8i32, z: 8 },
        Triple { x: 8, y: -8i32, z: 8 },
        Triple { x: -8i32, y: 8, z: 8 },
        Triple { x: 0, y: 0, z: 1 },
    ) == 256) by (nonlinear_arith);
    assert(faces_outward(vertices, indices, 8));
    assert(winding(
        Triple { x: -8i32, y: 8, z: 8 },
        Triple { x: 8, y: -8i32, z: 8 },
        Triple { x: 8, y: 8, z: 8 },
        Triple { x: 0, y: 0, z: 1 },
    ) == 256) by (nonlinear_arith);
    assert(faces_outward(vertices, indices, 9));
    assert(winding(
        Triple { x: -8i32, y: -8i32, z: -8i32 },
        Triple { x: -8i32, y: 8, z: -8i32 },
        Triple { x: 8, y: -8i32, z: -8i32 },
        Triple { x: 0, y: 0, z: -1i32 },
    ) == 256) by (nonlinear_arith);
    assert(faces_outward(vertices, indices, 10));
    assert(winding(
        Triple { x: -8i32, y: 8, z: -8i32 },
        Triple { x: 8, y: 8, z: -8i32 },
        Triple { x: 8, y: -8i32, z: -8i32 },
        Triple { x: 0, y: 0, z: -1i32 },
    ) == 256) by (nonlinear_arith);
    assert(faces_outward(vertices, indices, 11));
}

/// The mesh of a block.
pub fn create_cube_mesh() -> (mesh: CubeMesh)
    ensures
        mesh.vertices@ == cube_vertices(),
        mesh.indices@ == cube_indices(),
{
    let mut vertices: Vec<Vertex> = Vec::new();
    // the top, towards +y
    vertices.push(make_vertex(-8, 8, -8, 0, 1, 0, 0, 20));
    vertices.push(make_vertex(8, 8, -8, 0, 1, 0, 0, 0));
    vertices.push(make_vertex(8, 8, 8, 0, 1, 0, 100, 0));
    vertices.push(make_vertex(-8, 8, 8, 0, 1, 0, 100, 20));
    // the bottom, towards -y
    vertices.push(make_vertex(-8, -8, -8, 0, -1, 0, 0, 45));
    vertices.push(make_vertex(8, -8, -8, 0, -1, 0, 0, 25));
    vertices.push(make_vertex(8, -8, 8, 0, -1, 0, 100, 25));
    vertices.push(make_vertex(-8, -8, 8, 0, -1, 0, 100, 45));
    // the right side, towards +x
    vertices.push(make_vertex(8, -8, -8, 1, 0, 0, 100, 45));
    vertices.push(make_vertex(8, -8, 8, 1, 0, 0, 0, 45));
    vertices.push(make_vertex(8, 8, 8, 1, 0, 0, 0, 20));
    vertices.push(make_vertex(8, 8, -8, 1, 0, 0, 100, 20));
    // the left side, towards -x
    vertices.push(make_vertex(-8, -8, -8, -1, 0, 0, 100, 45));
    vertices.push(make_vertex(-8, -8, 8, -1, 0, 0, 0, 45));
    vertices.push(make_vertex(-8, 8, 8, -1, 0, 0, 0, 20));
    vertices.push(make_vertex(-8, 8, -8, -1, 0, 0, 100, 20));
    // the back, towards +z
    vertices.push(make_vertex(-8, -8, 8, 0, 0, 1, 0, 45));
    vertices.push(make_vertex(-8, 8, 8, 0, 0, 1, 0, 20));
    vertices.push(make_vertex(8, 8, 8, 0, 0, 1, 100, 20));
    vertices.push(make_vertex(8, -8, 8, 0, 0, 1, 100, 45));
    // the front, towards -z
    vertices.push(make_vertex(-8, -8, -8, 0, 0, -1, 0, 45));
    vertices.push(make_vertex(-8, 8, -8, 0, 0, -1, 0, 20));
    vertices.push(make_vertex(8, 8, -8, 0, 0, -1, 100, 20));
    vertices.push(make_vertex(8, -8, -8, 0, 0, -1, 100, 45));
    let mut indices: Vec<u32> = Vec::new();
    indices.push(0);
    indices.push(3);
    indices.push(1);
    indices.push(1);
    indices.push(3);
    indices.push(2);
    indices.push(4);
    indices.push(5);
    indices.push(7);
    indices.push(5);
    indices.push(6);
    indices.push(7);
    indices.push(8);
    indices.push(11);
    indices.push(9);
    indices.push(9);
    indices.push(11);
    indices.push(10);
    indices.push(12);
    indices.push(13);
    indices.push(15);
    indices.push(13);
    indices.push(14);
    indices.push(15);
    indices.push(16);
    indices.push(19);
    indices.push(17);
    indices.push(17);
    indices.push(19);
    indices.push(18);
    indices.push(20);
    indices.push(21);
    indices.push(23);
    indices.push(21);
    indices.push(22);
    indices.push(23);
    assert(vertices@ =~= cube_vertices());
    assert(indices@ =~= cube_indices());
    CubeMesh { vertices: vertices, indices: indices }
}

} // verus!
