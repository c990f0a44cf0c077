use vstd::math::abs;
use vstd::prelude::*;

verus! {

/// Directory, relative to the working directory, that holds the six face images.
pub const SKYBOX_DIR: &'static str = "assets/skybox/";

/// Edge length, in texels, of each face of the cube texture the skybox samples.
pub const CUBEMAP_SIZE: u32 = 512;

/// Number of vertices in the skybox mesh: four per face, none shared.
pub const VERTEX_COUNT: usize = 24;

/// Number of indices in the skybox mesh: two triangles per face.
pub const INDEX_COUNT: usize = 36;

/// A face of the cube, named by the axis direction it faces.
#[derive(Clone, Copy, Debug, PartialEq, Eq, Structural)]
pub enum CubeFace {
    PositiveX,
    NegativeX,
    PositiveY,
    NegativeY,
    PositiveZ,
    NegativeZ,
}

/// Position of a face in the order the face images are loaded.
pub open spec fn face_index_spec(f: CubeFace) -> int {
    match f {
        CubeFace::PositiveX => 0,
        CubeFace::NegativeX => 1,
        CubeFace::PositiveY => 2,
        CubeFace::NegativeY => 3,
        CubeFace::PositiveZ => 4,
        CubeFace::NegativeZ => 5,
    }
}

/// File name, inside `SKYBOX_DIR`, of the image for a face.
pub open spec fn image_file_spec(f: CubeFace) -> Seq<char> {
    match f {
        CubeFace::PositiveX => "right.png"@,
        CubeFace::NegativeX => "left.png"@,
        CubeFace::PositiveY => "top.png"@,
        CubeFace::NegativeY => "bottom.png"@,
        CubeFace::PositiveZ => "front.png"@,
        CubeFace::NegativeZ => "back.png"@,
    }
}

/// The loaded image copied into each layer of the cube texture. The two
/// vertical faces are crossed over: the top layer receives the bottom
/// image and the bottom layer the top one, which is how the bundled
/// images are meant to be seen.
pub open spec fn blit_source_spec(layer: CubeFace) -> CubeFace {
    match layer {
        CubeFace::PositiveY => CubeFace::NegativeY,
        CubeFace::NegativeY => CubeFace::PositiveY,
        _ => layer,
    }
}

impl CubeFace {
    /// Position of the face in load order.
    pub fn index(&self) -> (r: usize)
        ensures
            r as int == face_index_spec(*self),
    {
        match self {
            CubeFace::PositiveX => 0,
            CubeFace::NegativeX => 1,
            CubeFace::PositiveY => 2,
            CubeFace::NegativeY => 3,
            CubeFace::PositiveZ => 4,
            CubeFace::NegativeZ => 5,
        }
    }

    /// File name of the face's image.
    pub fn image_file(&self) -> (r: &'static str)
        ensures
            r@ == image_file_spec(*self),
    {
        match self {
            CubeFace::PositiveX => "right.png",
            CubeFace::NegativeX => "left.png",
            CubeFace::PositiveY => "top.png",
            CubeFace::NegativeY => "bottom.png",
            CubeFace::PositiveZ => "front.png",
            CubeFace::NegativeZ => "back.png",
        }
    }

    /// The loaded image that fills this layer of the cube texture.
    pub fn blit_source(&self) -> (r: CubeFace)
        ensures
            r == blit_source_spec(*self),
    {
        match self {
            CubeFace::PositiveY => CubeFace::NegativeY,
            CubeFace::NegativeY => CubeFace::PositiveY,
            _ => *self,
        }
    }
}

/// A vertex of the skybox mesh as the signs of its coordinates: the
/// vertex sits at `(x, y, z)` times half the far-plane distance.
#[derive(Clone, Copy, Debug, PartialEq, Eq, Structural)]
pub struct Corner {
    pub x: i8,
    pub y: i8,
    pub z: i8,
}

/// The face that the mesh's vertices `4 * b .. 4 * b + 4` and triangles
/// `2 * b`, `2 * b + 1` cover.
pub open spec fn mesh_face_spec(b: int) -> CubeFace {
    if b == 0 {
        CubeFace::PositiveZ
    } else if b == 1 {
        CubeFace::PositiveX
    } else if b == 2 {
        CubeFace::NegativeZ
    } else if b == 3 {
        CubeFace::NegativeX
    } else if b == 4 {
        CubeFace::NegativeY
    } else {
        CubeFace::PositiveY
    }
}

/// Vertex `i` of the skybox mesh: four corners per face, each face's
/// corners taken in turn around it.
pub open spec fn corner_spec(i: int) -> Corner {
    if i == 0 {
        Corner { x: -1i8, y: -1i8, z: 1i8 }
    } else if i == 1 {
        Corner { x: 1i8, y: -1i8, z: 1i8 }
    } else if i == 2 {
        Corner { x: 1i8, y: 1i8, z: 1i8 }
    } else if i == 3 {
        Corner { x: -1i8, y: 1i8, z: 1i8 }
    } else if i == 4 {
        Corner { x: 1i8, y: -1i8, z: 1i8 }
    } else if i == 5 {
        Corner { x: 1i8, y: -1i8, z: -1i8 }
    } else if i == 6 {
        Corner { x: 1i8, y: 1i8, z: -1i8 }
    } else if i == 7 {
        Corner { x: 1i8, y: 1i8, z: 1i8 }
    } else if i == 8 {
        Corner { x: -1i8, y: -1i8, z: -1i8 }
    } else if i == 9 {
        Corner { x: -1i8, y: 1i8, z: -1i8 }
    } else if i == 10 {
        Corner { x: 1i8, y: 1i8, z: -1i8 }
    } else if i == 11 {
        Corner { x: 1i8, y: -1i8, z: -1i8 }
    } else if i == 12 {
        Corner { x: -1i8, y: -1i8, z: 1i8 }
    } else if i == 13 {
        Corner { x: -1i8, y: 1i8, z: 1i8 }
    } else if i == 14 {
        Corner { x: -1i8, y: 1i8, z: -1i8 }
    } else if i == 15 {
        Corner { x: -1i8, y: -1i8, z: -1i8 }
    } else if i == 16 {
        Corner { x: -1i8, y: -1i8, z: 1i8 }
    } else if i == 17 {
        Corner { x: -1i8, y: -1i8, z: -1i8 }
    } else if i == 18 {
        Corner { x: 1i8, y: -1i8, z: -1i8 }
    } else if i == 19 {
        Corner { x: 1i8, y: -1i8, z: 1i8 }
    } else if i == 20 {
        Corner { x: -1i8, y: 1i8, z: 1i8 }
    } else if i == 21 {
        Corner { x: 1i8, y: 1i8, z: 1i8 }
    } else if i == 22 {
        Corner { x: 1i8, y: 1i8, z: -1i8 }
    } else {
        Corner { x: -1i8, y: 1i8, z: -1i8 }
    }
}

/// Index `i` of the skybox's triangle list: within the `b`-th group of
/// six, the triangles `(0, 2, 1)` and `(0, 3, 2)` over vertices `4 * b ..`.
pub open spec fn index_spec(i: int) -> int {
    let k = i % 6;
    4 * (i / 6) + if k == 0 || k == 3 {
        0int
    } else if k == 2 {
        1int
    } else if k == 4 {
        3int
    } else {
        2int
    }
}

/// Where vertex `i` lies when the cube's half edge is `half`.
pub open spec fn vertex_position(i: int, half: int) -> (int, int, int) {
    let c = corner_spec(i);
    (c.x * half, c.y * half, c.z * half)
}

fn corner_at(i: usize) -> (r: Corner)
    requires
        i < VERTEX_COUNT,
    ensures
        r == corner_spec(i as int),
{
    match i {
        0 => Corner { x: -1i8, y: -1i8, z: 1i8 },
        1 => Corner { x: 1i8, y: -1i8, z: 1i8 },
        2 => Corner { x: 1i8, y: 1i8, z: 1i8 },
        3 => Corner { x: -1i8, y: 1i8, z: 1i8 },
        4 => Corner { x: 1i8, y: -1i8, z: 1i8 },
        5 => Corner { x: 1i8, y: -1i8, z: -1i8 },
        6 => Corner { x: 1i8, y: 1i8, z: -1i8 },
        7 => Corner { x: 1i8, y: 1i8, z: 1i8 },
        8 => Corner { x: -1i8, y: -1i8, z: -1i8 },
        9 => Corner { x: -1i8, y: 1i8, z: -1i8 },
        10 => Corner { x: 1i8, y: 1i8, z: -1i8 },
        11 => Corner { x: 1i8, y: -1i8, z: -1i8 },
        12 => Corner { x: -1i8, y: -1i8, z: 1i8 },
        13 => Corner { x: -1i8, y: 1i8, z: 1i8 },
        14 => Corner { x: -1i8, y: 1i8, z: -1i8 },
        15 => Corner { x: -1i8, y: -1i8, z: -1i8 },
        16 => Corner { x: -1i8, y: -1i8, z: 1i8 },
        17 => Corner { x: -1i8, y: -1i8, z: -1i8 },
        18 => Corner { x: 1i8, y: -1i8, z: -1i8 },
        19 => Corner { x: 1i8, y: -1i8, z: 1i8 },
        20 => Corner { x: -1i8, y: 1i8, z: 1i8 },
        21 => Corner { x: 1i8, y: 1i8, z: 1i8 },
        22 => Corner { x: 1i8, y: 1i8, z: -1i8 },
        _ => Corner { x: -1i8, y: 1i8, z: -1i8 },
    }
}

/// The 24 vertices of the skybox mesh, as coordinate signs.
pub fn skybox_corners() -> (r: Vec<Corner>)
    ensures
        r@.len() == VERTEX_COUNT,
        forall|i: int| 0 <= i < VERTEX_COUNT ==> #[trigger] r@[i] == corner_spec(i),
{
    let mut r: Vec<Corner> = Vec::new();
    for i in 0..VERTEX_COUNT
        invariant
            r@.len() == i,
            forall|j: int| 0 <= j < i ==> #[trigger] r@[j] == corner_spec(j),
    {
        r.push(corner_at(i));
    }
    r
}

/// The skybox's triangle list: 12 triangles, two per face.
pub fn skybox_indices() -> (r: Vec<u16>)
    ensures
        r@.len() == INDEX_COUNT,
        forall|i: int| 0 <= i < INDEX_COUNT ==> #[trigger] r@[i] as int == index_spec(i),
{
    let mut r: Vec<u16> = Vec::new();
    for b in 0..6u16
        invariant
            r@.len() == 6 * b,
            forall|i: int| 0 <= i < 6 * b ==> #[trigger] r@[i] as int == index_spec(i),
    {
        let base: u16 = 4 * b;
        r.push(base);
        r.push(base + 2);
        r.push(base + 1);
        r.push(base);
        r.push(base + 3);
        r.push(base + 2);
        assert forall|i: int| 0 <= i < 6 * (b + 1) implies #[trigger] r@[i] as int == index_spec(i) by {
            if i >= 6 * b {
                assert(i / 6 == b as int);
                assert(i % 6 == i - 6 * b);
            }
        }
    }
    r
}

/// Whether a vertex lies on the plane of a face.
pub open spec fn on_face(c: Corner, f: CubeFace) -> bool {
    match f {
        CubeFace::PositiveX => c.x == 1,
        CubeFace::NegativeX => c.x == -1,
        CubeFace::PositiveY => c.y == 1,
        CubeFace::NegativeY => c.y == -1,
        CubeFace::PositiveZ => c.z == 1,
        CubeFace::NegativeZ => c.z == -1,
    }
}

/// Whether a direction points from a face into the cube.
pub open spec fn points_inward(n: (int, int, int), f: CubeFace) -> bool {
    match f {
        CubeFace::PositiveX => n.0 < 0,
        CubeFace::NegativeX => n.0 > 0,
        CubeFace::PositiveY => n.1 < 0,
        CubeFace::NegativeY => n.1 > 0,
        CubeFace::PositiveZ => n.2 < 0,
        CubeFace::NegativeZ => n.2 > 0,
    }
}

/// Normal of triangle `t` of the mesh, by the right-hand rule over its
/// vertices in list order (in units of the half edge, squared).
pub open spec fn triangle_normal(t: int) -> (int, int, int) {
    let a = corner_spec(index_spec(3 * t));
    let b = corner_spec(index_spec(3 * t + 1));
    let c = corner_spec(index_spec(3 * t + 2));
    let (ux, uy, uz) = (b.x - a.x, b.y - a.y, b.z - a.z);
    let (vx, vy, vz) = (c.x - a.x, c.y - a.y, c.z - a.z);
    (uy * vz - uz * vy, uz * vx - ux * vz, ux * vy - uy * vx)
}

/// Each coordinate of every vertex is `1` or `-1`: the mesh's vertices are
/// corners of the cube.
pub proof fn lemma_corners_are_cube_corners()
    ensures
        forall|i: int|
            0 <= i < VERTEX_COUNT ==> {
                let c = #[trigger] corner_spec(i);
                &&& (c.x == 1 || c.x == -1)
                &&& (c.y == 1 || c.y == -1)
                &&& (c.z == 1 || c.z == -1)
            },
{
}

/// Doubling the cube's half edge doubles every coordinate of every vertex;
/// each coordinate's magnitude is the half edge.
pub proof fn lemma_vertices_scale_linearly(half: int)
    ensures
        forall|i: int|
            0 <= i < VERTEX_COUNT ==> {
                let p = #[trigger] vertex_position(i, half);
                let q = vertex_position(i, 2 * half);
                &&& q == (2 * p.0, 2 * p.1, 2 * p.2)
                &&& abs(p.0) == abs(half) && abs(p.1) == abs(half) && abs(p.2) == abs(half)
            },
{
    lemma_corners_are_cube_corners();
    assert forall|i: int| 0 <= i < VERTEX_COUNT implies {
        let p = #[trigger] vertex_position(i, half);
        let q = vertex_position(i, 2 * half);
        &&& q == (2 * p.0, 2 * p.1, 2 * p.2)
        &&& abs(p.0) == abs(half) && abs(p.1) == abs(half) && abs(p.2) == abs(half)
    } by {
        let c = corner_spec(i);
        assert(c.x == 1 || c.x == -1);
        assert(c.y == 1 || c.y == -1);
        assert(c.z == 1 || c.z == -1);
    }
}

/// The mesh covers the cube face by face: the vertices `4 * b .. 4 * b + 4`
/// lie on face `mesh_face_spec(b)`, triangles `2 * b` and `2 * b + 1` use
/// only those vertices, and each triangle's normal points into the cube,
/// so a viewer inside sees it counter-clockwise and clockwise culling keeps it.
#[verifier::nonlinear]
pub proof fn lemma_mesh_encloses_viewer()
    ensures
        forall|i: int|
            0 <= i < VERTEX_COUNT ==> on_face(#[trigger] corner_spec(i), mesh_face_spec(i / 4)),
        forall|t: int, k: int|
            0 <= t < 12 && 0 <= k < 3 ==> #[trigger] index_spec(3 * t + k) / 4 == t / 2,
        forall|t: int|
            0 <= t < 12 ==> {
                let n = #[trigger] triangle_normal(t);
                points_inward(n, mesh_face_spec(t / 2))
            },
{
    assert forall|i: int| 0 <= i < VERTEX_COUNT implies on_face(#[trigger] corner_spec(i), mesh_face_spec(i / 4)) by {
        if i < 4 {
            assert(i / 4 == 0);
        } else if i < 8 {
            assert(i / 4 == 1);
        } else if i < 12 {
            assert(i / 4 == 2);
        } else if i < 16 {
            assert(i / 4 == 3);
        } else if i < 20 {
            assert(i / 4 == 4);
        } else if i < 24 {
            assert(i / 4 == 5);
        }
    }
    assert forall|t: int, k: int| 0 <= t < 12 && 0 <= k < 3 implies #[trigger] index_spec(3 * t + k) / 4 == t / 2 by {
        let i = 3 * t + k;
        assert(i / 6 == t / 2);
        let j = i % 6;
        assert(0 <= j < 6);
    }
    assert forall|t: int| 0 <= t < 12 implies {
        let n = #[trigger] triangle_normal(t);
        points_inward(n, mesh_face_spec(t / 2))
    } by {
        if t < 2 {
            assert(t / 2 == 0);
        } else if t < 4 {
            assert(t / 2 == 1);
        } else if t < 6 {
            assert(t / 2 == 2);
        } else if t < 8 {
            assert(t / 2 == 3);
        } else if t < 10 {
            assert(t / 2 == 4);
        } else if t < 12 {
            assert(t / 2 == 5);
        }
    }
}

/// All six faces in load order.
pub fn faces() -> (r: Vec<CubeFace>)
    ensures
        r@.len() == 6,
        forall|i: int| 0 <= i < 6 ==> face_index_spec(#[trigger] r@[i]) == i,
{
    let r = vec![
        CubeFace::PositiveX,
        CubeFace::NegativeX,
        CubeFace::PositiveY,
        CubeFace::NegativeY,
        CubeFace::PositiveZ,
        CubeFace::NegativeZ,
    ];
    r
}

} // verus!
