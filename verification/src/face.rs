//! The six faces of a unit cube and the quad that each one spans.

use vstd::prelude::*;

verus! {

/// Component-wise sum of two lattice vectors.
pub open spec fn vec_add(a: (int, int, int), b: (int, int, int)) -> (int, int, int) {
    (a.0 + b.0, a.1 + b.1, a.2 + b.2)
}

/// Component-wise difference of two lattice vectors.
pub open spec fn vec_sub(a: (int, int, int), b: (int, int, int)) -> (int, int, int) {
    (a.0 - b.0, a.1 - b.1, a.2 - b.2)
}

/// Dot product of two lattice vectors.
pub open spec fn dot(a: (int, int, int), b: (int, int, int)) -> int {
    a.0 * b.0 + a.1 * b.1 + a.2 * b.2
}

/// Cross product of two lattice vectors.
pub open spec fn cross(a: (int, int, int), b: (int, int, int)) -> (int, int, int) {
    (a.1 * b.2 - a.2 * b.1, a.2 * b.0 - a.0 * b.2, a.0 * b.1 - a.1 * b.0)
}

/// Whether the `k`-th corner of a quad lies at the far end of the quad's `u` edge.
pub open spec fn far_along_u(k: int) -> bool {
    k == 1 || k == 2
}

/// Whether the `k`-th corner of a quad lies at the far end of the quad's `v` edge.
pub open spec fn far_along_v(k: int) -> bool {
    k == 2 || k == 3
}

/// Texture coordinate of the `k`-th corner of a quad. Going through
/// `k = 0, 1, 2, 3` gives `(0,0), (1,0), (1,1), (0,1)`: a counter-clockwise
/// walk round the unit square.
pub open spec fn spec_uv(k: int) -> (int, int) {
    (if far_along_u(k) { 1int } else { 0int }, if far_along_v(k) { 1int } else { 0int })
}

/// Which corner of a quad the `j`-th index of its two triangles refers to:
/// the triangles are corners `0, 1, 2` and `0, 2, 3`.
pub open spec fn spec_triangle_corner(j: int) -> int {
    if j == 0 || j == 3 {
        0
    } else if j == 1 {
        1
    } else if j == 2 || j == 4 {
        2
    } else {
        3
    }
}

/// One of the six axis-aligned faces of a cell.
#[derive(Clone, Copy, Debug, PartialEq, Eq, Hash, Structural)]
pub enum Face {
    /// Facing `+y`.
    Top,
    /// Facing `-y`.
    Bottom,
    /// Facing `+x`.
    Right,
    /// Facing `-x`.
    Left,
    /// Facing `+z`.
    Back,
    /// Facing `-z`.
    Front,
}

impl Face {
    /// The outward unit normal, which is also the step from a cell to the
    /// neighbour that lies across this face.
    pub open spec fn spec_normal(self) -> (int, int, int) {
        match self {
            Face::Top => (0, 1, 0),
            Face::Bottom => (0, -1, 0),
            Face::Right => (1, 0, 0),
            Face::Left => (-1, 0, 0),
            Face::Back => (0, 0, 1),
            Face::Front => (0, 0, -1),
        }
    }

    /// The place of the face in the order in which the faces of a cell are
    /// visited: top, bottom, right, left, back, front.
    pub open spec fn rank(self) -> int {
        match self {
            Face::Top => 0,
            Face::Bottom => 1,
            Face::Right => 2,
            Face::Left => 3,
            Face::Back => 4,
            Face::Front => 5,
        }
    }

    /// The face on the other side of the cube.
    pub open spec fn spec_opposite(self) -> Face {
        match self {
            Face::Top => Face::Bottom,
            Face::Bottom => Face::Top,
            Face::Right => Face::Left,
            Face::Left => Face::Right,
            Face::Back => Face::Front,
            Face::Front => Face::Back,
        }
    }

    /// Corner 0 of the quad, relative to the cell's minimum corner.
    pub open spec fn origin(self) -> (int, int, int) {
        match self {
            Face::Top => (0, 1, 0),
            Face::Right => (1, 0, 0),
            Face::Back => (0, 0, 1),
            Face::Bottom | Face::Left | Face::Front => (0, 0, 0),
        }
    }

    /// The edge of the quad from corner 0 to corner 1; texture `u` runs along it.
    pub open spec fn edge_u(self) -> (int, int, int) {
        match self {
            Face::Top | Face::Left => (0, 0, 1),
            Face::Bottom | Face::Back => (1, 0, 0),
            Face::Right | Face::Front => (0, 1, 0),
        }
    }

    /// The edge of the quad from corner 0 to corner 3; texture `v` runs along it.
    pub open spec fn edge_v(self) -> (int, int, int) {
        match self {
            Face::Top | Face::Front => (1, 0, 0),
            Face::Bottom | Face::Right => (0, 0, 1),
            Face::Left | Face::Back => (0, 1, 0),
        }
    }

    /// The `k`-th corner of the quad, relative to the cell's minimum corner:
    /// the origin, moved along each edge at whose far end the corner lies.
    pub open spec fn spec_corner(self, k: int) -> (int, int, int) {
        let along_u = if far_along_u(k) { self.edge_u() } else { (0, 0, 0) };
        let along_v = if far_along_v(k) { self.edge_v() } else { (0, 0, 0) };
        vec_add(vec_add(self.origin(), along_u), along_v)
    }

    /// The outward unit normal of this face.
    pub fn normal(self) -> (n: (i8, i8, i8))
        ensures
            (n.0 as int, n.1 as int, n.2 as int) == self.spec_normal(),
    {
        match self {
            Face::Top => (0, 1, 0),
            Face::Bottom => (0, -1, 0),
            Face::Right => (1, 0, 0),
            Face::Left => (-1, 0, 0),
            Face::Back => (0, 0, 1),
            Face::Front => (0, 0, -1),
        }
    }

    /// The face on the other side of the cube.
    pub fn opposite(self) -> (f: Face)
        ensures
            f == self.spec_opposite(),
    {
        match self {
            Face::Top => Face::Bottom,
            Face::Bottom => Face::Top,
            Face::Right => Face::Left,
            Face::Left => Face::Right,
            Face::Back => Face::Front,
            Face::Front => Face::Back,
        }
    }

    /// The `k`-th corner of the quad, relative to the cell's minimum corner.
    pub fn corner(self, k: u8) -> (c: (u8, u8, u8))
        requires
            k < 4,
        ensures
            (c.0 as int, c.1 as int, c.2 as int) == self.spec_corner(k as int),
    {
        let far_u = k == 1 || k == 2;
        let far_v = k == 2 || k == 3;
        let (mut x, mut y, mut z): (u8, u8, u8) = match self {
            Face::Top => (0, 1, 0),
            Face::Right => (1, 0, 0),
            Face::Back => (0, 0, 1),
            Face::Bottom | Face::Left | Face::Front => (0, 0, 0),
        };
        if far_u {
            match self {
                Face::Top | Face::Left => { z = z + 1; },
                Face::Bottom | Face::Back => { x = x + 1; },
                Face::Right | Face::Front => { y = y + 1; },
            }
        }
        if far_v {
            match self {
                Face::Top | Face::Front => { x = x + 1; },
                Face::Bottom | Face::Right => { z = z + 1; },
                Face::Left | Face::Back => { y = y + 1; },
            }
        }
        (x, y, z)
    }
}

/// Texture coordinate of the `k`-th corner of a quad.
pub fn uv(k: u8) -> (t: (u8, u8))
    requires
        k < 4,
    ensures
        (t.0 as int, t.1 as int) == spec_uv(k as int),
{
    let s: u8 = if k == 1 || k == 2 { 1 } else { 0 };
    let t: u8 = if k == 2 || k == 3 { 1 } else { 0 };
    (s, t)
}

/// Which corner of a quad the `j`-th index of its two triangles refers to.
pub fn triangle_corner(j: u8) -> (k: u8)
    requires
        j < 6,
    ensures
        k < 4,
        k as int == spec_triangle_corner(j as int),
{
    if j == 0 || j == 3 {
        0
    } else if j == 1 {
        1
    } else if j == 2 || j == 4 {
        2
    } else {
        3
    }
}

/// Opposite faces look in opposite directions, and the opposite of the
/// opposite is the face itself.
pub proof fn lemma_opposite_reverses_normal(face: Face)
    ensures
        face.spec_opposite().spec_normal() == vec_sub((0, 0, 0), face.spec_normal()),
        face.spec_opposite().spec_opposite() == face,
{
}

/// The quad of a face is that face of the unit cube: its four corners are
/// distinct corners of the cube, and they lie in the cube's far plane along
/// the normal where the normal points up the axis, in the near plane where it
/// points down.
pub proof fn lemma_quad_is_the_face(face: Face)
    ensures
        forall|k: int|
            0 <= k < 4 ==> {
                let c = #[trigger] face.spec_corner(k);
                &&& 0 <= c.0 <= 1 && 0 <= c.1 <= 1 && 0 <= c.2 <= 1
                &&& dot(c, face.spec_normal()) == if dot((1, 1, 1), face.spec_normal()) > 0 {
                    1int
                } else {
                    0int
                }
            },
        forall|j: int, k: int|
            0 <= j < k < 4 ==> #[trigger] face.spec_corner(j) != #[trigger] face.spec_corner(k),
{
    let n = face.spec_normal();
    assert forall|k: int| 0 <= k < 4 implies dot(#[trigger] face.spec_corner(k), n) == if dot(
        (1, 1, 1),
        n,
    ) > 0 {
        1int
    } else {
        0int
    } by {
        match face {
            Face::Top => assert(n == (0int, 1int, 0int)),
            Face::Bottom => assert(n == (0int, -1int, 0int)),
            Face::Right => assert(n == (1int, 0int, 0int)),
            Face::Left => assert(n == (-1int, 0int, 0int)),
            Face::Back => assert(n == (0int, 0int, 1int)),
            Face::Front => assert(n == (0int, 0int, -1int)),
        }
    }
}

/// The cross product of the first two edges of triangle `t` of a face's
/// quad, taken in the order in which the indices name the corners.
pub open spec fn triangle_normal(face: Face, t: int) -> (int, int, int) {
    let a = face.spec_corner(spec_triangle_corner(3 * t));
    let b = face.spec_corner(spec_triangle_corner(3 * t + 1));
    let c = face.spec_corner(spec_triangle_corner(3 * t + 2));
    cross(vec_sub(b, a), vec_sub(c, b))
}

/// Both triangles of a quad wind counter-clockwise when seen from outside
/// the cell: the cross product of two successive edges of each triangle is
/// the face's outward normal, and so is that of the quad's two edges.
pub proof fn lemma_triangles_face_outward(face: Face)
    ensures
        cross(face.edge_u(), face.edge_v()) == face.spec_normal(),
        triangle_normal(face, 0) == face.spec_normal(),
        triangle_normal(face, 1) == face.spec_normal(),
{
    let u = face.edge_u();
    let v = face.edge_v();
    assert(vec_sub(face.spec_corner(1), face.spec_corner(0)) == u);
    assert(vec_sub(face.spec_corner(2), face.spec_corner(1)) == v);
    assert(vec_sub(face.spec_corner(2), face.spec_corner(0)) == vec_add(u, v));
    assert(vec_sub(face.spec_corner(3), face.spec_corner(2)) == vec_sub((0, 0, 0), u));
    match face {
        Face::Top => {
            assert(u == (0int, 0int, 1int) && v == (1int, 0int, 0int));
            assert(cross((0int, 0int, 1int), (1int, 0int, 0int)) == (0int, 1int, 0int));
            assert(cross((1int, 0int, 1int), (0int, 0int, -1int)) == (0int, 1int, 0int));
        },
        Face::Bottom => {
            assert(u == (1int, 0int, 0int) && v == (0int, 0int, 1int));
            assert(cross((1int, 0int, 0int), (0int, 0int, 1int)) == (0int, -1int, 0int));
            assert(cross((1int, 0int, 1int), (-1int, 0int, 0int)) == (0int, -1int, 0int));
        },
        Face::Right => {
            assert(u == (0int, 1int, 0int) && v == (0int, 0int, 1int));
            assert(cross((0int, 1int, 0int), (0int, 0int, 1int)) == (1int, 0int, 0int));
            assert(cross((0int, 1int, 1int), (0int, -1int, 0int)) == (1int, 0int, 0int));
        },
        Face::Left => {
            assert(u == (0int, 0int, 1int) && v == (0int, 1int, 0int));
            assert(cross((0int, 0int, 1int), (0int, 1int, 0int)) == (-1int, 0int, 0int));
            assert(cross((0int, 1int, 1int), (0int, 0int, -1int)) == (-1int, 0int, 0int));
        },
        Face::Back => {
            assert(u == (1int, 0int, 0int) && v == (0int, 1int, 0int));
            assert(cross((1int, 0int, 0int), (0int, 1int, 0int)) == (0int, 0int, 1int));
            assert(cross((1int, 1int, 0int), (-1int, 0int, 0int)) == (0int, 0int, 1int));
        },
        Face::Front => {
            assert(u == (0int, 1int, 0int) && v == (1int, 0int, 0int));
            assert(cross((0int, 1int, 0int), (1int, 0int, 0int)) == (0int, 0int, -1int));
            assert(cross((1int, 1int, 0int), (0int, -1int, 0int)) == (0int, 0int, -1int));
        },
    }
}

} // verus!
