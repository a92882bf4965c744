//! The unit cube as a list of triangles: six faces, each a square cut into
//! two triangles along one diagonal, thirty-six vertices in all.
//!
//! A coordinate is 0 or 1 and is kept as that integer.

use vstd::prelude::*;

verus! {

/// The number of faces.
pub const FACE_NUM: usize = 6;

/// The number of triangles, two on each face.
pub const TRIANGLE_NUM: usize = 12;

/// The number of vertices, three for each triangle.
pub const VERTEX_NUM: usize = 36;

/// The number of coordinates of one vertex.
pub const COMPONENT_NUM: usize = 3;

/// The number of coordinates of all vertices together.
pub const BUF_LEN: usize = 108;

/// A corner of the cube.
#[derive(Clone, Copy, Debug, PartialEq, Eq, Structural)]
pub struct Corner {
    pub x: u8,
    pub y: u8,
    pub z: u8,
}

impl Corner {
    /// The coordinate along an axis: 0 for `x`, 1 for `y`, anything else for `z`.
    pub open spec fn spec_component(self, axis: int) -> u8 {
        if axis == 0 {
            self.x
        } else if axis == 1 {
            self.y
        } else {
            self.z
        }
    }

    /// The coordinate along an axis: 0 for `x`, 1 for `y`, anything else for `z`.
    pub fn component(&self, axis: usize) -> (r: u8)
        ensures
            r == self.spec_component(axis as int),
    {
        if axis == 0 {
            self.x
        } else if axis == 1 {
            self.y
        } else {
            self.z
        }
    }
}

/// The corner with the given coordinates.
pub open spec fn at(x: u8, y: u8, z: u8) -> Corner {
    Corner { x, y, z }
}

/// The four corners of each face, in the order in which one walks round it.
pub open spec fn spec_face_corner(face: int, k: int) -> Corner {
    if face == 0 {
        if k == 0 { at(0, 0, 0) } else if k == 1 { at(0, 1, 0) } else if k == 2 { at(1, 1, 0) } else { at(1, 0, 0) }
    } else if face == 1 {
        if k == 0 { at(0, 0, 1) } else if k == 1 { at(0, 0, 0) } else if k == 2 { at(1, 0, 0) } else { at(1, 0, 1) }
    } else if face == 2 {
        if k == 0 { at(0, 1, 1) } else if k == 1 { at(0, 0, 1) } else if k == 2 { at(1, 0, 1) } else { at(1, 1, 1) }
    } else if face == 3 {
        if k == 0 { at(0, 1, 0) } else if k == 1 { at(0, 1, 1) } else if k == 2 { at(1, 1, 1) } else { at(1, 1, 0) }
    } else if face == 4 {
        if k == 0 { at(1, 0, 1) } else if k == 1 { at(1, 0, 0) } else if k == 2 { at(1, 1, 0) } else { at(1, 1, 1) }
    } else {
        if k == 0 { at(0, 1, 1) } else if k == 1 { at(0, 1, 0) } else if k == 2 { at(0, 0, 0) } else { at(0, 0, 1) }
    }
}

/// Which corner of its face each of the six vertices of a face is: the
/// first triangle takes corners 0, 1, 2 and the second 0, 2, 3.
pub open spec fn spec_slot_corner(slot: int) -> int {
    if slot == 0 || slot == 3 {
        0
    } else if slot == 1 {
        1
    } else if slot == 2 || slot == 4 {
        2
    } else {
        3
    }
}

/// The vertex with index `i`: faces follow one another, six vertices each.
pub open spec fn spec_vertex(i: int) -> Corner {
    spec_face_corner(i / 6, spec_slot_corner(i % 6))
}

/// All coordinates in the order in which they are uploaded: vertex after
/// vertex, `x`, `y`, `z` of each.
pub open spec fn coordinates() -> Seq<u8> {
    Seq::new(108, |j: int| spec_vertex(j / 3).spec_component(j % 3))
}

/// The axis that a face is perpendicular to.
pub open spec fn face_axis(face: int) -> int {
    if face == 0 || face == 2 {
        2
    } else if face == 1 || face == 3 {
        1
    } else {
        0
    }
}

/// The coordinate, along its axis, of the plane that a face lies in.
pub open spec fn face_value(face: int) -> u8 {
    if face == 0 || face == 1 || face == 5 {
        0
    } else {
        1
    }
}

/// Whether a corner lies in the plane of a face.
pub open spec fn on_face(corner: Corner, face: int) -> bool {
    corner.spec_component(face_axis(face)) == face_value(face)
}

/// Whether all three vertices of the triangle with index `t` lie in the
/// plane of a face.
pub open spec fn triangle_on_face(t: int, face: int) -> bool {
    on_face(spec_vertex(3 * t), face) && on_face(spec_vertex(3 * t + 1), face) && on_face(
        spec_vertex(3 * t + 2),
        face,
    )
}

/// One of the four corners of a face.
pub fn face_corner(face: usize, k: usize) -> (r: Corner)
    requires
        face < 6,
        k < 4,
    ensures
        r == spec_face_corner(face as int, k as int),
{
    // Each corner is packed as 4 * x + 2 * y + z.
    let c: u8 = if face == 0 {
        if k == 0 { 0 } else if k == 1 { 2 } else if k == 2 { 6 } else { 4 }
    } else if face == 1 {
        if k == 0 { 1 } else if k == 1 { 0 } else if k == 2 { 4 } else { 5 }
    } else if face == 2 {
        if k == 0 { 3 } else if k == 1 { 1 } else if k == 2 { 5 } else { 7 }
    } else if face == 3 {
        if k == 0 { 2 } else if k == 1 { 3 } else if k == 2 { 7 } else { 6 }
    } else if face == 4 {
        if k == 0 { 5 } else if k == 1 { 4 } else if k == 2 { 6 } else { 7 }
    } else {
        if k == 0 { 3 } else if k == 1 { 2 } else if k == 2 { 0 } else { 1 }
    };
    Corner { x: c / 4, y: (c / 2) % 2, z: c % 2 }
}

/// The vertex with index `i`.
pub fn vertex(i: usize) -> (r: Corner)
    requires
        i < 36,
    ensures
        r == spec_vertex(i as int),
{
    let slot: usize = i % 6;
    let k: usize = if slot == 0 || slot == 3 {
        0
    } else if slot == 1 {
        1
    } else if slot == 2 || slot == 4 {
        2
    } else {
        3
    };
    face_corner(i / 6, k)
}

/// All coordinates of the cube, ready to be turned into the numbers that
/// the vertex buffer holds.
pub fn cube_coordinates() -> (r: Vec<u8>)
    ensures
        r@ == coordinates(),
{
    let mut r: Vec<u8> = Vec::new();
    let mut i: usize = 0;
    while i < 36
        invariant
            0 <= i <= 36,
            r@.len() == 3 * i,
            forall|j: int| 0 <= j < 3 * i ==> r@[j] == spec_vertex(j / 3).spec_component(j % 3),
        decreases 36 - i,
    {
        let c = vertex(i);
        r.push(c.x);
        r.push(c.y);
        r.push(c.z);
        i = i + 1;
    }
    assert(r@ =~= coordinates());
    r
}

/// Every coordinate of every vertex is 0 or 1.
pub proof fn lemma_coordinates_binary()
    ensures
        coordinates().len() == 108,
        forall|j: int| 0 <= j < 108 ==> coordinates()[j] == 0 || coordinates()[j] == 1,
        forall|i: int, axis: int|
            0 <= i < 36 ==> (#[trigger] spec_vertex(i).spec_component(axis)) == 0 || spec_vertex(
                i,
            ).spec_component(axis) == 1,
{
}

/// No two faces lie in the same plane.
pub proof fn lemma_faces_distinct()
    ensures
        forall|f: int, g: int|
            0 <= f < 6 && 0 <= g < 6 && f != g ==> #[trigger] face_axis(f) != #[trigger] face_axis(g)
                || face_value(f) != face_value(g),
{
}

/// A triangle lies in the plane of exactly one face, the one with half its
/// index. So each face carries exactly two triangles: the triangles `2 * f`
/// and `2 * f + 1` lie on face `f`, and no other triangle does.
pub proof fn lemma_two_triangles_per_face()
    ensures
        forall|t: int, f: int|
            0 <= t < 12 && 0 <= f < 6 ==> (#[trigger] triangle_on_face(t, f) <==> f == t / 2),
        forall|f: int|
            0 <= f < 6 ==> #[trigger] triangle_on_face(2 * f, f) && triangle_on_face(2 * f + 1, f),
        forall|t: int, f: int|
            0 <= t < 12 && 0 <= f < 6 && #[trigger] triangle_on_face(t, f) ==> t == 2 * f || t == 2
                * f + 1,
{
    assert forall|f: int| 0 <= f < 6 implies #[trigger] triangle_on_face(2 * f, f)
        && triangle_on_face(2 * f + 1, f) by {
        lemma_triangle(2 * f, f);
        lemma_triangle(2 * f + 1, f);
    }
    assert forall|t: int, f: int|
        0 <= t < 12 && 0 <= f < 6 && #[trigger] triangle_on_face(t, f) implies t == 2 * f || t == 2
        * f + 1 by {
        lemma_triangle(t, f);
    }
    assert forall|t: int, f: int| 0 <= t < 12 && 0 <= f < 6 implies (#[trigger] triangle_on_face(
        t,
        f,
    ) <==> f == t / 2) by {
        lemma_triangle(t, f);
    }
}

proof fn lemma_triangle(t: int, f: int)
    requires
        0 <= t < 12,
        0 <= f < 6,
    ensures
        triangle_on_face(t, f) <==> f == t / 2,
{
    let face = t / 2;
    let half = t % 2;
    assert(t == 2 * face + half);
    assert((3 * t) / 6 == face && (3 * t + 1) / 6 == face && (3 * t + 2) / 6 == face);
    assert((3 * t) % 6 == 3 * half && (3 * t + 1) % 6 == 3 * half + 1 && (3 * t + 2) % 6 == 3
        * half + 2);
}

} // verus!
