use cube_demo::cube::{
    cube_coordinates, face_corner, vertex, Corner, BUF_LEN, COMPONENT_NUM, FACE_NUM, TRIANGLE_NUM,
    VERTEX_NUM,
};

const ZERO: f32 = 0.0;
const ONE: f32 = 1.0;

const TABLE: [f32; 108] = [
    ZERO, ZERO, ZERO,
    ZERO, ONE, ZERO,
    ONE, ONE, ZERO,

    ZERO, ZERO, ZERO,
    ONE, ONE, ZERO,
    ONE, ZERO, ZERO,

    ZERO, ZERO, ONE,
    ZERO, ZERO, ZERO,
    ONE, ZERO, ZERO,

    ZERO, ZERO, ONE,
    ONE, ZERO, ZERO,
    ONE, ZERO, ONE,

    ZERO, ONE, ONE,
    ZERO, ZERO, ONE,
    ONE, ZERO, ONE,

    ZERO, ONE, ONE,
    ONE, ZERO, ONE,
    ONE, ONE, ONE,

    ZERO, ONE, ZERO,
    ZERO, ONE, ONE,
    ONE, ONE, ONE,

    ZERO, ONE, ZERO,
    ONE, ONE, ONE,
    ONE, ONE, ZERO,

    ONE, ZERO, ONE,
    ONE, ZERO, ZERO,
    ONE, ONE, ZERO,

    ONE, ZERO, ONE,
    ONE, ONE, ZERO,
    ONE, ONE, ONE,

    ZERO, ONE, ONE,
    ZERO, ONE, ZERO,
    ZERO, ZERO, ZERO,

    ZERO, ONE, ONE,
    ZERO, ZERO, ZERO,
    ZERO, ZERO, ONE,
];

#[test]
fn cube_counts() {
    assert_eq!(FACE_NUM, 6);
    assert_eq!(TRIANGLE_NUM, 2 * FACE_NUM);
    assert_eq!(VERTEX_NUM, 3 * TRIANGLE_NUM);
    assert_eq!(COMPONENT_NUM, 3);
    assert_eq!(BUF_LEN, VERTEX_NUM * COMPONENT_NUM);
    assert_eq!(cube_coordinates().len(), 108);
}

#[test]
fn cube_coordinates_match_table() {
    let got: Vec<f32> = cube_coordinates().iter().map(|c| f32::from(*c)).collect();
    assert_eq!(got, TABLE.to_vec());
}

#[test]
fn cube_coordinates_are_binary() {
    for c in cube_coordinates() {
        assert!(c == 0 || c == 1);
    }
}

#[test]
fn cube_vertex_agrees_with_coordinates() {
    let all = cube_coordinates();
    for i in 0..36 {
        let v = vertex(i);
        assert_eq!([v.x, v.y, v.z], [all[3 * i], all[3 * i + 1], all[3 * i + 2]]);
        assert_eq!(v.component(0), v.x);
        assert_eq!(v.component(1), v.y);
        assert_eq!(v.component(2), v.z);
    }
}

#[test]
fn cube_first_and_last_vertex() {
    assert_eq!(vertex(0), Corner { x: 0, y: 0, z: 0 });
    assert_eq!(vertex(1), Corner { x: 0, y: 1, z: 0 });
    assert_eq!(vertex(5), Corner { x: 1, y: 0, z: 0 });
    assert_eq!(vertex(35), Corner { x: 0, y: 0, z: 1 });
    assert_eq!(face_corner(4, 3), Corner { x: 1, y: 1, z: 1 });
}

fn planes_of(t: usize) -> Vec<(usize, u8)> {
    let mut planes = Vec::new();
    for axis in 0..3 {
        for value in 0..2u8 {
            if (0..3).all(|k| vertex(3 * t + k).component(axis) == value) {
                planes.push((axis, value));
            }
        }
    }
    planes
}

#[test]
fn cube_each_face_has_two_triangles() {
    let mut count = [[0usize; 2]; 3];
    for t in 0..12 {
        let planes = planes_of(t);
        assert_eq!(planes.len(), 1, "triangle {} lies in one plane", t);
        let (axis, value) = planes[0];
        count[axis][usize::from(value)] += 1;
        assert_eq!(planes_of(t - t % 2), planes_of(t - t % 2 + 1));
    }
    assert_eq!(count, [[2, 2], [2, 2], [2, 2]]);
}

#[test]
fn cube_triangles_are_not_degenerate() {
    for t in 0..12 {
        let (a, b, c) = (vertex(3 * t), vertex(3 * t + 1), vertex(3 * t + 2));
        assert!(a != b && b != c && a != c);
    }
}
