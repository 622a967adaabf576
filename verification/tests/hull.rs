use gerstner_water::hull::{
    box_indices, corner_signs, CornerSigns, BOX_TRIANGLE_COUNT, BOX_VERTEX_COUNT,
};

#[test]
fn box_index_list() {
    let expected: Vec<u32> = vec![
        0, 1, 2, 2, 3, 0, //
        4, 6, 5, 6, 4, 7, //
        0, 4, 5, 5, 1, 0, //
        1, 5, 6, 6, 2, 1, //
        2, 6, 7, 7, 3, 2, //
        3, 7, 4, 4, 0, 3,
    ];
    assert_eq!(box_indices(), expected);
    assert_eq!(box_indices().len(), 3 * BOX_TRIANGLE_COUNT);
}

#[test]
fn box_corners_lie_on_the_expected_sides() {
    let expected = [
        (-1, -1, -1),
        (1, -1, -1),
        (1, -1, 1),
        (-1, -1, 1),
        (-1, 1, -1),
        (1, 1, -1),
        (1, 1, 1),
        (-1, 1, 1),
    ];
    for (corner, (length, thickness, width)) in expected.iter().enumerate() {
        assert_eq!(
            corner_signs(corner),
            Some(CornerSigns { length: *length, thickness: *thickness, width: *width })
        );
    }
    assert_eq!(corner_signs(BOX_VERTEX_COUNT), None);
    assert_eq!(corner_signs(usize::MAX), None);
}

#[test]
fn box_triangles_lie_on_faces() {
    let indices = box_indices();
    for triangle in indices.chunks(3) {
        let a = corner_signs(triangle[0] as usize).unwrap();
        let b = corner_signs(triangle[1] as usize).unwrap();
        let c = corner_signs(triangle[2] as usize).unwrap();
        assert!(triangle[0] != triangle[1] && triangle[0] != triangle[2]);
        assert!(triangle[1] != triangle[2]);
        let on_face = (a.length == b.length && b.length == c.length)
            || (a.thickness == b.thickness && b.thickness == c.thickness)
            || (a.width == b.width && b.width == c.width);
        assert!(on_face);
    }
}

#[test]
fn box_faces_have_two_triangles_each() {
    let indices = box_indices();
    let mut per_face = [0u32; 6];
    for triangle in indices.chunks(3) {
        let a = corner_signs(triangle[0] as usize).unwrap();
        let b = corner_signs(triangle[1] as usize).unwrap();
        let c = corner_signs(triangle[2] as usize).unwrap();
        if a.length == b.length && b.length == c.length {
            per_face[if a.length < 0 { 0 } else { 1 }] += 1;
        } else if a.thickness == b.thickness && b.thickness == c.thickness {
            per_face[if a.thickness < 0 { 2 } else { 3 }] += 1;
        } else {
            assert!(a.width == b.width && b.width == c.width);
            per_face[if a.width < 0 { 4 } else { 5 }] += 1;
        }
    }
    assert_eq!(per_face, [2, 2, 2, 2, 2, 2]);
}
