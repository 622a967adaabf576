//! Topology of the box that stands for a floating board.
//!
//! The box has eight corners. Corners 0 to 3 form the bottom face and corners
//! 4 to 7 the top face; within a face the corners run from the front left
//! around the face. Twelve triangles, two per face, make up its surface.

use vstd::prelude::*;

verus! {

/// Number of corners of the box.
pub const BOX_VERTEX_COUNT: usize = 8;

/// Number of triangles of the box: two for each of its six faces.
pub const BOX_TRIANGLE_COUNT: usize = 12;

/// On which side of the centre a corner lies along each axis: `-1` or `1`
/// along the length, the thickness and the width of the box.
#[derive(Clone, Copy, Debug, PartialEq, Eq, Structural)]
pub struct CornerSigns {
    pub length: i8,
    pub thickness: i8,
    pub width: i8,
}

/// The sides on which corner `corner` lies.
pub open spec fn spec_corner_signs(corner: nat) -> CornerSigns {
    CornerSigns {
        length: if corner % 4 == 1 || corner % 4 == 2 {
            1i8
        } else {
            -1i8
        },
        thickness: if corner >= 4 {
            1i8
        } else {
            -1i8
        },
        width: if corner % 4 >= 2 {
            1i8
        } else {
            -1i8
        },
    }
}

/// The three corners of triangle `t`.
pub open spec fn spec_box_triangle(t: nat) -> (u32, u32, u32) {
    if t == 0 {
        (0u32, 1u32, 2u32)
    } else if t == 1 {
        (2u32, 3u32, 0u32)
    } else if t == 2 {
        (4u32, 6u32, 5u32)
    } else if t == 3 {
        (6u32, 4u32, 7u32)
    } else if t == 4 {
        (0u32, 4u32, 5u32)
    } else if t == 5 {
        (5u32, 1u32, 0u32)
    } else if t == 6 {
        (1u32, 5u32, 6u32)
    } else if t == 7 {
        (6u32, 2u32, 1u32)
    } else if t == 8 {
        (2u32, 6u32, 7u32)
    } else if t == 9 {
        (7u32, 3u32, 2u32)
    } else if t == 10 {
        (3u32, 7u32, 4u32)
    } else {
        (4u32, 0u32, 3u32)
    }
}

/// Entry `k` of the index list: corner `k % 3` of triangle `k / 3`.
pub open spec fn spec_box_index(k: nat) -> u32 {
    let triangle = spec_box_triangle(k / 3);
    if k % 3 == 0 {
        triangle.0
    } else if k % 3 == 1 {
        triangle.1
    } else {
        triangle.2
    }
}

/// The index list of the box: its twelve triangles, three corners each.
pub open spec fn spec_box_indices() -> Seq<u32> {
    Seq::new(36, |k: int| spec_box_index(k as nat))
}

/// The sides on which a corner of the box lies, or `None` where the box has no
/// such corner.
pub fn corner_signs(corner: usize) -> (signs: Option<CornerSigns>)
    ensures
        signs == if corner < BOX_VERTEX_COUNT {
            Some(spec_corner_signs(corner as nat))
        } else {
            None
        },
{
    if corner >= BOX_VERTEX_COUNT {
        return None;
    }
    let around: usize = corner % 4;
    let length: i8 = if around == 1 || around == 2 {
        1
    } else {
        -1
    };
    let thickness: i8 = if corner >= 4 {
        1
    } else {
        -1
    };
    let width: i8 = if around >= 2 {
        1
    } else {
        -1
    };
    Some(CornerSigns { length, thickness, width })
}

/// The index list of the box.
pub fn box_indices() -> (indices: Vec<u32>)
    ensures
        indices@ == spec_box_indices(),
{
    let indices: Vec<u32> = vec![
        0, 1, 2, 2, 3, 0,
        4, 6, 5, 6, 4, 7,
        0, 4, 5, 5, 1, 0,
        1, 5, 6, 6, 2, 1,
        2, 6, 7, 7, 3, 2,
        3, 7, 4, 4, 0, 3,
    ];
    assert(indices@ =~= spec_box_indices());
    indices
}

/// Every entry of the index list names a corner of the box.
pub proof fn lemma_box_index_in_range(k: nat)
    requires
        k < 36,
    ensures
        spec_box_index(k) < BOX_VERTEX_COUNT,
{
}

/// Every triangle of the box has three different corners, and all three lie
/// on one face: they are on the same side along at least one axis.
pub proof fn lemma_box_triangle_on_face(t: nat)
    requires
        t < BOX_TRIANGLE_COUNT,
    ensures
        ({
            let (a, b, c) = spec_box_triangle(t);
            let sa = spec_corner_signs(a as nat);
            let sb = spec_corner_signs(b as nat);
            let sc = spec_corner_signs(c as nat);
            &&& a != b && a != c && b != c
            &&& (sa.length == sb.length && sb.length == sc.length) || (sa.thickness
                == sb.thickness && sb.thickness == sc.thickness) || (sa.width == sb.width
                && sb.width == sc.width)
        }),
{
}

} // verus!
