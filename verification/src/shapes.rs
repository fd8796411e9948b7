use vstd::prelude::*;
use crate::vertex::Vertex;

verus! {

/// Channel intensity (hundredths) of the major grid lines: every tenth line.
pub const LIGHT_GRAY: u8 = 30;
/// Channel intensity (hundredths) of the minor grid lines.
pub const DARK_GRAY: u8 = 15;

/// Whether grid line index `i` is a major line: every tenth index, counted
/// by absolute value.
pub open spec fn is_major_line(i: int) -> bool {
    (if i < 0 { -i } else { i }) % 10 == 0
}

/// The colour of grid line index `i`: light gray on major lines, dark gray
/// on minor ones.
pub open spec fn line_color(i: int) -> (u8, u8, u8) {
    if is_major_line(i) {
        (LIGHT_GRAY, LIGHT_GRAY, LIGHT_GRAY)
    } else {
        (DARK_GRAY, DARK_GRAY, DARK_GRAY)
    }
}

/// The `j`th vertex of `grid(size)`, for `0 <= j < 4 * (2 * size + 1)`.
///
/// Vertices come in groups of four, one group per line index
/// `i in [-size, size]`: two ends of the segment along the X axis at Z
/// offset `i`, then two ends of the segment along the Z axis at X offset
/// `i`.  Consecutive vertex pairs form one segment of a line list.
pub open spec fn grid_vertex(size: int, j: int) -> Vertex {
    let i = j / 4 - size;
    let color = line_color(i);
    if j % 4 == 0 {
        Vertex { pos: ((-size) as i64, 0, i as i64), color }
    } else if j % 4 == 1 {
        Vertex { pos: (size as i64, 0, i as i64), color }
    } else if j % 4 == 2 {
        Vertex { pos: (i as i64, 0, (-size) as i64), color }
    } else {
        Vertex { pos: (i as i64, 0, size as i64), color }
    }
}

/// The eight corners of the demonstration cube, colours cycling through
/// cyan, magenta and yellow.
pub open spec fn cube_vertices() -> Seq<Vertex> {
    seq![
        Vertex { pos: (-1i64, -1i64, -1i64), color: (0, 100, 100) },
        Vertex { pos: (1i64, -1i64, -1i64), color: (100, 0, 100) },
        Vertex { pos: (1i64, 1i64, -1i64), color: (100, 100, 0) },
        Vertex { pos: (-1i64, 1i64, -1i64), color: (0, 100, 100) },
        Vertex { pos: (-1i64, -1i64, 1i64), color: (100, 0, 100) },
        Vertex { pos: (1i64, -1i64, 1i64), color: (100, 100, 0) },
        Vertex { pos: (1i64, 1i64, 1i64), color: (0, 100, 100) },
        Vertex { pos: (-1i64, 1i64, 1i64), color: (100, 0, 100) },
    ]
}

/// The triangle indices of the demonstration cube: twelve triangles, two
/// per face, winding clockwise when seen from outside.
pub open spec fn cube_indices() -> Seq<u16> {
    seq![
        0, 1, 3, 3, 1, 2, 1, 5, 2, 2, 5, 6, 5, 4, 6, 6, 4, 7, 4, 0, 7, 7, 0, 3, 3, 2, 7, 7, 2, 6,
        4, 5, 0, 0, 5, 1,
    ]
}

/// An indexed cube of side two centred on the origin, with rainbow corner
/// colours: eight vertices and thirty-six triangle indices.
pub fn rainbow_cube() -> (r: (Vec<Vertex>, Vec<u16>))
    ensures
        r.0@ == cube_vertices(),
        r.1@ == cube_indices(),
{
    let vertices = vec![
        Vertex::new((-1, -1, -1), (0, 100, 100)),
        Vertex::new((1, -1, -1), (100, 0, 100)),
        Vertex::new((1, 1, -1), (100, 100, 0)),
        Vertex::new((-1, 1, -1), (0, 100, 100)),
        Vertex::new((-1, -1, 1), (100, 0, 100)),
        Vertex::new((1, -1, 1), (100, 100, 0)),
        Vertex::new((1, 1, 1), (0, 100, 100)),
        Vertex::new((-1, 1, 1), (100, 0, 100)),
    ];

    let indices: Vec<u16> = vec![
        0, 1, 3, 3, 1, 2, 1, 5, 2, 2, 5, 6, 5, 4, 6, 6, 4, 7, 4, 0, 7, 7, 0, 3, 3, 2, 7, 7, 2, 6,
        4, 5, 0, 0, 5, 1,
    ];

    proof {
        assert(vertices@ =~= cube_vertices());
        assert(indices@ =~= cube_indices());
    }
    (vertices, indices)
}

/// Line-list geometry of a reference grid of half-extent `size`, on the
/// Y = 0 plane, in lattice units of one grid cell: the host multiplies
/// positions by the desired cell scale.
///
/// For every line index in `[-size, size]` the grid holds one segment along
/// the X axis and one along the Z axis, four vertices per index; a negative
/// `size` yields no vertices, as the index range is empty.
pub fn grid(size: i32) -> (vertices: Vec<Vertex>)
    ensures
        size >= 0 ==> vertices@.len() == 4 * (2 * size + 1),
        size < 0 ==> vertices@.len() == 0,
        forall|j: int| 0 <= j < vertices@.len() ==> vertices@[j] == grid_vertex(size as int, j),
        forall|j: int| 0 <= j < vertices@.len() ==> (#[trigger] vertices@[j]).pos.1 == 0,
{
    let mut vertices: Vec<Vertex> = Vec::new();
    if size < 0 {
        return vertices;
    }
    let half: i64 = size as i64;
    let mut i: i64 = -half;
    while i <= half
        invariant
            0 <= half == size,
            -half <= i <= half + 1,
            vertices@.len() == 4 * (i + half),
            forall|j: int| 0 <= j < vertices@.len() ==> vertices@[j] == grid_vertex(size as int, j),
        decreases half + 1 - i,
    {
        let abs_i: i64 = if i < 0 { -i } else { i };
        let channel: u8 = if abs_i % 10 == 0 {
            LIGHT_GRAY
        } else {
            DARK_GRAY
        };
        let color = (channel, channel, channel);
        vertices.push(Vertex::new((-half, 0, i), color));
        vertices.push(Vertex::new((half, 0, i), color));
        vertices.push(Vertex::new((i, 0, -half), color));
        vertices.push(Vertex::new((i, 0, half), color));
        proof {
            let k = i + half;
            assert((4 * k + 0) / 4 == k && (4 * k + 0) % 4 == 0) by (nonlinear_arith);
            assert((4 * k + 1) / 4 == k && (4 * k + 1) % 4 == 1) by (nonlinear_arith);
            assert((4 * k + 2) / 4 == k && (4 * k + 2) % 4 == 2) by (nonlinear_arith);
            assert((4 * k + 3) / 4 == k && (4 * k + 3) % 4 == 3) by (nonlinear_arith);
        }
        i = i + 1;
    }
    proof {
        assert forall|j: int| 0 <= j < vertices@.len() implies (#[trigger] vertices@[j]).pos.1
            == 0 by {
            assert(vertices@[j] == grid_vertex(size as int, j));
        }
    }
    vertices
}

} // verus!
