//! The quad that is drawn once for every cell.
//!
//! Positions are kept in tenths of a unit, so that the corner at 0.8 is
//! stored as 8: the table is exact, and whoever hands it to a device
//! divides by ten.

use vstd::prelude::*;

verus! {

/// Tenths in one unit of a position.
pub const POSITION_SCALE: i32 = 10;

/// One corner of a triangle, in tenths of a unit.
#[derive(Clone, Copy, Debug, PartialEq, Eq, Structural)]
pub struct Vertex {
    pub x: i32,
    pub y: i32,
}

/// How a device reads vertices from a buffer of them: the distance in bytes
/// from one vertex to the next, and where in a vertex the position lies,
/// how many 4-byte components it has and to which shader input it goes.
#[derive(Clone, Copy, Debug, PartialEq, Eq, Structural)]
pub struct VertexLayout {
    pub array_stride: u64,
    pub offset: u64,
    pub shader_location: u32,
    pub components: u32,
    pub per_vertex: bool,
}

/// The six corners of the quad: two triangles that share the diagonal from
/// the lower left to the upper right.
pub open spec fn quad() -> Seq<Vertex> {
    seq![
        Vertex { x: -8i32, y: -8i32 },
        Vertex { x: 8, y: -8i32 },
        Vertex { x: 8, y: 8 },
        Vertex { x: -8i32, y: -8i32 },
        Vertex { x: 8, y: 8 },
        Vertex { x: -8i32, y: 8 },
    ]
}

/// Twice the signed area of the triangle `a`, `b`, `c`: positive when the
/// corners run counter-clockwise.
pub open spec fn doubled_area(a: Vertex, b: Vertex, c: Vertex) -> int {
    (b.x - a.x) * (c.y - a.y) - (c.x - a.x) * (b.y - a.y)
}

impl Vertex {
    /// The layout of a buffer of vertices: each is a position of two 4-byte
    /// components, read once per vertex, at the start of an 8-byte record.
    pub fn desc() -> (layout: VertexLayout)
        ensures
            layout == (VertexLayout {
                array_stride: 8,
                offset: 0,
                shader_location: 0,
                components: 2,
                per_vertex: true,
            }),
    {
        VertexLayout {
            array_stride: 8,
            offset: 0,
            shader_location: 0,
            components: 2,
            per_vertex: true,
        }
    }
}

/// The vertices of the quad, in drawing order.
pub fn vertices() -> (table: Vec<Vertex>)
    ensures
        table@ == quad(),
{
    let mut table: Vec<Vertex> = Vec::with_capacity(6);
    table.push(Vertex { x: -8, y: -8 });
    table.push(Vertex { x: 8, y: -8 });
    table.push(Vertex { x: 8, y: 8 });
    table.push(Vertex { x: -8, y: -8 });
    table.push(Vertex { x: 8, y: 8 });
    table.push(Vertex { x: -8, y: 8 });
    assert(table@ =~= quad());
    table
}

/// Both triangles of the quad run counter-clockwise, so neither is culled
/// as a back face, and together they cover the square from -0.8 to 0.8:
/// their areas add up to that of the square.
pub proof fn lemma_quad_faces_front()
    ensures
        quad().len() == 6,
        doubled_area(quad()[0], quad()[1], quad()[2]) > 0,
        doubled_area(quad()[3], quad()[4], quad()[5]) > 0,
        doubled_area(quad()[0], quad()[1], quad()[2]) + doubled_area(
            quad()[3],
            quad()[4],
            quad()[5],
        ) == 2 * (16 * 16),
        forall|i: int| 0 <= i < 6 ==> -8 <= (#[trigger] quad()[i]).x <= 8 && -8 <= quad()[i].y <= 8,
{
    let q = quad();
    assert(q[0].x == -8 && q[0].y == -8);
    assert(q[1].x == 8 && q[1].y == -8);
    assert(q[2].x == 8 && q[2].y == 8);
    assert(q[3].x == -8 && q[3].y == -8);
    assert(q[4].x == 8 && q[4].y == 8);
    assert(q[5].x == -8 && q[5].y == 8);
    assert(doubled_area(q[0], q[1], q[2]) == 16 * 16 - 16 * 0);
    assert(doubled_area(q[3], q[4], q[5]) == 16 * 16 - 0 * 16);
}

} // verus!
