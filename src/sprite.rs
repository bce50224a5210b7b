//! The drawable unit: a full-screen textured quad naming its texture by key.
use vstd::prelude::*;

verus! {

/// A quad corner: its position in normalized device coordinates and its
/// texture coordinates, each of which is a whole number here.
#[derive(Clone, Copy, Debug, PartialEq, Eq, Structural)]
pub struct QuadVertex {
    pub x: i8,
    pub y: i8,
    pub z: i8,
    pub u: u8,
    pub v: u8,
}

/// Whether the triangle `a`, `b`, `c` turns counter-clockwise (a front face).
pub open spec fn counter_clockwise(a: QuadVertex, b: QuadVertex, c: QuadVertex) -> bool {
    (b.x - a.x) * (c.y - a.y) - (b.y - a.y) * (c.x - a.x) > 0
}

/// Relies on bytemuck::cast_slice, which views the `u16` values as their
/// bytes, two per value, in the machine's byte order.
#[verifier::external_body]
fn u16_bytes(values: &[u16]) -> (r: Vec<u8>)
    ensures
        r@.len() == 2 * values@.len(),
        forall|i: int|
            0 <= i < values@.len() ==> r@[2 * i] + 256 * r@[2 * i + 1] == values@[i] || 256 * r@[2
                * i] + r@[2 * i + 1] == values@[i],
{
    bytemuck::cast_slice::<u16, u8>(values).to_vec()
}

/// Vertices and indices of a triangle list, and the indices as bytes for upload.
#[derive(Debug)]
pub struct QuadGeometry {
    pub vertices: Vec<QuadVertex>,
    pub indices: Vec<u16>,
    pub index_bytes: Vec<u8>,
}

pub open spec fn top_left() -> QuadVertex {
    QuadVertex { x: -1i8, y: 1, z: 0, u: 0, v: 0 }
}

pub open spec fn bottom_left() -> QuadVertex {
    QuadVertex { x: -1i8, y: -1i8, z: 0, u: 0, v: 1 }
}

pub open spec fn bottom_right() -> QuadVertex {
    QuadVertex { x: 1, y: -1i8, z: 0, u: 1, v: 1 }
}

pub open spec fn top_right() -> QuadVertex {
    QuadVertex { x: 1, y: 1, z: 0, u: 1, v: 0 }
}

impl QuadGeometry {
    /// A quad over all of `[-1, 1] x [-1, 1]` with texture coordinates over
    /// `[0, 1] x [0, 1]`, as two counter-clockwise triangles that share the
    /// diagonal from the top-left to the bottom-right corner.
    pub fn fullscreen_quad() -> (r: QuadGeometry)
        ensures
            r.vertices@ == seq![top_left(), bottom_left(), bottom_right(), top_right()],
            r.indices@ == seq![0u16, 1, 2, 0, 2, 3],
            r.vertices@.len() == 4,
            r.indices@.len() == 6,
            forall|i: int| 0 <= i < 6 ==> 0 <= #[trigger] r.indices@[i] <= 3,
            forall|i: int|
                0 <= i < 4 ==> -1 <= #[trigger] r.vertices@[i].x <= 1 && -1 <= r.vertices@[i].y <= 1,
            exists|i: int| 0 <= i < 4 && #[trigger] r.vertices@[i].x == -1 && r.vertices@[i].y == -1,
            exists|i: int| 0 <= i < 4 && #[trigger] r.vertices@[i].x == 1 && r.vertices@[i].y == 1,
            counter_clockwise(r.vertices@[0], r.vertices@[1], r.vertices@[2]),
            counter_clockwise(r.vertices@[0], r.vertices@[2], r.vertices@[3]),
            r.index_bytes@.len() == 12,
            forall|i: int|
                0 <= i < 6 ==> r.index_bytes@[2 * i] + 256 * r.index_bytes@[2 * i + 1]
                    == #[trigger] r.indices@[i] || 256 * r.index_bytes@[2 * i] + r.index_bytes@[2 * i
                    + 1] == r.indices@[i],
    {
        let vertices = vec![
            QuadVertex { x: -1, y: 1, z: 0, u: 0, v: 0 },
            QuadVertex { x: -1, y: -1, z: 0, u: 0, v: 1 },
            QuadVertex { x: 1, y: -1, z: 0, u: 1, v: 1 },
            QuadVertex { x: 1, y: 1, z: 0, u: 1, v: 0 },
        ];
        let indices: Vec<u16> = vec![0, 1, 2, 0, 2, 3];
        let index_bytes = u16_bytes(indices.as_slice());
        proof {
            assert(vertices@[1].x == -1 && vertices@[1].y == -1);
            assert(vertices@[3].x == 1 && vertices@[3].y == 1);
            assert(top_left().x == -1 && top_left().y == 1);
            assert(bottom_left().x - top_left().x == 0);
            assert((bottom_left().y - top_left().y) * (bottom_right().x - top_left().x) == -4);
            assert(counter_clockwise(top_left(), bottom_left(), bottom_right()));
            assert(counter_clockwise(top_left(), bottom_right(), top_right()));
        }
        QuadGeometry { vertices, indices, index_bytes }
    }
}

/// A drawable: the key of its texture (a lookup, not ownership), how many
/// indices it draws, and the GPU buffers that hold its geometry.
pub struct Sprite<G> {
    pub texture_key: String,
    pub num_indices: u32,
    pub buffers: G,
}

impl<G> Sprite<G> {
    /// A sprite that draws all of `geometry`, held in `buffers`, with the
    /// texture registered under `texture_key`.
    pub fn new(texture_key: String, geometry: &QuadGeometry, buffers: G) -> (r: Sprite<G>)
        requires
            geometry.indices@.len() <= u32::MAX,
        ensures
            r.texture_key@ == texture_key@,
            r.num_indices == geometry.indices@.len(),
            r.buffers == buffers,
    {
        Sprite { texture_key, num_indices: geometry.indices.len() as u32, buffers }
    }
}

} // verus!
