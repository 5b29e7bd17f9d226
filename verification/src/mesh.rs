//! Frame-outline geometry of a selection box.
//!
//! Every face of the box gets a picture-frame border instead of a solid
//! quad. For each of the three face pairs one canonical L-shaped corner
//! strip of eight points is laid out, the other strips of that face follow
//! by half-turn rotations about the face's own axis through the box center,
//! and the opposite face follows by one more half turn about a
//! perpendicular axis. The frame's inner inset, the margin, is the smallest
//! of nine tenths of a world unit and half of each box side, so the border
//! never overlaps itself on thin boxes and never grows thicker than 0.9
//! units.
//!
//! All coordinates are integers in tenths of a world unit, measured from
//! the box center; one grid cell is one world unit. The whole buffer is
//! cleared and rewritten on every recompute.

use vstd::prelude::*;
use crate::aabb::{abs_i, max_off, min_off, Aabb};
use crate::vec3::Vec3i;

verus! {

/// A two-component texture coordinate, in tenths.
#[derive(Clone, Copy, Debug, PartialEq, Eq, Structural)]
pub struct Vec2i {
    pub x: i32,
    pub y: i32,
}

/// The flat geometry buffers handed to the render layer.
#[derive(Clone, Debug, PartialEq, Eq)]
pub struct MeshData {
    pub verts: Vec<Vec3i>,
    pub normals: Vec<Vec3i>,
    pub uvs: Vec<Vec2i>,
    pub indices: Vec<i32>,
}

impl MeshData {
    pub fn new() -> (r: MeshData)
        ensures
            r.verts@.len() == 0,
            r.normals@.len() == 0,
            r.uvs@.len() == 0,
            r.indices@.len() == 0,
    {
        MeshData { verts: Vec::new(), normals: Vec::new(), uvs: Vec::new(), indices: Vec::new() }
    }
}

/// Low face plane of an axis, in tenths, relative to the box center.
pub open spec fn face_lo(d: int) -> int {
    10 * min_off(d)
}

/// High face plane of an axis, in tenths: one past the greatest cell.
pub open spec fn face_hi(d: int) -> int {
    10 * (max_off(d) + 1)
}

/// Center of an axis in tenths; zero or five, as the side is even or odd.
pub open spec fn face_mid(d: int) -> int {
    5 * (min_off(d) + max_off(d) + 1)
}

/// Length of a box side in tenths.
pub open spec fn side_len(d: int) -> int {
    10 * abs_i(d)
}

pub open spec fn min2(a: int, b: int) -> int {
    if a <= b {
        a
    } else {
        b
    }
}

/// The frame margin in tenths: at most nine tenths, and at most half of
/// each of the three box sides.
pub open spec fn frame_margin(dims: Vec3i) -> int {
    min2(
        min2(9, side_len(dims.x as int) / 2),
        min2(min2(9, side_len(dims.y as int) / 2), min2(9, side_len(dims.z as int) / 2)),
    )
}

/// Margin clamp: for every box, the frame margin never exceeds nine tenths
/// of a world unit nor half of the smallest box side.
pub proof fn lemma_margin_clamp(dims: Vec3i)
    ensures
        frame_margin(dims) <= 9,
        2 * frame_margin(dims) <= side_len(dims.x as int),
        2 * frame_margin(dims) <= side_len(dims.y as int),
        2 * frame_margin(dims) <= side_len(dims.z as int),
{
}

/// Half turn about the vertical axis through `c`.
pub open spec fn rot180_y(p: Vec3i, c: Vec3i) -> Vec3i {
    Vec3i { x: (2 * c.x - p.x) as i32, y: p.y, z: (2 * c.z - p.z) as i32 }
}

/// Half turn about the X axis through `c`.
pub open spec fn rot180_x(p: Vec3i, c: Vec3i) -> Vec3i {
    Vec3i { x: p.x, y: (2 * c.y - p.y) as i32, z: (2 * c.z - p.z) as i32 }
}

/// Half turn about the Z axis through `c`.
pub open spec fn rot180_z(p: Vec3i, c: Vec3i) -> Vec3i {
    Vec3i { x: (2 * c.x - p.x) as i32, y: (2 * c.y - p.y) as i32, z: p.z }
}

/// The box center in tenths.
pub open spec fn mesh_center(dims: Vec3i) -> Vec3i {
    Vec3i {
        x: face_mid(dims.x as int) as i32,
        y: face_mid(dims.y as int) as i32,
        z: face_mid(dims.z as int) as i32,
    }
}

/// Canonical corner strip of the top face: an L along the high-Z edge and
/// the high-X edge, inset by the margin.
pub open spec fn face0_pt(j: int, dims: Vec3i) -> Vec3i {
    let x0 = face_lo(dims.x as int) as i32;
    let x1 = face_hi(dims.x as int) as i32;
    let y1 = face_hi(dims.y as int) as i32;
    let z0 = face_lo(dims.z as int) as i32;
    let z1 = face_hi(dims.z as int) as i32;
    let m = frame_margin(dims) as i32;
    if j == 0 {
        Vec3i { x: x0, y: y1, z: z1 }
    } else if j == 1 {
        Vec3i { x: x1, y: y1, z: z1 }
    } else if j == 2 {
        Vec3i { x: (x0 + m) as i32, y: y1, z: (z1 - m) as i32 }
    } else if j == 3 {
        Vec3i { x: (x1 - m) as i32, y: y1, z: (z1 - m) as i32 }
    } else if j == 4 {
        Vec3i { x: x1, y: y1, z: z1 }
    } else if j == 5 {
        Vec3i { x: x1, y: y1, z: z0 }
    } else if j == 6 {
        Vec3i { x: (x1 - m) as i32, y: y1, z: (z1 - m) as i32 }
    } else {
        Vec3i { x: (x1 - m) as i32, y: y1, z: (z0 + m) as i32 }
    }
}

/// Canonical corner strip of the high-X face.
pub open spec fn face1_pt(j: int, dims: Vec3i) -> Vec3i {
    let x1 = face_hi(dims.x as int) as i32;
    let y0 = face_lo(dims.y as int) as i32;
    let y1 = face_hi(dims.y as int) as i32;
    let z0 = face_lo(dims.z as int) as i32;
    let z1 = face_hi(dims.z as int) as i32;
    let m = frame_margin(dims) as i32;
    if j == 0 {
        Vec3i { x: x1, y: y1, z: z0 }
    } else if j == 1 {
        Vec3i { x: x1, y: y1, z: z1 }
    } else if j == 2 {
        Vec3i { x: x1, y: (y1 - m) as i32, z: (z0 + m) as i32 }
    } else if j == 3 {
        Vec3i { x: x1, y: (y1 - m) as i32, z: (z1 - m) as i32 }
    } else if j == 4 {
        Vec3i { x: x1, y: y1, z: z1 }
    } else if j == 5 {
        Vec3i { x: x1, y: y0, z: z1 }
    } else if j == 6 {
        Vec3i { x: x1, y: (y1 - m) as i32, z: (z1 - m) as i32 }
    } else {
        Vec3i { x: x1, y: (y0 + m) as i32, z: (z1 - m) as i32 }
    }
}

/// Canonical corner strip of the low-Z face.
pub open spec fn face2_pt(j: int, dims: Vec3i) -> Vec3i {
    let x0 = face_lo(dims.x as int) as i32;
    let x1 = face_hi(dims.x as int) as i32;
    let y0 = face_lo(dims.y as int) as i32;
    let y1 = face_hi(dims.y as int) as i32;
    let z0 = face_lo(dims.z as int) as i32;
    let m = frame_margin(dims) as i32;
    if j == 0 {
        Vec3i { x: x0, y: y1, z: z0 }
    } else if j == 1 {
        Vec3i { x: x1, y: y1, z: z0 }
    } else if j == 2 {
        Vec3i { x: (x0 + m) as i32, y: (y1 - m) as i32, z: z0 }
    } else if j == 3 {
        Vec3i { x: (x1 - m) as i32, y: (y1 - m) as i32, z: z0 }
    } else if j == 4 {
        Vec3i { x: x1, y: y1, z: z0 }
    } else if j == 5 {
        Vec3i { x: x1, y: y0, z: z0 }
    } else if j == 6 {
        Vec3i { x: (x1 - m) as i32, y: (y1 - m) as i32, z: z0 }
    } else {
        Vec3i { x: (x1 - m) as i32, y: (y0 + m) as i32, z: z0 }
    }
}

/// The vertex at position `k` of the buffer. Each face pair occupies 32
/// slots: the canonical strip, its half turn about the face axis, and the
/// half turn of both onto the opposite face.
pub open spec fn mesh_vert(k: int, dims: Vec3i) -> Vec3i {
    let c = mesh_center(dims);
    if k < 32 {
        if k < 8 {
            face0_pt(k, dims)
        } else if k < 16 {
            rot180_y(face0_pt(k - 8, dims), c)
        } else if k < 24 {
            rot180_x(face0_pt(k - 16, dims), c)
        } else {
            rot180_x(rot180_y(face0_pt(k - 24, dims), c), c)
        }
    } else if k < 64 {
        let r = k - 32;
        if r < 8 {
            face1_pt(r, dims)
        } else if r < 16 {
            rot180_x(face1_pt(r - 8, dims), c)
        } else if r < 24 {
            rot180_y(face1_pt(r - 16, dims), c)
        } else {
            rot180_y(rot180_x(face1_pt(r - 24, dims), c), c)
        }
    } else {
        let r = k - 64;
        if r < 8 {
            face2_pt(r, dims)
        } else if r < 16 {
            rot180_z(face2_pt(r - 8, dims), c)
        } else if r < 24 {
            rot180_y(face2_pt(r - 16, dims), c)
        } else {
            rot180_y(rot180_z(face2_pt(r - 24, dims), c), c)
        }
    }
}

/// Canonical texture coordinates of the top face strip; the border reads
/// as a uniform band because they scale with the face's world size.
pub open spec fn face0_uv(j: int, dims: Vec3i) -> Vec2i {
    let sx = side_len(dims.x as int) as i32;
    let sz = side_len(dims.z as int) as i32;
    let m = frame_margin(dims) as i32;
    if j == 0 {
        Vec2i { x: 0, y: 0 }
    } else if j == 1 {
        Vec2i { x: sx, y: 0 }
    } else if j == 2 {
        Vec2i { x: m, y: m }
    } else if j == 3 {
        Vec2i { x: (sx - m) as i32, y: m }
    } else if j == 4 {
        Vec2i { x: 0, y: 0 }
    } else if j == 5 {
        Vec2i { x: sz, y: 0 }
    } else if j == 6 {
        Vec2i { x: m, y: m }
    } else {
        Vec2i { x: (sz - m) as i32, y: m }
    }
}

/// Canonical texture coordinates of the high-X face strip.
pub open spec fn face1_uv(j: int, dims: Vec3i) -> Vec2i {
    let sy = side_len(dims.y as int) as i32;
    let sz = side_len(dims.z as int) as i32;
    let m = frame_margin(dims) as i32;
    if j == 0 {
        Vec2i { x: sz, y: 0 }
    } else if j == 1 {
        Vec2i { x: 0, y: 0 }
    } else if j == 2 {
        Vec2i { x: (sz - m) as i32, y: m }
    } else if j == 3 {
        Vec2i { x: m, y: m }
    } else if j == 4 {
        Vec2i { x: sy, y: 0 }
    } else if j == 5 {
        Vec2i { x: 0, y: 0 }
    } else if j == 6 {
        Vec2i { x: (sy - m) as i32, y: m }
    } else {
        Vec2i { x: m, y: m }
    }
}

/// Canonical texture coordinates of the low-Z face strip.
pub open spec fn face2_uv(j: int, dims: Vec3i) -> Vec2i {
    let sx = side_len(dims.x as int) as i32;
    let sy = side_len(dims.y as int) as i32;
    let m = frame_margin(dims) as i32;
    if j == 0 {
        Vec2i { x: sx, y: 0 }
    } else if j == 1 {
        Vec2i { x: 0, y: 0 }
    } else if j == 2 {
        Vec2i { x: (sx - m) as i32, y: m }
    } else if j == 3 {
        Vec2i { x: m, y: m }
    } else if j == 4 {
        Vec2i { x: sy, y: 0 }
    } else if j == 5 {
        Vec2i { x: 0, y: 0 }
    } else if j == 6 {
        Vec2i { x: (sy - m) as i32, y: m }
    } else {
        Vec2i { x: m, y: m }
    }
}

/// The texture coordinate at position `k` of the buffer: rotated strips
/// keep the coordinates of the strip they came from.
pub open spec fn mesh_uv(k: int, dims: Vec3i) -> Vec2i {
    if k < 32 {
        face0_uv(if k < 8 {
            k
        } else if k < 16 {
            k - 8
        } else if k < 24 {
            k - 16
        } else {
            k - 24
        }, dims)
    } else if k < 64 {
        let r = k - 32;
        face1_uv(if r < 8 {
            r
        } else if r < 16 {
            r - 8
        } else if r < 24 {
            r - 16
        } else {
            r - 24
        }, dims)
    } else {
        let r = k - 64;
        face2_uv(if r < 8 {
            r
        } else if r < 16 {
            r - 8
        } else if r < 24 {
            r - 16
        } else {
            r - 24
        }, dims)
    }
}

/// The outward normal at position `k` of the buffer: constant along each
/// face, along the face's axis.
pub open spec fn mesh_normal(k: int) -> Vec3i {
    if k < 16 {
        Vec3i { x: 0, y: 1, z: 0 }
    } else if k < 32 {
        Vec3i { x: 0, y: -1i32, z: 0 }
    } else if k < 48 {
        Vec3i { x: 1, y: 0, z: 0 }
    } else if k < 64 {
        Vec3i { x: -1i32, y: 0, z: 0 }
    } else if k < 80 {
        Vec3i { x: 0, y: 0, z: 1 }
    } else {
        Vec3i { x: 0, y: 0, z: -1i32 }
    }
}

/// Entry `e` of the two triangles of the quad whose first vertex is `k`,
/// in the fixed winding.
pub open spec fn quad_entry(k: int, e: int) -> int {
    if e == 0 {
        k + 2
    } else if e == 1 {
        k + 1
    } else if e == 2 {
        k
    } else if e == 3 {
        k + 2
    } else if e == 4 {
        k + 3
    } else {
        k + 1
    }
}

/// All mesh coordinates stay well inside `i32`.
pub open spec fn in_mesh_range(v: Vec3i) -> bool {
    &&& -520_000_000 <= v.x <= 520_000_000
    &&& -520_000_000 <= v.y <= 520_000_000
    &&& -520_000_000 <= v.z <= 520_000_000
}

/// Half turn about the vertical axis through `c`, on tenths coordinates.
fn rot_y_exec(p: Vec3i, c: Vec3i) -> (r: Vec3i)
    requires
        in_mesh_range(p),
        -10 <= c.x <= 10,
        -10 <= c.y <= 10,
        -10 <= c.z <= 10,
    ensures
        r == rot180_y(p, c),
{
    Vec3i { x: 2 * c.x - p.x, y: p.y, z: 2 * c.z - p.z }
}

/// Half turn about the X axis through `c`, on tenths coordinates.
fn rot_x_exec(p: Vec3i, c: Vec3i) -> (r: Vec3i)
    requires
        in_mesh_range(p),
        -10 <= c.x <= 10,
        -10 <= c.y <= 10,
        -10 <= c.z <= 10,
    ensures
        r == rot180_x(p, c),
{
    Vec3i { x: p.x, y: 2 * c.y - p.y, z: 2 * c.z - p.z }
}

/// Half turn about the Z axis through `c`, on tenths coordinates.
fn rot_z_exec(p: Vec3i, c: Vec3i) -> (r: Vec3i)
    requires
        in_mesh_range(p),
        -10 <= c.x <= 10,
        -10 <= c.y <= 10,
        -10 <= c.z <= 10,
    ensures
        r == rot180_z(p, c),
{
    Vec3i { x: 2 * c.x - p.x, y: 2 * c.y - p.y, z: p.z }
}

/// The index buffer entry at position `t`: 24 quads of six entries, eight
/// quads per face pair, each quad built on four consecutive vertices.
pub open spec fn mesh_index(t: int) -> int {
    let q = t / 6;
    let e = t % 6;
    quad_entry(32 * (q / 8) + 4 * (q % 8), e)
}

/// Every canonical strip point stays well inside `i32`.
#[verifier::rlimit(50)]
proof fn lemma_face_pt_range(f: int, j: int, dims: Vec3i)
    requires
        0 <= f < 3,
        0 <= j < 8,
        dims.in_grid(),
    ensures
        f == 0 ==> in_mesh_range(face0_pt(j, dims)),
        f == 1 ==> in_mesh_range(face1_pt(j, dims)),
        f == 2 ==> in_mesh_range(face2_pt(j, dims)),
{
    lemma_margin_clamp(dims);
    assert(0 <= frame_margin(dims) <= 9);
    assert(-500_000_000 <= face_lo(dims.x as int) <= 0);
    assert(-500_000_000 <= face_lo(dims.y as int) <= 0);
    assert(-500_000_000 <= face_lo(dims.z as int) <= 0);
    assert(0 <= face_hi(dims.x as int) <= 500_000_010);
    assert(0 <= face_hi(dims.y as int) <= 500_000_010);
    assert(0 <= face_hi(dims.z as int) <= 500_000_010);
}

/// Every vertex of the buffer stays well inside `i32`.
#[verifier::rlimit(50)]
pub proof fn lemma_mesh_vert_range(k: int, dims: Vec3i)
    requires
        0 <= k < 96,
        dims.in_grid(),
    ensures
        in_mesh_range(mesh_vert(k, dims)),
{
    assert(0 <= face_mid(dims.x as int) <= 5);
    assert(0 <= face_mid(dims.y as int) <= 5);
    assert(0 <= face_mid(dims.z as int) <= 5);
    if k < 32 {
        if k < 8 {
            lemma_face_pt_range(0, k, dims);
        } else if k < 16 {
            lemma_face_pt_range(0, k - 8, dims);
        } else if k < 24 {
            lemma_face_pt_range(0, k - 16, dims);
        } else {
            lemma_face_pt_range(0, k - 24, dims);
        }
    } else if k < 64 {
        let r = k - 32;
        if r < 8 {
            lemma_face_pt_range(1, r, dims);
        } else if r < 16 {
            lemma_face_pt_range(1, r - 8, dims);
        } else if r < 24 {
            lemma_face_pt_range(1, r - 16, dims);
        } else {
            lemma_face_pt_range(1, r - 24, dims);
        }
    } else {
        let r = k - 64;
        if r < 8 {
            lemma_face_pt_range(2, r, dims);
        } else if r < 16 {
            lemma_face_pt_range(2, r - 8, dims);
        } else if r < 24 {
            lemma_face_pt_range(2, r - 16, dims);
        } else {
            lemma_face_pt_range(2, r - 24, dims);
        }
    }
}

/// Every index buffer entry names a vertex of the buffer.
pub proof fn lemma_mesh_index_range(t: int)
    requires
        0 <= t < 144,
    ensures
        0 <= mesh_index(t) < 96,
{
    assert(0 <= t / 6 < 24);
    assert(0 <= (t / 6) / 8 < 3);
    assert(0 <= (t / 6) % 8 < 8);
}

/// Common setup of one face pair: the face planes, margin and center a
/// builder needs, with the facts tying them to their spec values.
struct FaceFrame {
    x0: i32,
    x1: i32,
    y0: i32,
    y1: i32,
    z0: i32,
    z1: i32,
    sx: i32,
    sy: i32,
    sz: i32,
    m: i32,
    cvec: Vec3i,
}

impl FaceFrame {
    spec fn matches(self, d: Vec3i) -> bool {
        &&& self.x0 == face_lo(d.x as int)
        &&& self.x1 == face_hi(d.x as int)
        &&& self.y0 == face_lo(d.y as int)
        &&& self.y1 == face_hi(d.y as int)
        &&& self.z0 == face_lo(d.z as int)
        &&& self.z1 == face_hi(d.z as int)
        &&& self.sx == side_len(d.x as int)
        &&& self.sy == side_len(d.y as int)
        &&& self.sz == side_len(d.z as int)
        &&& self.m == frame_margin(d)
        &&& self.cvec == mesh_center(d)
        &&& 0 <= self.cvec.x <= 5 && 0 <= self.cvec.y <= 5 && 0 <= self.cvec.z <= 5
    }
}

/// Compute the face planes, side lengths, margin and center of a box.
fn face_frame(d: Vec3i) -> (f: FaceFrame)
    requires
        d.in_grid(),
    ensures
        f.matches(d),
{
    let mnx = crate::aabb::axis_min_off(d.x);
    let mxx = crate::aabb::axis_max_off(d.x);
    let mny = crate::aabb::axis_min_off(d.y);
    let mxy = crate::aabb::axis_max_off(d.y);
    let mnz = crate::aabb::axis_min_off(d.z);
    let mxz = crate::aabb::axis_max_off(d.z);
    let sx = 10 * (if d.x < 0 {
        -d.x
    } else {
        d.x
    });
    let sy = 10 * (if d.y < 0 {
        -d.y
    } else {
        d.y
    });
    let sz = 10 * (if d.z < 0 {
        -d.z
    } else {
        d.z
    });
    let ma = if 9 <= sx / 2 {
        9
    } else {
        sx / 2
    };
    let mb = if 9 <= sy / 2 {
        9
    } else {
        sy / 2
    };
    let mc = if 9 <= sz / 2 {
        9
    } else {
        sz / 2
    };
    let mbc = if mb <= mc {
        mb
    } else {
        mc
    };
    FaceFrame {
        x0: 10 * mnx,
        x1: 10 * (mxx + 1),
        y0: 10 * mny,
        y1: 10 * (mxy + 1),
        z0: 10 * mnz,
        z1: 10 * (mxz + 1),
        sx,
        sy,
        sz,
        m: if ma <= mbc {
            ma
        } else {
            mbc
        },
        cvec: Vec3i { x: 5 * (mnx + mxx + 1), y: 5 * (mny + mxy + 1), z: 5 * (mnz + mxz + 1) },
    }
}

/// Append the 32 vertices of the top/bottom face pair.
#[verifier::loop_isolation(false)]
fn push_verts_face0(verts: &mut Vec<Vec3i>, d: Vec3i, f: &FaceFrame)
    requires
        d.in_grid(),
        f.matches(d),
        old(verts)@.len() == 0,
    ensures
        final(verts)@.len() == 32,
        forall|k: int| 0 <= k < 32 ==> #[trigger] final(verts)@[k] == mesh_vert(k, d),
{
    verts.push(Vec3i { x: f.x0, y: f.y1, z: f.z1 });
    verts.push(Vec3i { x: f.x1, y: f.y1, z: f.z1 });
    verts.push(Vec3i { x: f.x0 + f.m, y: f.y1, z: f.z1 - f.m });
    verts.push(Vec3i { x: f.x1 - f.m, y: f.y1, z: f.z1 - f.m });
    verts.push(Vec3i { x: f.x1, y: f.y1, z: f.z1 });
    verts.push(Vec3i { x: f.x1, y: f.y1, z: f.z0 });
    verts.push(Vec3i { x: f.x1 - f.m, y: f.y1, z: f.z1 - f.m });
    verts.push(Vec3i { x: f.x1 - f.m, y: f.y1, z: f.z0 + f.m });
    proof {
        assert(forall|k: int| 0 <= k < 8 ==> #[trigger] verts@[k] == mesh_vert(k, d));
    }
    let mut j: usize = 0;
    while j < 8
        invariant
            j <= 8,
            verts@.len() == 8 + j,
            forall|k: int| 0 <= k < 8 + j ==> #[trigger] verts@[k] == mesh_vert(k, d),
        decreases 8 - j,
    {
        proof {
            lemma_mesh_vert_range(j as int, d);
            lemma_mesh_vert_range(8 + j as int, d);
        }
        let p = verts[j];
        let r = rot_y_exec(p, f.cvec);
        verts.push(r);
        j = j + 1;
    }
    let mut j: usize = 0;
    while j < 16
        invariant
            j <= 16,
            verts@.len() == 16 + j,
            forall|k: int| 0 <= k < 16 + j ==> #[trigger] verts@[k] == mesh_vert(k, d),
        decreases 16 - j,
    {
        proof {
            lemma_mesh_vert_range(j as int, d);
            lemma_mesh_vert_range(16 + j as int, d);
        }
        let p = verts[j];
        let r = rot_x_exec(p, f.cvec);
        verts.push(r);
        j = j + 1;
    }
}

/// Append the 32 vertices of the face pair along X.
#[verifier::loop_isolation(false)]
fn push_verts_face1(verts: &mut Vec<Vec3i>, d: Vec3i, f: &FaceFrame)
    requires
        d.in_grid(),
        f.matches(d),
        old(verts)@.len() == 32,
        forall|k: int| 0 <= k < 32 ==> #[trigger] old(verts)@[k] == mesh_vert(k, d),
    ensures
        final(verts)@.len() == 64,
        forall|k: int| 0 <= k < 64 ==> #[trigger] final(verts)@[k] == mesh_vert(k, d),
{
    verts.push(Vec3i { x: f.x1, y: f.y1, z: f.z0 });
    verts.push(Vec3i { x: f.x1, y: f.y1, z: f.z1 });
    verts.push(Vec3i { x: f.x1, y: f.y1 - f.m, z: f.z0 + f.m });
    verts.push(Vec3i { x: f.x1, y: f.y1 - f.m, z: f.z1 - f.m });
    verts.push(Vec3i { x: f.x1, y: f.y1, z: f.z1 });
    verts.push(Vec3i { x: f.x1, y: f.y0, z: f.z1 });
    verts.push(Vec3i { x: f.x1, y: f.y1 - f.m, z: f.z1 - f.m });
    verts.push(Vec3i { x: f.x1, y: f.y0 + f.m, z: f.z1 - f.m });
    proof {
        assert(forall|k: int| 0 <= k < 40 ==> #[trigger] verts@[k] == mesh_vert(k, d));
    }
    let mut j: usize = 0;
    while j < 8
        invariant
            j <= 8,
            verts@.len() == 40 + j,
            forall|k: int| 0 <= k < 40 + j ==> #[trigger] verts@[k] == mesh_vert(k, d),
        decreases 8 - j,
    {
        proof {
            lemma_mesh_vert_range(32 + j as int, d);
            lemma_mesh_vert_range(40 + j as int, d);
        }
        let p = verts[32 + j];
        let r = rot_x_exec(p, f.cvec);
        verts.push(r);
        j = j + 1;
    }
    let mut j: usize = 0;
    while j < 16
        invariant
            j <= 16,
            verts@.len() == 48 + j,
            forall|k: int| 0 <= k < 48 + j ==> #[trigger] verts@[k] == mesh_vert(k, d),
        decreases 16 - j,
    {
        proof {
            lemma_mesh_vert_range(32 + j as int, d);
            lemma_mesh_vert_range(48 + j as int, d);
        }
        let p = verts[32 + j];
        let r = rot_y_exec(p, f.cvec);
        verts.push(r);
        j = j + 1;
    }
}

/// Append the 32 vertices of the face pair along Z.
#[verifier::loop_isolation(false)]
fn push_verts_face2(verts: &mut Vec<Vec3i>, d: Vec3i, f: &FaceFrame)
    requires
        d.in_grid(),
        f.matches(d),
        old(verts)@.len() == 64,
        forall|k: int| 0 <= k < 64 ==> #[trigger] old(verts)@[k] == mesh_vert(k, d),
    ensures
        final(verts)@.len() == 96,
        forall|k: int| 0 <= k < 96 ==> #[trigger] final(verts)@[k] == mesh_vert(k, d),
{
    verts.push(Vec3i { x: f.x0, y: f.y1, z: f.z0 });
    verts.push(Vec3i { x: f.x1, y: f.y1, z: f.z0 });
    verts.push(Vec3i { x: f.x0 + f.m, y: f.y1 - f.m, z: f.z0 });
    verts.push(Vec3i { x: f.x1 - f.m, y: f.y1 - f.m, z: f.z0 });
    verts.push(Vec3i { x: f.x1, y: f.y1, z: f.z0 });
    verts.push(Vec3i { x: f.x1, y: f.y0, z: f.z0 });
    verts.push(Vec3i { x: f.x1 - f.m, y: f.y1 - f.m, z: f.z0 });
    verts.push(Vec3i { x: f.x1 - f.m, y: f.y0 + f.m, z: f.z0 });
    proof {
        assert(forall|k: int| 0 <= k < 72 ==> #[trigger] verts@[k] == mesh_vert(k, d));
    }
    let mut j: usize = 0;
    while j < 8
        invariant
            j <= 8,
            verts@.len() == 72 + j,
            forall|k: int| 0 <= k < 72 + j ==> #[trigger] verts@[k] == mesh_vert(k, d),
        decreases 8 - j,
    {
        proof {
            lemma_mesh_vert_range(64 + j as int, d);
            lemma_mesh_vert_range(72 + j as int, d);
        }
        let p = verts[64 + j];
        let r = rot_z_exec(p, f.cvec);
        verts.push(r);
        j = j + 1;
    }
    let mut j: usize = 0;
    while j < 16
        invariant
            j <= 16,
            verts@.len() == 80 + j,
            forall|k: int| 0 <= k < 80 + j ==> #[trigger] verts@[k] == mesh_vert(k, d),
        decreases 16 - j,
    {
        proof {
            lemma_mesh_vert_range(64 + j as int, d);
            lemma_mesh_vert_range(80 + j as int, d);
        }
        let p = verts[64 + j];
        let r = rot_y_exec(p, f.cvec);
        verts.push(r);
        j = j + 1;
    }
}

/// The 96 outward normals, constant per face.
#[verifier::loop_isolation(false)]
fn build_normals() -> (normals: Vec<Vec3i>)
    ensures
        normals@.len() == 96,
        forall|k: int| 0 <= k < 96 ==> #[trigger] normals@[k] == mesh_normal(k),
{
    let mut normals: Vec<Vec3i> = Vec::new();
    let mut k: usize = 0;
    while k < 96
        invariant
            k <= 96,
            normals@.len() == k,
            forall|t: int| 0 <= t < k ==> #[trigger] normals@[t] == mesh_normal(t),
        decreases 96 - k,
    {
        let n = if k < 16 {
            Vec3i { x: 0, y: 1, z: 0 }
        } else if k < 32 {
            Vec3i { x: 0, y: -1, z: 0 }
        } else if k < 48 {
            Vec3i { x: 1, y: 0, z: 0 }
        } else if k < 64 {
            Vec3i { x: -1, y: 0, z: 0 }
        } else if k < 80 {
            Vec3i { x: 0, y: 0, z: 1 }
        } else {
            Vec3i { x: 0, y: 0, z: -1 }
        };
        normals.push(n);
        k = k + 1;
    }
    normals
}

/// Append the 32 texture coordinates of one face pair: the canonical strip
/// of eight, copied unchanged onto the rotated strips.
#[verifier::loop_isolation(false)]
fn push_uvs_face(uvs: &mut Vec<Vec2i>, d: Vec3i, base: usize, canon: [Vec2i; 8])
    requires
        old(uvs)@.len() == base,
        base == 0 || base == 32 || base == 64,
        forall|j: int| 0 <= j < 8 ==> #[trigger] canon@[j] == mesh_uv(base + j, d),
        forall|k: int| 0 <= k < base ==> #[trigger] old(uvs)@[k] == mesh_uv(k, d),
    ensures
        final(uvs)@.len() == base + 32,
        forall|k: int| 0 <= k < base + 32 ==> #[trigger] final(uvs)@[k] == mesh_uv(k, d),
{
    let mut j: usize = 0;
    while j < 8
        invariant
            j <= 8,
            uvs@.len() == base + j,
            forall|k: int| 0 <= k < base + j ==> #[trigger] uvs@[k] == mesh_uv(k, d),
        decreases 8 - j,
    {
        let u = canon[j];
        uvs.push(u);
        j = j + 1;
    }
    let mut j: usize = 0;
    while j < 24
        invariant
            j <= 24,
            uvs@.len() == base + 8 + j,
            forall|k: int| 0 <= k < base + 8 + j ==> #[trigger] uvs@[k] == mesh_uv(k, d),
        decreases 24 - j,
    {
        let u = uvs[base + (if j < 8 {
            j
        } else {
            j - 8
        })];
        uvs.push(u);
        j = j + 1;
    }
}

/// The 144 indices: 24 quads of two triangles in a fixed winding.
#[verifier::loop_isolation(false)]
fn build_indices() -> (indices: Vec<i32>)
    ensures
        indices@.len() == 144,
        forall|t: int| 0 <= t < 144 ==> #[trigger] indices@[t] == mesh_index(t),
        forall|t: int| 0 <= t < 144 ==> 0 <= #[trigger] indices@[t] < 96,
{
    let mut indices: Vec<i32> = Vec::new();
    let mut q: usize = 0;
    while q < 24
        invariant
            q <= 24,
            indices@.len() == 6 * q,
            forall|t: int| 0 <= t < 6 * q ==> #[trigger] indices@[t] == mesh_index(t),
        decreases 24 - q,
    {
        let base: i32 = (32 * (q / 8) + 4 * (q % 8)) as i32;
        indices.push(base + 2);
        indices.push(base + 1);
        indices.push(base);
        indices.push(base + 2);
        indices.push(base + 3);
        indices.push(base + 1);
        proof {
            let qi = q as int;
            assert((6 * qi + 0) / 6 == qi && (6 * qi + 0) % 6 == 0);
            assert((6 * qi + 1) / 6 == qi && (6 * qi + 1) % 6 == 1);
            assert((6 * qi + 2) / 6 == qi && (6 * qi + 2) % 6 == 2);
            assert((6 * qi + 3) / 6 == qi && (6 * qi + 3) % 6 == 3);
            assert((6 * qi + 4) / 6 == qi && (6 * qi + 4) % 6 == 4);
            assert((6 * qi + 5) / 6 == qi && (6 * qi + 5) % 6 == 5);
        }
        q = q + 1;
    }
    proof {
        assert forall|t: int| 0 <= t < 144 implies 0 <= #[trigger] indices@[t] < 96 by {
            lemma_mesh_index_range(t);
        }
    }
    indices
}

/// Rebuild the outline geometry of a box from scratch: 96 vertices with
/// their normals and texture coordinates and 144 indices, 32 vertices and
/// 8 quads per face pair. The old buffer contents are discarded entirely.
pub fn write_mesh_data(aabb: &Aabb, mesh_data: &mut MeshData)
    requires
        aabb.in_grid(),
    ensures
        final(mesh_data).verts@.len() == 96,
        forall|k: int|
            0 <= k < 96 ==> #[trigger] final(mesh_data).verts@[k] == mesh_vert(
                k,
                aabb.dimensions,
            ),
        final(mesh_data).normals@.len() == 96,
        forall|k: int|
            0 <= k < 96 ==> #[trigger] final(mesh_data).normals@[k] == mesh_normal(k),
        final(mesh_data).uvs@.len() == 96,
        forall|k: int|
            0 <= k < 96 ==> #[trigger] final(mesh_data).uvs@[k] == mesh_uv(k, aabb.dimensions),
        final(mesh_data).indices@.len() == 144,
        forall|t: int|
            0 <= t < 144 ==> #[trigger] final(mesh_data).indices@[t] == mesh_index(t),
        forall|t: int|
            0 <= t < 144 ==> 0 <= #[trigger] final(mesh_data).indices@[t] < 96,
{
    let d = aabb.dimensions;
    let f = face_frame(d);
    let mut verts: Vec<Vec3i> = Vec::new();
    push_verts_face0(&mut verts, d, &f);
    push_verts_face1(&mut verts, d, &f);
    push_verts_face2(&mut verts, d, &f);
    let mut uvs: Vec<Vec2i> = Vec::new();
    let canon0 = [
        Vec2i { x: 0, y: 0 },
        Vec2i { x: f.sx, y: 0 },
        Vec2i { x: f.m, y: f.m },
        Vec2i { x: f.sx - f.m, y: f.m },
        Vec2i { x: 0, y: 0 },
        Vec2i { x: f.sz, y: 0 },
        Vec2i { x: f.m, y: f.m },
        Vec2i { x: f.sz - f.m, y: f.m },
    ];
    push_uvs_face(&mut uvs, d, 0, canon0);
    let canon1 = [
        Vec2i { x: f.sz, y: 0 },
        Vec2i { x: 0, y: 0 },
        Vec2i { x: f.sz - f.m, y: f.m },
        Vec2i { x: f.m, y: f.m },
        Vec2i { x: f.sy, y: 0 },
        Vec2i { x: 0, y: 0 },
        Vec2i { x: f.sy - f.m, y: f.m },
        Vec2i { x: f.m, y: f.m },
    ];
    push_uvs_face(&mut uvs, d, 32, canon1);
    let canon2 = [
        Vec2i { x: f.sx, y: 0 },
        Vec2i { x: 0, y: 0 },
        Vec2i { x: f.sx - f.m, y: f.m },
        Vec2i { x: f.m, y: f.m },
        Vec2i { x: f.sy, y: 0 },
        Vec2i { x: 0, y: 0 },
        Vec2i { x: f.sy - f.m, y: f.m },
        Vec2i { x: f.m, y: f.m },
    ];
    push_uvs_face(&mut uvs, d, 64, canon2);
    mesh_data.verts = verts;
    mesh_data.normals = build_normals();
    mesh_data.uvs = uvs;
    mesh_data.indices = build_indices();
}

} // verus!
