use selection_box::aabb::Aabb;
use selection_box::mesh::{write_mesh_data, MeshData, Vec2i};
use selection_box::vec3::Vec3i;

fn v(x: i32, y: i32, z: i32) -> Vec3i {
    Vec3i { x, y, z }
}

fn mesh_for(dimensions: Vec3i) -> MeshData {
    let aabb = Aabb { center: v(0, 0, 0), dimensions };
    let mut mesh = MeshData::new();
    write_mesh_data(&aabb, &mut mesh);
    mesh
}

#[test]
fn buffers_have_the_fixed_layout() {
    let mesh = mesh_for(v(1, 1, 1));
    assert_eq!(mesh.verts.len(), 96);
    assert_eq!(mesh.normals.len(), 96);
    assert_eq!(mesh.uvs.len(), 96);
    assert_eq!(mesh.indices.len(), 144);
    assert!(mesh.indices.iter().all(|&i| 0 <= i && i < 96));
}

/// A unit box in tenths: corners at 0 and 10, margin five tenths (half the
/// smallest side), center at five.
#[test]
fn unit_box_canonical_strip() {
    let mesh = mesh_for(v(1, 1, 1));
    assert_eq!(mesh.verts[0], v(0, 10, 10));
    assert_eq!(mesh.verts[1], v(10, 10, 10));
    assert_eq!(mesh.verts[2], v(5, 10, 5));
    assert_eq!(mesh.verts[3], v(5, 10, 5));
    assert_eq!(mesh.verts[5], v(10, 10, 0));
    assert_eq!(mesh.verts[7], v(5, 10, 5));
    // Half turn about the vertical axis through (5,5,5).
    assert_eq!(mesh.verts[8], v(10, 10, 0));
    // Bottom face: half turn about the X axis.
    assert_eq!(mesh.verts[16], v(0, 0, 0));
}

/// The margin is capped at nine tenths once every side is wide enough.
#[test]
fn margin_caps_at_nine_tenths() {
    let mesh = mesh_for(v(3, 2, 5));
    // Top-face inner top left: low-X plane plus margin, high-Z plane minus.
    assert_eq!(mesh.verts[2], v(-10 + 9, 10, 30 - 9));
    assert_eq!(mesh.uvs[2], Vec2i { x: 9, y: 9 });
}

/// A box with a zero-width side collapses the margin to zero.
#[test]
fn zero_width_side_gives_zero_margin() {
    let mesh = mesh_for(v(2, 0, 2));
    // Inner points coincide with the outer corners.
    assert_eq!(mesh.verts[2], v(-10, 0, 10));
    assert_eq!(mesh.uvs[2], Vec2i { x: 0, y: 0 });
}

/// For any box the margin never exceeds nine tenths nor half the smallest
/// side; read off the top face's inner corner inset.
#[test]
fn margin_clamp_holds_for_sample_boxes() {
    for dims in [v(1, 1, 1), v(2, 1, 9), v(5, 5, 5), v(-3, 2, 4), v(1, 0, 8)] {
        let mesh = mesh_for(dims);
        let inset = mesh.uvs[2].x;
        let smallest = [dims.x.abs(), dims.y.abs(), dims.z.abs()]
            .into_iter()
            .min()
            .unwrap();
        assert!(inset <= 9);
        assert!(2 * inset <= 10 * smallest);
    }
}

/// Dimension signs do not change the geometry: only magnitudes matter.
#[test]
fn negative_dimensions_mesh_like_positive_ones() {
    assert_eq!(mesh_for(v(-2, 1, 3)), mesh_for(v(2, 1, 3)));
}

#[test]
fn normals_are_constant_per_face() {
    let mesh = mesh_for(v(1, 2, 3));
    for k in 0..16 {
        assert_eq!(mesh.normals[k], v(0, 1, 0));
        assert_eq!(mesh.normals[16 + k], v(0, -1, 0));
        assert_eq!(mesh.normals[32 + k], v(1, 0, 0));
        assert_eq!(mesh.normals[48 + k], v(-1, 0, 0));
        assert_eq!(mesh.normals[64 + k], v(0, 0, 1));
        assert_eq!(mesh.normals[80 + k], v(0, 0, -1));
    }
}

#[test]
fn index_winding_follows_the_quad_pattern() {
    let mesh = mesh_for(v(1, 1, 1));
    assert_eq!(&mesh.indices[0..6], &[2, 1, 0, 2, 3, 1]);
    assert_eq!(&mesh.indices[6..12], &[6, 5, 4, 6, 7, 5]);
    // First quad of the second face pair starts at vertex 32.
    assert_eq!(&mesh.indices[48..54], &[34, 33, 32, 34, 35, 33]);
}

/// A recompute discards whatever was in the buffers before.
#[test]
fn recompute_rewrites_the_whole_buffer() {
    let mut mesh = MeshData::new();
    write_mesh_data(&Aabb { center: v(0, 0, 0), dimensions: v(4, 4, 4) }, &mut mesh);
    let big = mesh.clone();
    write_mesh_data(&Aabb { center: v(0, 0, 0), dimensions: v(1, 1, 1) }, &mut mesh);
    assert_ne!(mesh, big);
    assert_eq!(mesh, mesh_for(v(1, 1, 1)));
}
