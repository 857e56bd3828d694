use racing_engine::bits::Vec3Bits;
use racing_engine::render::{surface_size, Mesh, RendererConfig};

#[test]
fn test_cube_mesh() {
    let mesh = Mesh::cube(Vec3Bits::new(1.0f32.to_bits(), 0.0f32.to_bits(), 0.0f32.to_bits()));
    assert_eq!(mesh.vertices.len(), 24);
    assert_eq!(mesh.indices.len(), 36);
}

#[test]
fn cube_indices_form_two_triangles_per_face() {
    let mesh = Mesh::cube(Vec3Bits::splat(0));
    assert_eq!(mesh.index_count, 36);
    assert_eq!(&mesh.indices[0..6], &[0, 1, 2, 0, 2, 3]);
    assert_eq!(&mesh.indices[30..36], &[20, 21, 22, 20, 22, 23]);
    assert!(mesh.indices.iter().all(|&i| (i as usize) < mesh.vertices.len()));
}

#[test]
fn cube_corners_are_half_units() {
    let color = Vec3Bits::new(1, 2, 3);
    let mesh = Mesh::cube(color);
    for v in &mesh.vertices {
        assert_eq!(v.color, color);
        for c in [v.position.x, v.position.y, v.position.z] {
            assert_eq!(f32::from_bits(c).abs(), 0.5);
        }
    }
    // The front face sits at z = +0.5, the back face at z = -0.5.
    assert!(mesh.vertices[0..4].iter().all(|v| f32::from_bits(v.position.z) == 0.5));
    assert!(mesh.vertices[4..8].iter().all(|v| f32::from_bits(v.position.z) == -0.5));
    assert_eq!(
        (f32::from_bits(mesh.vertices[6].position.x), f32::from_bits(mesh.vertices[6].position.y)),
        (0.5, 0.5)
    );
}

#[test]
fn vertex_words_follow_buffer_layout() {
    let mesh = Mesh::cube(Vec3Bits::new(7, 8, 9));
    let words = mesh.vertex_words();
    assert_eq!(words.len(), 6 * 24);
    let v = mesh.vertices[5];
    assert_eq!(&words[30..36], &[v.position.x, v.position.y, v.position.z, 7, 8, 9]);
}

#[test]
fn buffer_bytes_are_the_words_in_machine_order() {
    let mesh = Mesh::cube(Vec3Bits::new(7, 8, 9));
    let bytes = mesh.index_bytes();
    assert_eq!(bytes.len(), 4 * 36);
    for (k, chunk) in bytes.chunks(4).enumerate() {
        assert_eq!(u32::from_ne_bytes([chunk[0], chunk[1], chunk[2], chunk[3]]), mesh.indices[k]);
    }
    assert_eq!(&bytes[4..8], &1u32.to_ne_bytes());
    let vbytes = mesh.vertex_bytes();
    let words = mesh.vertex_words();
    assert_eq!(vbytes.len(), 4 * words.len());
    for (k, chunk) in vbytes.chunks(4).enumerate() {
        assert_eq!(u32::from_ne_bytes([chunk[0], chunk[1], chunk[2], chunk[3]]), words[k]);
    }
}

#[test]
fn renderer_config_default() {
    let c = RendererConfig::default();
    assert_eq!((c.width, c.height, c.vsync, c.wireframe), (1280, 720, true, false));
}

#[test]
fn surface_size_is_at_least_one_pixel() {
    assert_eq!(surface_size(0, 0), (1, 1));
    assert_eq!(surface_size(800, 0), (800, 1));
    assert_eq!(surface_size(1280, 720), (1280, 720));
}
