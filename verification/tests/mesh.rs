use rc80_core::{quad_mesh, System};

#[test]
fn blank_screen_has_no_mesh() {
    let system = System::new();
    let mesh = quad_mesh(&system.pixels);
    assert!(mesh.vertices.is_empty());
    assert!(mesh.indices.is_empty());
}

#[test]
fn one_square_per_lit_pixel() {
    let mut system = System::new();
    system.pixels[0] = 1;
    system.pixels[727] = 1;
    system.pixels[2047] = 1;
    system.pixels[5] = 2;
    let mesh = quad_mesh(&system.pixels);
    // 727 = 11 * 64 + 23
    assert_eq!(
        mesh.vertices,
        vec![
            0, 0, 1, 0, 1, 1, 0, 1, //
            23, 11, 24, 11, 24, 12, 23, 12, //
            63, 31, 64, 31, 64, 32, 63, 32,
        ]
    );
    assert_eq!(mesh.indices, vec![0, 1, 2, 2, 3, 0, 4, 5, 6, 6, 7, 4, 8, 9, 10, 10, 11, 8]);
}

#[test]
fn full_screen_mesh() {
    let mut system = System::new();
    system.pixels = [1; 2048];
    let mesh = quad_mesh(&system.pixels);
    assert_eq!(mesh.vertices.len(), 8 * 2048);
    assert_eq!(mesh.indices.len(), 6 * 2048);
    assert_eq!(&mesh.indices[6 * 2047..], &[8188, 8189, 8190, 8190, 8191, 8188]);
    assert_eq!(&mesh.vertices[8 * 64..8 * 64 + 8], &[0, 1, 1, 1, 1, 2, 0, 2]);
}
