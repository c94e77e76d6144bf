use egui_styled::mesh::{band_indices, mitered_ring_indices, ring_strip_indices};

#[test]
fn ring_strip_wraps_around() {
    let idx = ring_strip_indices(3);
    assert_eq!(idx, vec![0, 1, 4, 0, 4, 3, 1, 2, 5, 1, 5, 4, 2, 0, 3, 2, 3, 5]);
    assert!(idx.iter().all(|&i| i < 6));
}

#[test]
fn ring_strip_empty_ring_has_no_triangles() {
    assert!(ring_strip_indices(0).is_empty());
}

#[test]
fn ring_strip_indices_stay_in_mesh() {
    for n in 1..70u32 {
        let idx = ring_strip_indices(n);
        assert_eq!(idx.len(), 6 * n as usize);
        assert!(idx.iter().all(|&i| i < 2 * n));
    }
}

#[test]
fn mitered_ring_quads() {
    assert_eq!(
        mitered_ring_indices(),
        vec![0, 1, 9, 0, 9, 8, 2, 3, 11, 2, 11, 10, 4, 5, 13, 4, 13, 12, 6, 7, 15, 6, 15, 14]
    );
}

#[test]
fn band_triangles_from_base() {
    assert_eq!(band_indices(8), [8, 9, 11, 8, 11, 10]);
    assert_eq!(band_indices(0), [0, 1, 3, 0, 3, 2]);
}

#[test]
fn ring_strip_feeds_an_egui_mesh() {
    let n = 4u32;
    let mut mesh = egui::Mesh::default();
    for i in 0..2 * n {
        mesh.colored_vertex(egui::pos2(i as f32, 0.0), egui::Color32::WHITE);
    }
    for t in ring_strip_indices(n).chunks_exact(3) {
        mesh.add_triangle(t[0], t[1], t[2]);
    }
    assert!(mesh.is_valid());
}
