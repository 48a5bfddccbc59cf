use frame_core::geometry::{quad_indices, quad_vertices, Corner, QUAD_INDEX_COUNT};

#[test]
fn the_quad_spans_the_whole_screen() {
    assert_eq!(
        quad_vertices(),
        vec![
            Corner { x: -1, y: -1 },
            Corner { x: -1, y: 1 },
            Corner { x: 1, y: -1 },
            Corner { x: 1, y: 1 },
        ]
    );
}

#[test]
fn the_quad_is_two_triangles() {
    assert_eq!(quad_indices(), vec![0, 1, 2, 1, 2, 3]);
    assert_eq!(quad_indices().len(), QUAD_INDEX_COUNT as usize);
}

#[test]
fn every_index_names_a_vertex() {
    let vertices = quad_vertices();
    for index in quad_indices() {
        assert!((index as usize) < vertices.len());
    }
}
