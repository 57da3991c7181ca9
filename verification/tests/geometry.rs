use cube_renderer::vertex::{
    cube_corners, cube_indices, generate_wireframe_vertices, get_attribute_descriptions,
    get_binding_description, GridVertex, VERTEX_COLOR_OFFSET, VERTEX_POSITION_OFFSET,
    VERTEX_STRIDE,
};

#[test]
fn wireframe_count_follows_the_formula() {
    // 24·(N−1) + 24 vertices for divisions = N.
    assert_eq!(generate_wireframe_vertices(1).len(), 24);
    assert_eq!(generate_wireframe_vertices(2).len(), 48);
    assert_eq!(generate_wireframe_vertices(24).len(), 24 * 23 + 24);
}

#[test]
fn wireframe_is_deterministic() {
    let first = generate_wireframe_vertices(24);
    let second = generate_wireframe_vertices(24);
    assert_eq!(first, second);
}

#[test]
fn wireframe_single_division_is_just_the_cube_edges() {
    let v = generate_wireframe_vertices(1);
    // First edge: from (0,0,0) to (1,0,0) on the unit grid.
    assert_eq!(v[0], GridVertex { x: 0, y: 0, z: 0 });
    assert_eq!(v[1], GridVertex { x: 1, y: 0, z: 0 });
    // Last edge: from (1,1,0) to (1,1,1).
    assert_eq!(v[22], GridVertex { x: 1, y: 1, z: 0 });
    assert_eq!(v[23], GridVertex { x: 1, y: 1, z: 1 });
}

#[test]
fn wireframe_grid_lines_precede_edges() {
    let v = generate_wireframe_vertices(2);
    // With divisions = 2 the single interior step is at coordinate 1 of 2;
    // the first grid line runs across the face at y = 1, z = 0.
    assert_eq!(v[0], GridVertex { x: 0, y: 1, z: 0 });
    assert_eq!(v[1], GridVertex { x: 2, y: 1, z: 0 });
    // The edge block starts after the 24 grid vertices.
    assert_eq!(v[24], GridVertex { x: 0, y: 0, z: 0 });
    assert_eq!(v[25], GridVertex { x: 2, y: 0, z: 0 });
}

#[test]
fn wireframe_coordinates_stay_on_the_grid() {
    let n = 5;
    for v in generate_wireframe_vertices(n) {
        assert!(v.x <= n && v.y <= n && v.z <= n);
    }
}

#[test]
fn cube_has_eight_corners_in_buffer_order() {
    let corners = cube_corners();
    assert_eq!(corners.len(), 8);
    assert_eq!(corners[0], GridVertex { x: 0, y: 0, z: 1 });
    assert_eq!(corners[2], GridVertex { x: 1, y: 1, z: 1 });
    assert_eq!(corners[4], GridVertex { x: 0, y: 0, z: 0 });
    assert_eq!(corners[7], GridVertex { x: 0, y: 1, z: 0 });
}

#[test]
fn cube_indices_describe_twelve_triangles_over_the_corners() {
    let indices = cube_indices();
    assert_eq!(indices.len(), 36);
    assert_eq!(&indices[0..6], &[0, 1, 2, 2, 3, 0]);
    assert_eq!(&indices[30..36], &[0, 5, 1, 5, 0, 4]);
    let corners = cube_corners();
    for i in indices {
        assert!((i as usize) < corners.len());
    }
}

#[test]
fn vertex_layout_has_two_attributes_in_one_binding() {
    let binding = get_binding_description();
    assert_eq!(binding.binding, 0);
    assert_eq!(binding.stride, VERTEX_STRIDE);
    assert_eq!(binding.stride, 24);

    let attributes = get_attribute_descriptions();
    assert_eq!(attributes.len(), 2);
    assert_eq!(attributes[0].location, 0);
    assert_eq!(attributes[0].offset, VERTEX_POSITION_OFFSET);
    assert_eq!(attributes[1].location, 1);
    assert_eq!(attributes[1].offset, VERTEX_COLOR_OFFSET);
    assert_eq!(attributes[1].offset, 12);
}
