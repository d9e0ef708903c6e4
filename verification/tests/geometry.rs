use bgui::geometry::rect_triangles;

#[test]
fn rect_triangles_order() {
    let v = rect_triangles(0, 1, 2, 3);
    assert_eq!(v, [(0, 1), (2, 1), (0, 3), (2, 3), (0, 3), (2, 1)]);
}

#[test]
fn rect_triangles_share_diagonal() {
    let v = rect_triangles(-1.0f32, 1.0f32, 0.5f32, -0.5f32);
    assert_eq!(v[1], v[5]);
    assert_eq!(v[2], v[4]);
    assert_eq!(v[0], (-1.0, 1.0));
    assert_eq!(v[3], (0.5, -0.5));
}

#[test]
fn rect_triangles_degenerate_rect() {
    let v = rect_triangles(4u32, 4u32, 4u32, 4u32);
    assert!(v.iter().all(|p| *p == (4, 4)));
}
