use canvas_gpu::canvas2d::Canvas2D;

#[test]
fn rect_is_two_triangles() {
    let mut c: Canvas2D<(i32, i32)> = Canvas2D::new();
    c.fill_rect((0, 0), (1, 0), (1, 1), (0, 1));
    assert_eq!(c.vertices(), &vec![(0, 0), (1, 0), (1, 1), (0, 1)]);
    assert_eq!(c.indices(), &vec![0, 1, 2, 0, 2, 3]);
    c.fill_rect((5, 5), (6, 5), (6, 6), (5, 6));
    assert_eq!(&c.indices()[6..], &[4, 5, 6, 4, 6, 7]);
    assert_eq!(c.index_count(), 12);
    assert_eq!(c.vertex_count(), 8);
}

#[test]
fn circle_is_a_closed_fan() {
    let mut c: Canvas2D<u8> = Canvas2D::new();
    c.fill_rect(0, 1, 2, 3);
    c.fill_circle(10, &vec![11, 12, 13, 14]);
    assert_eq!(c.vertices(), &vec![0, 1, 2, 3, 10, 11, 12, 13, 14]);
    assert_eq!(
        &c.indices()[6..],
        &[4, 5, 6, 4, 6, 7, 4, 7, 8, 4, 8, 5]
    );
}

#[test]
fn circle_without_segments_adds_only_center() {
    let mut c: Canvas2D<u8> = Canvas2D::new();
    c.fill_circle(1, &vec![]);
    assert_eq!(c.vertex_count(), 1);
    assert_eq!(c.index_count(), 0);
}

#[test]
fn clear_empties_the_batch() {
    let mut c: Canvas2D<u8> = Canvas2D::new();
    c.fill_circle(0, &vec![1, 2, 3]);
    c.clear();
    assert_eq!(c.vertex_count(), 0);
    assert_eq!(c.index_count(), 0);
}
