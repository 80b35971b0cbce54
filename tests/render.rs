use std::cell::RefCell;

use raytracer::render::render;

#[test]
fn render_places_scanlines_bottom_up() {
    let fb = render(3, 2, |i, j| (10 * j + i) as u32);
    assert_eq!(fb.width(), 3);
    assert_eq!(fb.height(), 2);
    assert_eq!(fb.into_pixels(), vec![10, 11, 12, 0, 1, 2]);
}

#[test]
fn render_visits_top_scanline_first_left_to_right() {
    let order = RefCell::new(Vec::new());
    let _ = render(2, 2, |i, j| {
        order.borrow_mut().push((i, j));
        0
    });
    assert_eq!(order.into_inner(), vec![(0, 1), (1, 1), (0, 0), (1, 0)]);
}
