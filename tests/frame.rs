use raytracer::frame::Framebuffer;

#[test]
fn new_buffer_is_zeroed() {
    let fb = Framebuffer::new(3, 2);
    assert_eq!(fb.width(), 3);
    assert_eq!(fb.height(), 2);
    assert_eq!(fb.into_pixels(), vec![0u32; 6]);
}

#[test]
fn empty_buffer_has_no_pixels() {
    let fb = Framebuffer::new(0, 5);
    assert_eq!(fb.into_pixels(), Vec::<u32>::new());
}

#[test]
fn top_scanline_lands_on_first_row() {
    let mut fb = Framebuffer::new(3, 2);
    fb.set_scanline_pixel(1, 2, 7);
    assert_eq!(fb.pixel(0, 2), 7);
    fb.set_scanline_pixel(0, 0, 9);
    assert_eq!(fb.pixel(1, 0), 9);
    assert_eq!(fb.into_pixels(), vec![0, 0, 7, 9, 0, 0]);
}

#[test]
fn rewriting_a_pixel_keeps_the_last_value() {
    let mut fb = Framebuffer::new(1, 1);
    fb.set_scanline_pixel(0, 0, 1);
    fb.set_scanline_pixel(0, 0, 2);
    assert_eq!(fb.into_pixels(), vec![2]);
}
