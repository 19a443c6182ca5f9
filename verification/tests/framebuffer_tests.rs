use soft_renderer::color::Color;
use soft_renderer::fixed::ONE;
use soft_renderer::framebuffer::Framebuffer;

#[test]
fn new_framebuffer_is_blank_and_far() {
    let fb = Framebuffer::new(4, 3);
    assert_eq!(fb.width, 4);
    assert_eq!(fb.height, 3);
    assert_eq!(fb.buffer, vec![0u32; 12]);
    assert_eq!(fb.depth_buffer, vec![ONE; 12]);
}

#[test]
fn empty_framebuffer_ignores_writes() {
    let mut fb = Framebuffer::new(0, 5);
    fb.clear();
    fb.point(0, 0, &Color::white());
    fb.point_with_depth(0, 0, 0, &Color::white());
    assert!(fb.buffer.is_empty());
    assert!(fb.depth_buffer.is_empty());
}

#[test]
fn clear_fills_with_background_and_far_depth() {
    let mut fb = Framebuffer::new(3, 2);
    fb.set_background_color(Color::new(1, 2, 3));
    fb.point_with_depth(1, 1, 100, &Color::white());
    fb.clear();
    assert_eq!(fb.buffer, vec![0x010203u32; 6]);
    assert_eq!(fb.depth_buffer, vec![ONE; 6]);
}

#[test]
fn clear_uses_the_default_background() {
    let mut fb = Framebuffer::new(2, 2);
    fb.clear();
    assert_eq!(fb.buffer, vec![Color::dark_bg().to_hex(); 4]);
}

#[test]
fn point_writes_row_major() {
    let mut fb = Framebuffer::new(4, 3);
    fb.point(1, 2, &Color::new(0xaa, 0xbb, 0xcc));
    let mut expected = vec![0u32; 12];
    expected[2 * 4 + 1] = 0xaabbcc;
    assert_eq!(fb.buffer, expected);
    assert_eq!(fb.depth_buffer, vec![ONE; 12]);
}

#[test]
fn point_outside_is_dropped() {
    let mut fb = Framebuffer::new(4, 3);
    fb.point(4, 0, &Color::white());
    fb.point(0, 3, &Color::white());
    fb.point(usize::MAX, usize::MAX, &Color::white());
    assert_eq!(fb.buffer, vec![0u32; 12]);
}

#[test]
fn depth_write_outside_is_dropped() {
    let mut fb = Framebuffer::new(4, 3);
    fb.point_with_depth(4, 0, 0, &Color::white());
    fb.point_with_depth(0, 3, 0, &Color::white());
    assert_eq!(fb.buffer, vec![0u32; 12]);
    assert_eq!(fb.depth_buffer, vec![ONE; 12]);
}

#[test]
fn nearer_write_wins() {
    let mut fb = Framebuffer::new(2, 2);
    fb.point_with_depth(1, 0, 500, &Color::red());
    assert_eq!(fb.buffer[1], 0xff0000);
    assert_eq!(fb.depth_buffer[1], 500);
    fb.point_with_depth(1, 0, 400, &Color::green());
    assert_eq!(fb.buffer[1], 0x00ff00);
    assert_eq!(fb.depth_buffer[1], 400);
}

#[test]
fn farther_or_equal_write_is_rejected() {
    let mut fb = Framebuffer::new(2, 2);
    fb.point_with_depth(1, 0, 500, &Color::red());
    fb.point_with_depth(1, 0, 600, &Color::green());
    fb.point_with_depth(1, 0, 500, &Color::white());
    assert_eq!(fb.buffer[1], 0xff0000);
    assert_eq!(fb.depth_buffer[1], 500);
}

#[test]
fn write_at_the_far_depth_is_rejected_after_clear() {
    let mut fb = Framebuffer::new(2, 2);
    fb.clear();
    let before = fb.buffer.clone();
    fb.point_with_depth(0, 0, ONE, &Color::white());
    assert_eq!(fb.buffer, before);
}

#[test]
fn depth_write_is_idempotent() {
    let mut once = Framebuffer::new(3, 3);
    once.clear();
    once.point_with_depth(2, 1, 1234, &Color::cyan());
    let mut twice = Framebuffer::new(3, 3);
    twice.clear();
    twice.point_with_depth(2, 1, 1234, &Color::cyan());
    twice.point_with_depth(2, 1, 1234, &Color::cyan());
    assert_eq!(once.buffer, twice.buffer);
    assert_eq!(once.depth_buffer, twice.depth_buffer);
}

#[test]
fn depth_order_does_not_depend_on_draw_order() {
    let near = 1000;
    let far = 2000;
    let mut a = Framebuffer::new(3, 3);
    a.clear();
    a.point_with_depth(1, 1, near, &Color::red());
    a.point_with_depth(1, 1, far, &Color::green());
    let mut b = Framebuffer::new(3, 3);
    b.clear();
    b.point_with_depth(1, 1, far, &Color::green());
    b.point_with_depth(1, 1, near, &Color::red());
    assert_eq!(a.buffer, b.buffer);
    assert_eq!(a.depth_buffer, b.depth_buffer);
    assert_eq!(a.buffer[4], 0xff0000);
    assert_eq!(a.depth_buffer[4], near);
}

#[test]
fn stored_depth_never_grows() {
    let mut fb = Framebuffer::new(1, 1);
    fb.clear();
    let mut last = fb.depth_buffer[0];
    for d in [70000, 65536, 65535, 100, 200, 50, 50, -3, 0] {
        fb.point_with_depth(0, 0, d, &Color::white());
        assert!(fb.depth_buffer[0] <= last);
        last = fb.depth_buffer[0];
    }
    assert_eq!(last, -3);
}

#[test]
fn plain_point_leaves_depth_alone() {
    let mut fb = Framebuffer::new(2, 1);
    fb.point_with_depth(0, 0, 10, &Color::red());
    fb.point(0, 0, &Color::green());
    assert_eq!(fb.buffer[0], 0x00ff00);
    assert_eq!(fb.depth_buffer[0], 10);
}
