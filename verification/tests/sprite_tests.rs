use soft_renderer::color::Color;
use soft_renderer::fixed::{Fixed, HALF, ONE};
use soft_renderer::framebuffer::Framebuffer;
use soft_renderer::skybox::{Skybox, Star};
use soft_renderer::sprites::{draw_block, draw_particle, sprite_anchor};
use soft_renderer::uniforms::{create_viewport_matrix, Uniforms};
use soft_renderer::vector::{Angle, Mat4, Vec3, Vec4};

fn fx(v: f64) -> Fixed {
    (v * 65536.0).round() as Fixed
}

/// A projection that keeps x, y and z and sets w to z.
fn simple_projection() -> Mat4 {
    Mat4 {
        r0: Vec4::new(ONE, 0, 0, 0),
        r1: Vec4::new(0, ONE, 0, 0),
        r2: Vec4::new(0, 0, ONE, 0),
        r3: Vec4::new(0, 0, ONE, 0),
    }
}

fn uniforms(width: i32, height: i32) -> Uniforms {
    let mut u = Uniforms::new();
    u.projection_matrix = simple_projection();
    u.viewport_matrix = create_viewport_matrix(width * ONE, height * ONE);
    u
}

#[test]
fn anchor_needs_positive_w() {
    let viewport = create_viewport_matrix(8 * ONE, 8 * ONE);
    assert!(sprite_anchor(&Vec4::new(0, 0, HALF, 0), &viewport, false).is_none());
    assert!(sprite_anchor(&Vec4::new(0, 0, HALF, -ONE), &viewport, false).is_none());
    let a = sprite_anchor(&Vec4::new(0, 0, HALF, ONE), &viewport, false).unwrap();
    assert_eq!((a.x, a.y, a.depth), (4, 4, HALF));
}

#[test]
fn anchor_needs_x_and_y_within_the_view() {
    let viewport = create_viewport_matrix(8 * ONE, 8 * ONE);
    // After the divide by w = 2 the point is at (1, -1), the bottom right
    // corner, which is still in view.
    let a = sprite_anchor(&Vec4::new(2 * ONE, -2 * ONE, 0, 2 * ONE), &viewport, false).unwrap();
    assert_eq!((a.x, a.y), (8, 8));
    assert!(sprite_anchor(&Vec4::new(2 * ONE + 2, 0, 0, 2 * ONE), &viewport, false).is_none());
    assert!(sprite_anchor(&Vec4::new(0, -2 * ONE - 2, 0, 2 * ONE), &viewport, false).is_none());
}

#[test]
fn anchor_checks_depth_only_when_asked() {
    let viewport = create_viewport_matrix(8 * ONE, 8 * ONE);
    let behind = Vec4::new(0, 0, -1, ONE);
    let beyond = Vec4::new(0, 0, ONE + 1, ONE);
    assert!(sprite_anchor(&behind, &viewport, true).is_none());
    assert!(sprite_anchor(&beyond, &viewport, true).is_none());
    assert!(sprite_anchor(&behind, &viewport, false).is_some());
    assert!(sprite_anchor(&beyond, &viewport, false).is_some());
    assert!(sprite_anchor(&Vec4::new(0, 0, 0, ONE), &viewport, true).is_some());
    assert!(sprite_anchor(&Vec4::new(0, 0, ONE, ONE), &viewport, true).is_some());
}

#[test]
fn anchor_cuts_the_screen_position_to_a_pixel() {
    let viewport = create_viewport_matrix(8 * ONE, 4 * ONE);
    // NDC (0.3, 0.3): x = 0.3 * 4 + 4 = 5.2, y = -0.3 * 2 + 2 = 1.4
    let a = sprite_anchor(&Vec4::new(fx(0.3), fx(0.3), 0, ONE), &viewport, false).unwrap();
    assert_eq!((a.x, a.y), (5, 1));
}

#[test]
fn block_is_cut_off_at_the_border() {
    let mut fb = Framebuffer::new(4, 3);
    draw_block(&mut fb, 2, 1, 3, &Color::white());
    let w = 0xffffffu32;
    assert_eq!(fb.buffer, vec![0, 0, 0, 0, 0, 0, w, w, 0, 0, w, w]);
    assert_eq!(fb.depth_buffer, vec![ONE; 12]);
}

#[test]
fn block_off_the_buffer_draws_nothing() {
    let mut fb = Framebuffer::new(4, 3);
    draw_block(&mut fb, 4, 0, 2, &Color::white());
    draw_block(&mut fb, 0, 3, 2, &Color::white());
    draw_block(&mut fb, usize::MAX, usize::MAX, usize::MAX, &Color::white());
    draw_block(&mut fb, 1, 1, 0, &Color::white());
    assert_eq!(fb.buffer, vec![0u32; 12]);
}

#[test]
fn huge_block_fills_from_its_anchor() {
    let mut fb = Framebuffer::new(3, 2);
    draw_block(&mut fb, 1, 0, usize::MAX, &Color::red());
    let r = 0xff0000u32;
    assert_eq!(fb.buffer, vec![0, r, r, 0, r, r]);
}

#[test]
fn block_is_written_over_whatever_is_there() {
    let mut fb = Framebuffer::new(3, 3);
    fb.clear();
    let bg = fb.buffer[0];
    fb.point_with_depth(1, 1, 100, &Color::red());
    draw_block(&mut fb, 0, 0, 2, &Color::green());
    let g = 0x00ff00u32;
    assert_eq!(fb.buffer, vec![g, g, bg, g, g, bg, bg, bg, bg]);
    assert_eq!(
        fb.depth_buffer,
        vec![ONE, ONE, ONE, ONE, 100, ONE, ONE, ONE, ONE]
    );
}

#[test]
fn particle_off_the_screen_is_not_drawn() {
    let u = uniforms(16, 16);
    let mut fb = Framebuffer::new(16, 16);
    fb.clear();
    let bg = fb.buffer[0];
    // Clip (0.5, -0.5, 0.5, 0.5): NDC (1, -1, 1), the bottom right corner,
    // whose pixel is one past the last.
    draw_particle(&Vec3::new(HALF, -HALF, HALF), &Color::cyan(), &u, &mut fb);
    assert_eq!(fb.buffer, vec![bg; 256]);
    // Clip (1, 0, 0.5, 0.5): NDC x = 2, out of view.
    draw_particle(&Vec3::new(ONE, 0, HALF), &Color::cyan(), &u, &mut fb);
    assert_eq!(fb.buffer, vec![bg; 256]);
}

#[test]
fn particle_is_an_eight_pixel_block_that_skips_the_depth_test() {
    let mut u = uniforms(16, 16);
    // w = 2z, so that the depth after the divide is one half.
    u.projection_matrix.r3 = Vec4::new(0, 0, 2 * ONE, 0);
    let mut fb = Framebuffer::new(16, 16);
    fb.clear();
    let bg = fb.buffer[0];
    // Something nearer is already there: the particle goes over it.
    fb.point_with_depth(5, 5, 10, &Color::red());
    let depths = fb.depth_buffer.clone();
    // Clip (-0.5, 0.5, 0.5, 1): NDC (-0.5, 0.5, 0.5): pixel (4, 4).
    draw_particle(&Vec3::new(-HALF, HALF, HALF), &Color::cyan(), &u, &mut fb);
    for y in 0..16 {
        for x in 0..16 {
            let inside = (4..12).contains(&x) && (4..12).contains(&y);
            assert_eq!(fb.buffer[y * 16 + x], if inside { 0x00ffff } else { bg });
        }
    }
    assert_eq!(fb.depth_buffer, depths);
}

#[test]
fn particle_outside_the_depth_range_is_not_drawn() {
    let mut fb = Framebuffer::new(16, 16);
    fb.clear();
    let before = fb.buffer.clone();
    // w = z / 2: the depth after the divide is two.
    let mut u = uniforms(16, 16);
    u.projection_matrix.r3 = Vec4::new(0, 0, HALF, 0);
    draw_particle(&Vec3::new(0, 0, HALF), &Color::cyan(), &u, &mut fb);
    assert_eq!(fb.buffer, before);
    // At the far plane itself it is drawn.
    let u = uniforms(16, 16);
    draw_particle(&Vec3::new(0, 0, HALF), &Color::cyan(), &u, &mut fb);
    assert_eq!(fb.buffer[8 * 16 + 8], 0x00ffff);
}

#[test]
fn particle_ignores_where_the_camera_stands() {
    let mut u = uniforms(16, 16);
    u.projection_matrix.r3 = Vec4::new(0, 0, 2 * ONE, 0);
    let mut moved = u;
    moved.view_matrix.r0.w = 5 * ONE;
    moved.view_matrix.r1.w = -5 * ONE;
    let mut a = Framebuffer::new(16, 16);
    a.clear();
    let mut b = Framebuffer::new(16, 16);
    b.clear();
    draw_particle(&Vec3::new(-HALF, HALF, HALF), &Color::cyan(), &u, &mut a);
    draw_particle(&Vec3::new(-HALF, HALF, HALF), &Color::cyan(), &moved, &mut b);
    assert_eq!(a.buffer, b.buffer);
}

#[test]
fn particle_behind_the_camera_is_not_drawn() {
    let u = uniforms(16, 16);
    let mut fb = Framebuffer::new(16, 16);
    fb.clear();
    let before = fb.buffer.clone();
    draw_particle(&Vec3::new(0, 0, -HALF), &Color::cyan(), &u, &mut fb);
    draw_particle(&Vec3::new(0, 0, 0), &Color::cyan(), &u, &mut fb);
    assert_eq!(fb.buffer, before);
}

fn trig(angle: Fixed) -> Angle {
    let a = angle as f64 / 65536.0;
    Angle { sin: fx(a.sin()), cos: fx(a.cos()) }
}

#[test]
fn new_sky_has_stars_all_over() {
    let sky = Skybox::new(400, &trig);
    assert_eq!(sky.len(), 400);
    assert!(sky.star(400).is_none());
    let mut octants = [false; 8];
    for i in 0..400 {
        let s = sky.star(i).unwrap();
        let len = s.direction.length() as i64;
        assert!((len - ONE as i64).abs() <= 2, "direction of length {len}");
        assert!((150..255).contains(&s.brightness));
        assert!(s.size == 1 || s.size == 2);
        let d = s.direction;
        octants[(d.x > 0) as usize + 2 * (d.y > 0) as usize + 4 * (d.z > 0) as usize] = true;
    }
    assert!(octants.iter().all(|seen| *seen));
}

#[test]
fn new_sky_asks_for_an_azimuth_and_a_polar_angle_per_star() {
    let asked = std::cell::RefCell::new(Vec::new());
    let recording = |angle: Fixed| {
        asked.borrow_mut().push(angle);
        trig(angle)
    };
    let sky = Skybox::new(50, &recording);
    let asked = asked.borrow();
    assert_eq!(asked.len(), 100);
    for (i, pair) in asked.chunks(2).enumerate() {
        assert!((0..411775).contains(&pair[0]));
        assert!((0..205887).contains(&pair[1]));
        let (azimuth, polar) = (trig(pair[0]), trig(pair[1]));
        let expected = Vec3::new(
            soft_renderer::fixed::fx_mul(polar.sin, azimuth.cos),
            soft_renderer::fixed::fx_mul(polar.sin, azimuth.sin),
            polar.cos,
        )
        .normalize();
        assert_eq!(sky.star(i).unwrap().direction, expected);
    }
    // The angles differ from star to star.
    assert!(asked.chunks(2).any(|pair| pair[0] != asked[0]));
}

#[test]
fn new_sky_draws_random_brightness() {
    let sky = Skybox::new(64, &trig);
    let first = sky.star(0).unwrap().brightness;
    assert!((0..64).any(|i| sky.star(i).unwrap().brightness != first));
    assert!(sky.star(64).is_none());
}

#[test]
fn new_sky_has_stars_of_both_sizes() {
    let sky = Skybox::new(1000, &trig);
    let wide = (0..1000).filter(|i| sky.star(*i).unwrap().size == 2).count();
    // One in ten on average.
    assert!((30..250).contains(&wide), "{wide} wide stars of 1000");
}

#[test]
fn empty_sky_draws_nothing() {
    let sky = Skybox::new(0, &trig);
    assert_eq!(sky.len(), 0);
    let mut fb = Framebuffer::new(4, 4);
    fb.clear();
    let before = fb.buffer.clone();
    sky.render(&mut fb, &uniforms(4, 4));
    assert_eq!(fb.buffer, before);
}

#[test]
fn stars_are_grey_blocks_that_skip_the_depth_test() {
    let sky = Skybox::from_stars(vec![
        // Straight ahead: the middle of the screen.
        Star { direction: Vec3::new(0, 0, ONE), brightness: 200, size: 2 },
        // Up and to the left.
        Star { direction: Vec3::new(-HALF, HALF, ONE), brightness: 160, size: 1 },
        // Behind the camera.
        Star { direction: Vec3::new(0, 0, -ONE), brightness: 250, size: 2 },
        // Out of view to the right.
        Star { direction: Vec3::new(2 * ONE, 0, ONE), brightness: 250, size: 2 },
    ]);
    let mut fb = Framebuffer::new(8, 8);
    fb.clear();
    let bg = fb.buffer[0];
    // Something near is already there: the sky does not care.
    fb.point_with_depth(4, 4, 10, &Color::red());
    sky.render(&mut fb, &uniforms(8, 8));
    let mut expected = vec![bg; 64];
    for (x, y) in [(4, 4), (5, 4), (4, 5), (5, 5)] {
        expected[y * 8 + x] = 0xc8c8c8;
    }
    expected[2 * 8 + 2] = 0xa0a0a0;
    assert_eq!(fb.buffer, expected);
    let mut depths = vec![ONE; 64];
    depths[4 * 8 + 4] = 10;
    assert_eq!(fb.depth_buffer, depths);
}

#[test]
fn later_star_covers_earlier_one() {
    let sky = Skybox::from_stars(vec![
        Star { direction: Vec3::new(0, 0, ONE), brightness: 200, size: 2 },
        Star { direction: Vec3::new(0, 0, ONE), brightness: 160, size: 1 },
    ]);
    let mut fb = Framebuffer::new(8, 8);
    sky.render(&mut fb, &uniforms(8, 8));
    assert_eq!(fb.buffer[4 * 8 + 4], 0xa0a0a0);
    assert_eq!(fb.buffer[4 * 8 + 5], 0xc8c8c8);
    assert_eq!(fb.buffer[5 * 8 + 4], 0xc8c8c8);
    assert_eq!(fb.buffer[5 * 8 + 5], 0xc8c8c8);
}

#[test]
fn sky_turns_with_the_view_but_does_not_move_with_it() {
    let sky = Skybox::from_stars(vec![Star {
        direction: Vec3::new(0, 0, ONE),
        brightness: 200,
        size: 1,
    }]);
    let mut moved = uniforms(8, 8);
    moved.view_matrix.r0.w = 3 * ONE;
    let mut fb = Framebuffer::new(8, 8);
    sky.render(&mut fb, &moved);
    assert_eq!(fb.buffer[4 * 8 + 4], 0xc8c8c8);
}
