//! Colors, blending and the depth-tested framebuffer.

use softrender::color::Color;
use softrender::framebuffer::{Framebuffer, FAR_DEPTH};

#[test]
fn to_hex_packs_channels() {
    assert_eq!(Color::new(0xAB, 0xCD, 0xEF).to_hex(), 0x00ABCDEF);
    assert_eq!(Color::new(0, 0, 0).to_hex(), 0);
    assert_eq!(Color::new(255, 255, 255).to_hex(), 0xFFFFFF);
}

#[test]
fn lerp_exact_values() {
    let black = Color::new(0, 0, 0);
    let white = Color::new(255, 255, 255);
    assert_eq!(black.lerp(&white, 0), black);
    assert_eq!(black.lerp(&white, 65536), white);
    assert_eq!(black.lerp(&white, 32768), Color::new(127, 127, 127));
    // the factor clamps into [0, 1]
    assert_eq!(black.lerp(&white, -100000), black);
    assert_eq!(black.lerp(&white, 100000000), white);
    // descending channels blend too
    assert_eq!(white.lerp(&black, 32768), Color::new(127, 127, 127));
}

#[test]
fn scale_by_intensity() {
    let c = Color::new(200, 100, 50);
    assert_eq!(c.scale(65536), c);
    assert_eq!(c.scale(32768), Color::new(100, 50, 25));
    assert_eq!(c.scale(0), Color::new(0, 0, 0));
    // intensity clamps into [0, 1]
    assert_eq!(c.scale(-5), Color::new(0, 0, 0));
    assert_eq!(c.scale(10 * 65536), c);
}

#[test]
fn clear_resets_every_pixel_and_depth_cell() {
    let mut fb = Framebuffer::new(16, 9);
    fb.set_background_color(0x333355);
    fb.set_current_color(0xFF0000);
    fb.point(3, 4, 100);
    fb.clear();
    for y in 0..9 {
        for x in 0..16 {
            assert_eq!(fb.get_color(x, y), 0x333355);
            assert_eq!(fb.get_depth(x, y), FAR_DEPTH);
        }
    }
}

#[test]
fn point_applies_only_nearer_depths() {
    let mut fb = Framebuffer::new(8, 8);
    fb.set_current_color(0x111111);
    fb.point(2, 2, 1000);
    assert_eq!(fb.get_color(2, 2), 0x111111);
    assert_eq!(fb.get_depth(2, 2), 1000);
    // a farther write is discarded
    fb.set_current_color(0x222222);
    fb.point(2, 2, 2000);
    assert_eq!(fb.get_color(2, 2), 0x111111);
    assert_eq!(fb.get_depth(2, 2), 1000);
    // an equal depth is discarded too: the first writer wins ties
    fb.point(2, 2, 1000);
    assert_eq!(fb.get_color(2, 2), 0x111111);
    // a nearer write lands
    fb.point(2, 2, 999);
    assert_eq!(fb.get_color(2, 2), 0x222222);
    assert_eq!(fb.get_depth(2, 2), 999);
}

#[test]
fn point_outside_bounds_is_a_no_op() {
    let mut fb = Framebuffer::new(4, 4);
    fb.set_current_color(0xABCDEF);
    fb.point(4, 0, 0);
    fb.point(0, 4, 0);
    fb.point(usize::MAX, usize::MAX, 0);
    for y in 0..4 {
        for x in 0..4 {
            assert_eq!(fb.get_color(x, y), 0);
            assert_eq!(fb.get_depth(x, y), FAR_DEPTH);
        }
    }
}

#[test]
fn depth_order_independence_between_two_writes() {
    // writing depth 0.3 then 0.5, or 0.5 then 0.3, leaves the pixel at the
    // color written with depth 0.3 in both orderings
    let d_near: i64 = 19661; // 0.3
    let d_far: i64 = 32768; // 0.5
    let mut fb1 = Framebuffer::new(4, 4);
    fb1.set_current_color(0xAA0000);
    fb1.point(1, 1, d_near);
    fb1.set_current_color(0x00BB00);
    fb1.point(1, 1, d_far);
    let mut fb2 = Framebuffer::new(4, 4);
    fb2.set_current_color(0x00BB00);
    fb2.point(1, 1, d_far);
    fb2.set_current_color(0xAA0000);
    fb2.point(1, 1, d_near);
    assert_eq!(fb1.get_color(1, 1), 0xAA0000);
    assert_eq!(fb2.get_color(1, 1), 0xAA0000);
    assert_eq!(fb1.get_depth(1, 1), d_near);
    assert_eq!(fb2.get_depth(1, 1), d_near);
}

#[test]
fn draw_line_paints_endpoints_and_stays_in_rect() {
    let mut fb = Framebuffer::new(32, 32);
    fb.draw_line(2, 3, 10, 7, 0x888888);
    assert_eq!(fb.get_color(2, 3), 0x888888);
    assert_eq!(fb.get_color(10, 7), 0x888888);
    for y in 0..32 {
        for x in 0..32 {
            let inside = (2..=10).contains(&x) && (3..=7).contains(&y);
            let c = fb.get_color(x, y);
            if !inside {
                assert_eq!(c, 0);
            } else {
                assert!(c == 0 || c == 0x888888);
            }
            // the depth buffer is never touched by the line primitive
            assert_eq!(fb.get_depth(x, y), FAR_DEPTH);
        }
    }
}

#[test]
fn draw_line_never_panics_on_wild_endpoints() {
    let mut fb = Framebuffer::new(8, 8);
    fb.draw_line(usize::MAX, 0, 3, 3, 0x123456);
    fb.draw_line(0, 0, usize::MAX, usize::MAX, 0x123456);
    // beyond the line limit nothing is drawn at all
    for y in 0..8 {
        for x in 0..8 {
            assert_eq!(fb.get_color(x, y), 0);
        }
    }
    // a single-point line paints its pixel
    fb.draw_line(5, 5, 5, 5, 0x654321);
    assert_eq!(fb.get_color(5, 5), 0x654321);
}
