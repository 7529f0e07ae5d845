use planetarium::framebuffer::{Framebuffer, FAR_DEPTH};

#[test]
fn depth_test_idempotence() {
    let mut fb = Framebuffer::new(4, 4);
    fb.set_background_color(0x333355);
    fb.clear();
    fb.set_current_color(0xFF0000);
    fb.point(1, 1, 100);
    let colors_once = fb.buffer.clone();
    let depths_once = fb.zbuffer.clone();
    fb.point(1, 1, 100);
    assert_eq!(fb.buffer, colors_once);
    assert_eq!(fb.zbuffer, depths_once);
}

#[test]
fn depth_ordering_far_then_near() {
    let mut fb = Framebuffer::new(4, 4);
    fb.clear();
    fb.set_current_color(0x00FF00);
    fb.point(2, 2, 200);
    fb.set_current_color(0x0000FF);
    fb.point(2, 2, 100);
    let i = 2 * 4 + 2;
    assert_eq!(fb.buffer[i], 0x0000FF);
    assert_eq!(fb.zbuffer[i], 100);
}

#[test]
fn depth_ordering_near_then_far() {
    let mut fb = Framebuffer::new(4, 4);
    fb.clear();
    fb.set_current_color(0x0000FF);
    fb.point(2, 2, 100);
    fb.set_current_color(0x00FF00);
    fb.point(2, 2, 200);
    let i = 2 * 4 + 2;
    assert_eq!(fb.buffer[i], 0x0000FF);
    assert_eq!(fb.zbuffer[i], 100);
}

#[test]
fn bounds_rejection_never_mutates() {
    let mut fb = Framebuffer::new(4, 3);
    fb.set_background_color(0x101010);
    fb.clear();
    fb.set_current_color(0xABCDEF);
    let colors = fb.buffer.clone();
    let depths = fb.zbuffer.clone();
    fb.plot(4, 0, 1);
    fb.plot(0, 3, 1);
    fb.plot(100, 100, 1);
    fb.plot(-1, 0, 1);
    fb.plot(0, -5, 1);
    assert_eq!(fb.buffer, colors);
    assert_eq!(fb.zbuffer, depths);
}

#[test]
fn clear_resets_state() {
    let mut fb = Framebuffer::new(3, 3);
    fb.set_background_color(0x333355);
    fb.set_current_color(0xFFFFFF);
    fb.point(0, 0, 5);
    fb.point(2, 2, 7);
    fb.clear();
    for i in 0..9 {
        assert_eq!(fb.buffer[i], 0x333355);
        assert_eq!(fb.zbuffer[i], FAR_DEPTH);
    }
    // The first write at any pixel after a clear always succeeds.
    fb.set_current_color(0x00FF00);
    fb.point(0, 0, 900_000);
    assert_eq!(fb.buffer[0], 0x00FF00);
    assert_eq!(fb.zbuffer[0], 900_000);
}

#[test]
fn in_bounds_plot_writes() {
    let mut fb = Framebuffer::new(4, 4);
    fb.clear();
    fb.set_current_color(0x123456);
    fb.plot(3, 1, 42);
    let i = 1 * 4 + 3;
    assert_eq!(fb.buffer[i], 0x123456);
    assert_eq!(fb.zbuffer[i], 42);
}
