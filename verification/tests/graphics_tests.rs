use kernel::console::{Console, ConsoleOp};
use kernel::graphics::color::{rgb, lerp_fixed, hsv_to_rgb_fixed, RED, GREEN, BLUE, WHITE, BLACK};
use kernel::graphics::fps::FpsCounter;
use kernel::graphics::primitives::Canvas;

fn pixels(c: &Console) -> Vec<(usize, usize, u32)> {
    let mut v = Vec::new();
    for i in 0..c.len() {
        if let ConsoleOp::Pixel(x, y, col) = c.op_at(i) {
            v.push((*x, *y, *col));
        }
    }
    v
}

#[test]
fn rgb_packs_components() {
    assert_eq!(rgb(0x12, 0x34, 0x56), 0x0012_3456);
    assert_eq!(rgb(255, 0, 0), RED);
    assert_eq!(rgb(0, 255, 0), GREEN);
    assert_eq!(rgb(0, 0, 255), BLUE);
}

#[test]
fn lerp_fixed_endpoints_and_middle() {
    assert_eq!(lerp_fixed(BLACK, WHITE, 0), BLACK);
    assert_eq!(lerp_fixed(BLACK, WHITE, 256), WHITE);
    assert_eq!(lerp_fixed(BLACK, WHITE, 128), 0x007F_7F7F);
    // weights outside 0..=256 are clamped
    assert_eq!(lerp_fixed(BLACK, WHITE, -5), BLACK);
    assert_eq!(lerp_fixed(BLACK, WHITE, 1000), WHITE);
    // a falling component truncates toward zero
    assert_eq!(lerp_fixed(0x00FF_0000, 0, 1), 0x00FF_0000);
    assert_eq!(lerp_fixed(0x00FF_0000, 0, 2), 0x00FE_0000);
}

#[test]
fn hsv_fixed_values() {
    assert_eq!(hsv_to_rgb_fixed(0, 0, 200), rgb(200, 200, 200));
    assert_eq!(hsv_to_rgb_fixed(0, 255, 255), rgb(255, 0, 0));
    assert_eq!(hsv_to_rgb_fixed(512, 255, 255), rgb(0, 255, 0));
    assert_eq!(hsv_to_rgb_fixed(1024, 255, 255), rgb(0, 0, 255));
}

#[test]
fn line_visits_every_point_once() {
    let mut canvas = Canvas::new(Console::new(100, 100, 100));
    canvas.line(0, 0, 5, 2, 7);
    let p = pixels(&canvas.console);
    assert_eq!(p.len(), 6);
    assert_eq!(p[0], (0, 0, 7));
    assert_eq!(p[5], (5, 2, 7));
    for w in p.windows(2) {
        assert_eq!(w[1].0, w[0].0 + 1);
        assert!(w[1].1 == w[0].1 || w[1].1 == w[0].1 + 1);
    }
}

#[test]
fn line_steep_and_reversed() {
    let mut canvas = Canvas::new(Console::new(100, 100, 100));
    canvas.line(3, 9, 1, 0, 1);
    let p = pixels(&canvas.console);
    assert_eq!(p.len(), 10);
    assert_eq!(p[0], (3, 9, 1));
    assert_eq!(p[9], (1, 0, 1));
}

#[test]
fn line_clipped_to_screen() {
    let mut canvas = Canvas::new(Console::new(10, 10, 10));
    canvas.line(-5, 5, 14, 5, 2);
    let p = pixels(&canvas.console);
    assert_eq!(p.len(), 10);
    assert_eq!(p[0], (0, 5, 2));
    assert_eq!(p[9], (9, 5, 2));
}

#[test]
fn circle_radius_two() {
    let mut canvas = Canvas::new(Console::new(50, 50, 50));
    canvas.circle(10, 10, 2, 3);
    let p = pixels(&canvas.console);
    // octant points (2,0) and (2,1), eight images each
    assert_eq!(p.len(), 16);
    assert!(p.contains(&(12, 10, 3)));
    assert!(p.contains(&(8, 10, 3)));
    assert!(p.contains(&(10, 12, 3)));
    assert!(p.contains(&(12, 11, 3)));
    for &(x, y, _) in &p {
        let dx = x as i64 - 10;
        let dy = y as i64 - 10;
        let d = dx * dx + dy * dy - 4;
        assert!(d.abs() <= 2);
    }
}

#[test]
fn circle_non_positive_radius_draws_nothing() {
    let mut canvas = Canvas::new(Console::new(50, 50, 50));
    canvas.circle(10, 10, 0, 3);
    canvas.fill_circle(10, 10, -1, 3);
    assert_eq!(canvas.console.len(), 0);
}

#[test]
fn fill_circle_radius_one_is_a_plus() {
    let mut canvas = Canvas::new(Console::new(50, 50, 50));
    canvas.fill_circle(5, 5, 1, 9);
    let p = pixels(&canvas.console);
    assert_eq!(p, vec![(5, 4, 9), (4, 5, 9), (5, 5, 9), (6, 5, 9), (5, 6, 9)]);
}

#[test]
fn triangle_fills_half_square() {
    let mut canvas = Canvas::new(Console::new(50, 50, 50));
    canvas.triangle(0, 0, 3, 0, 0, 3, 4);
    let p = pixels(&canvas.console);
    // points with x + y <= 3 in the 4x4 box
    assert_eq!(p.len(), 10);
    for &(x, y, c) in &p {
        assert!(x + y <= 3);
        assert_eq!(c, 4);
    }
}

#[test]
fn circle_outline_thickness() {
    let mut a = Canvas::new(Console::new(50, 50, 50));
    a.draw_circle_outline(20, 20, 5, 1, 3);
    let mut b = Canvas::new(Console::new(50, 50, 50));
    b.circle(20, 20, 4, 1);
    b.circle(20, 20, 5, 1);
    b.circle(20, 20, 6, 1);
    assert_eq!(pixels(&a.console), pixels(&b.console));
}

#[test]
fn fps_counter_updates_once_a_second() {
    let mut f = FpsCounter::new(1000);
    for t in 0..59u64 {
        f.tick(1000 + t);
    }
    assert_eq!(f.fps(), 0);
    f.tick(1100);
    assert_eq!(f.fps(), 60);
    assert_eq!(f.frame_count, 0);
    assert_eq!(f.last_tick, 1100);
}

#[test]
fn fps_draw_text_in_corner() {
    let mut f = FpsCounter::new(0);
    for t in 0..30u64 {
        f.tick(t * 5);
    }
    let mut c = Console::new(640, 480, 640);
    f.draw(&mut c);
    assert_eq!(c.len(), 2);
    match c.op_at(1) {
        ConsoleOp::TextAt(x, y, s, fg, bg) => {
            assert_eq!(s.as_str(), "21 FPS");
            assert_eq!(*x, 640 - 6 * 8 - 8);
            assert_eq!(*y, 4);
            assert_eq!(*fg, 0x00FF_FFFF);
            assert_eq!(*bg, 0x0011_1111);
        }
        _ => panic!("expected text"),
    }
}

use kernel::display::DisplayBackend;
use kernel::display::pcivga::{PciVgaBackend, VgaWrite};

#[test]
fn vga_set_mode_keeps_program() {
    let mut b = PciVgaBackend::new(0xFFFF_8000_0000_0000);
    assert!(b.take_program().is_empty());
    assert!(!b.set_mode(100, 100, 8));
    assert!(b.take_program().is_empty());
    assert!(b.set_mode(320, 200, 8));
    assert_eq!((b.width(), b.height(), b.pitch()), (320, 200, 320));
    let p = b.take_program();
    assert_eq!(p[0], VgaWrite::Sequencer(0x01, 0x20));
    assert_eq!(p[1], VgaWrite::WaitRetrace);
    assert_eq!(*p.last().unwrap(), VgaWrite::Sequencer(0x01, 0x01));
    assert!(b.take_program().is_empty());
}

#[test]
fn hsv_grey_for_any_value() {
    assert_eq!(hsv_to_rgb_fixed(0, 0, 0x0131_2D7F), 0x007F_7F7F);
    assert_eq!(hsv_to_rgb_fixed(700, 0, 255), 0x00FF_FFFF);
}

#[test]
fn pci_bus_master_bits() {
    assert_eq!(kernel::drivers::pci::bus_master_command(0x0010_0001), 0x0010_0007);
    assert_eq!(kernel::drivers::pci::bus_master_command(6), 6);
}
