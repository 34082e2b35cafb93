use sensor_display::driver::Screen;
use sensor_display::driver::cycle;
use sensor_display::reading::Reading;
use sensor_display::reading::SensorError;
use sensor_display::renderer::DisplayRenderer;
use sensor_display::renderer::Rotation;

fn fresh() -> DisplayRenderer {
    DisplayRenderer::initialize(128, 64, Rotation::Rotate0, true).unwrap()
}

fn pixels_of(r: &DisplayRenderer) -> Vec<bool> {
    let mut out: Vec<bool> = Vec::new();
    for y in 0..r.height() {
        for x in 0..r.width() {
            out.push(r.pixel(x, y));
        }
    }
    out
}

#[test]
fn border_corners_light_up() {
    let mut r = fresh();
    r.draw_border();
    assert!(r.pixel(0, 0));
    assert!(r.pixel(127, 0));
    assert!(r.pixel(0, 63));
    assert!(r.pixel(127, 63));
    assert!(!r.pixel(5, 5));
}

#[test]
fn clear_leaves_exactly_the_border() {
    let mut r = fresh();
    r.draw_message("23.5°C, 41% RH");
    r.clear();
    for y in 0..64 {
        for x in 0..128 {
            assert_eq!(r.pixel(x, y), x == 0 || y == 0 || x == 127 || y == 63);
        }
    }
}

#[test]
fn clearing_twice_equals_clearing_once() {
    let mut once = fresh();
    once.draw_message("23.5°C, 41% RH");
    once.clear();
    let mut twice = fresh();
    twice.draw_message("23.5°C, 41% RH");
    twice.clear();
    twice.clear();
    assert_eq!(pixels_of(&once), pixels_of(&twice));
}

#[test]
fn sensor_failure_leaves_the_buffer_alone() {
    let mut r = fresh();
    let first = cycle(&mut r, Ok(Reading { temp_tenths: 235, humidity_tenths: 410 }));
    assert!(first.is_some());
    let before = pixels_of(&r);
    let out = cycle(&mut r, Err(SensorError::Timeout));
    assert!(out.is_none());
    assert_eq!(pixels_of(&r), before);
}

#[test]
fn failed_flush_keeps_the_visible_frame() {
    let mut r = fresh();
    let mut screen = Screen::new();
    let f1 = cycle(&mut r, Ok(Reading { temp_tenths: 235, humidity_tenths: 410 })).unwrap();
    assert!(screen.receive(&f1, true).is_ok());
    let shown1 = screen.shown().clone();
    let f2 = cycle(&mut r, Ok(Reading { temp_tenths: -40, humidity_tenths: 995 })).unwrap();
    assert_ne!(f2, f1);
    assert!(screen.receive(&f2, false).is_err());
    assert_eq!(screen.shown(), &shown1);
    assert!(screen.receive(&f2, true).is_ok());
    assert_eq!(screen.shown(), &f2);
}

#[test]
fn unacknowledged_controller_fails_initialisation() {
    assert!(DisplayRenderer::initialize(128, 64, Rotation::Rotate0, false).is_err());
}

#[test]
fn quarter_turn_swaps_the_axes() {
    let r = DisplayRenderer::initialize(128, 64, Rotation::Rotate90, true).unwrap();
    assert_eq!(r.width(), 64);
    assert_eq!(r.height(), 128);
}

#[test]
fn packing_puts_the_top_row_in_the_low_bit() {
    let mut r = DisplayRenderer::initialize(16, 8, Rotation::Rotate0, true).unwrap();
    r.draw_border();
    let f = r.frame_bytes();
    assert_eq!(f.len(), 16);
    assert_eq!(f[0], 0xFF);
    assert_eq!(f[15], 0xFF);
    for x in 1..15 {
        assert_eq!(f[x], 0x81);
    }
}
