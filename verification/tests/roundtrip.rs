//! The message round trip: a reading rendered and packed by the library is
//! transferred to a mock bus sink, unpacked, and its glyph region decoded
//! with the same rasteriser the renderer relies on.

use embedded_graphics::Drawable;
use embedded_graphics::framebuffer::Framebuffer;
use embedded_graphics::geometry::Point;
use embedded_graphics::mono_font::MonoTextStyle;
use embedded_graphics::mono_font::ascii::FONT_6X10;
use embedded_graphics::pixelcolor::BinaryColor;
use embedded_graphics::pixelcolor::raw::LittleEndian;
use embedded_graphics::pixelcolor::raw::RawU1;
use embedded_graphics::text::Baseline;
use embedded_graphics::text::Text;
use sensor_display::driver::cycle;
use sensor_display::reading::Reading;
use sensor_display::renderer::DisplayRenderer;
use sensor_display::renderer::Rotation;

/// Unpacks a page-organised frame into a row-major pixel grid.
fn unpack(frame: &[u8], width: usize, height: usize) -> Vec<Vec<bool>> {
    let mut grid = vec![vec![false; width]; height];
    for (i, b) in frame.iter().enumerate() {
        let x: usize = i % width;
        let page: usize = i / width;
        for k in 0..8 {
            grid[page * 8 + k][x] = ((b >> k) & 1) == 1;
        }
    }
    assert_eq!(frame.len() * 8, width * height);
    grid
}

/// The 6 by 10 pixel cell one glyph occupies, as the rasteriser draws it.
fn glyph_cell(ch: &str) -> Vec<Vec<bool>> {
    let style = MonoTextStyle::new(&FONT_6X10, BinaryColor::On);
    let mut fb = Framebuffer::<BinaryColor, RawU1, LittleEndian, 8, 16, 16>::new();
    Text::with_baseline(ch, Point::new(0, 0), style, Baseline::Top).draw(&mut fb).unwrap();
    let data = fb.data();
    let mut cell = vec![vec![false; 6]; 10];
    for y in 0..10 {
        for x in 0..6 {
            cell[y][x] = ((data[y] >> (7 - x)) & 1) == 1;
        }
    }
    cell
}

#[test]
fn rendered_message_decodes_back() {
    let mut r = DisplayRenderer::initialize(128, 64, Rotation::Rotate0, true).unwrap();
    let frame = cycle(&mut r, Ok(Reading { temp_tenths: 235, humidity_tenths: 410 })).unwrap();
    let grid = unpack(&frame, 128, 64);
    let candidates = [
        "0", "1", "2", "3", "4", "5", "6", "7", "8", "9", ".", ",", "%", " ", "R", "H", "C", "°",
    ];
    let mut decoded = String::new();
    for i in 0..14 {
        let x0: usize = 2 + 6 * i;
        let mut found: Option<&str> = None;
        for cand in candidates.iter() {
            let cell = glyph_cell(cand);
            let mut cell_matches = true;
            for y in 0..10 {
                for x in 0..6 {
                    if grid[16 + y][x0 + x] != cell[y][x] {
                        cell_matches = false;
                    }
                }
            }
            if cell_matches {
                found = Some(*cand);
                break;
            }
        }
        decoded.push_str(found.expect("glyph did not match any candidate"));
    }
    assert_eq!(decoded, "23.5°C, 41% RH");
}
