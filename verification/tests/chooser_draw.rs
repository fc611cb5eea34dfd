use niri_zones::chooser::{decimal_digit, KeyInput, ZoneChooser};
use niri_zones::draw::{
    draw_digit, draw_zone, fill_rect, label_color, paint_zone, premul_value, stroke_rect, zone_colors,
    PixelRect,
};
use niri_zones::layout::{Direction, ZoneId};

fn chooser(n: usize) -> ZoneChooser {
    let mut c = ZoneChooser::new();
    c.set_zones((1..=n).map(|i| ZoneId::from(i.to_string().as_str())).collect());
    c
}

#[test]
fn digit_keys_choose_zones_immediately() {
    let mut c = chooser(3);
    assert_eq!(c.handle_key(KeyInput::Text(Some('2'))), None);
    assert!(c.exit());
    assert_eq!(c.selected(), 1);
    assert_eq!(c.confirmed().as_ref().unwrap().0, "2");
}

#[test]
fn out_of_range_and_zero_digits_are_ignored() {
    let mut c = chooser(2);
    c.handle_key(KeyInput::Text(Some('9')));
    c.handle_key(KeyInput::Text(Some('0')));
    c.handle_key(KeyInput::Text(Some('x')));
    c.handle_key(KeyInput::Text(None));
    assert!(!c.exit());
    assert!(c.confirmed().is_none());
}

#[test]
fn arrows_ask_for_directional_moves_and_enter_confirms() {
    let mut c = chooser(4);
    assert_eq!(c.handle_key(KeyInput::Right), Some(Direction::Right));
    assert_eq!(c.handle_key(KeyInput::Down), Some(Direction::Down));
    assert!(c.highlight(3));
    assert!(!c.highlight(3));
    assert_eq!(c.handle_key(KeyInput::Enter), None);
    assert_eq!(c.confirmed().as_ref().unwrap().0, "4");
    assert!(c.exit());
}

#[test]
fn escape_cancels_without_choice() {
    let mut c = chooser(2);
    c.handle_key(KeyInput::Escape);
    assert!(c.exit());
    assert!(c.confirmed().is_none());
}

#[test]
fn fewer_zones_reset_the_highlight() {
    let mut c = chooser(4);
    c.highlight(3);
    c.set_zones(vec![ZoneId::from("a")]);
    assert_eq!(c.selected(), 0);
}

#[test]
fn decimal_digits_are_ascii_only() {
    assert_eq!(decimal_digit('7'), Some(7));
    assert_eq!(decimal_digit('٣'), None);
    assert_eq!(decimal_digit('a'), None);
}

#[test]
fn premultiplied_value_scales_color_channels() {
    assert_eq!(premul_value(128, 255, 0, 0), 0x8080_0000);
    assert_eq!(premul_value(255, 1, 2, 3), 0xff01_0203);
    assert_eq!(premul_value(0, 255, 255, 255), 0);
}

fn pixel(canvas: &[u8], width: u32, x: u32, y: u32) -> [u8; 4] {
    let o = ((y * width + x) * 4) as usize;
    [canvas[o], canvas[o + 1], canvas[o + 2], canvas[o + 3]]
}

#[test]
fn fill_rect_clips_to_the_buffer() {
    let (w, h) = (4u32, 3u32);
    let mut canvas = vec![0u8; (w * h * 4) as usize];
    let color = [1, 2, 3, 4];
    fill_rect(&mut canvas, (w, h), PixelRect { x0: -5, y0: 1, x1: 2, y1: 99 }, color);
    for y in 0..h {
        for x in 0..w {
            let expected = if x < 2 && y >= 1 { color } else { [0; 4] };
            assert_eq!(pixel(&canvas, w, x, y), expected, "pixel {x},{y}");
        }
    }
}

#[test]
fn stroke_rect_leaves_the_interior() {
    let (w, h) = (6u32, 6u32);
    let mut canvas = vec![0u8; (w * h * 4) as usize];
    let color = [9, 9, 9, 9];
    stroke_rect(&mut canvas, (w, h), PixelRect { x0: 0, y0: 0, x1: 6, y1: 6 }, 1, color);
    for y in 0..h {
        for x in 0..w {
            let edge = x == 0 || y == 0 || x == 5 || y == 5;
            assert_eq!(pixel(&canvas, w, x, y), if edge { color } else { [0; 4] });
        }
    }
}

#[test]
fn digit_one_is_drawn_from_its_bitmap() {
    let (w, h) = (10u32, 14u32);
    let mut canvas = vec![0u8; (w * h * 4) as usize];
    let color = [7, 7, 7, 7];
    // scale 1: glyph 5x7 with its top-left corner at (5 - 2, 7 - 3).
    draw_digit(&mut canvas, (w, h), 1, (5, 7), 1, color);
    let rows = [0b00100u8, 0b01100, 0b10100, 0b00100, 0b00100, 0b00100, 0b11111];
    for (r, bits) in rows.iter().enumerate() {
        for c in 0..5u32 {
            let set = bits & (1 << (4 - c)) != 0;
            let p = pixel(&canvas, w, 3 + c, 4 + r as u32);
            assert_eq!(p, if set { color } else { [0; 4] }, "cell {r},{c}");
        }
    }
    let painted = canvas.chunks(4).filter(|p| *p == color).count();
    assert_eq!(painted, rows.iter().map(|b| b.count_ones() as usize).sum::<usize>());
}

#[test]
fn zone_tile_has_fill_border_and_label() {
    let (w, h) = (200u32, 200u32);
    let mut canvas = vec![0u8; (w * h * 4) as usize];
    let (fill, border) = zone_colors(true);
    let text = label_color();
    paint_zone(&mut canvas, (w, h), PixelRect { x0: 10, y0: 10, x1: 190, y1: 190 }, fill, border, 3, text);
    assert_eq!(pixel(&canvas, w, 10, 10), border);
    assert_eq!(pixel(&canvas, w, 12, 100), border);
    assert_eq!(pixel(&canvas, w, 13, 13), fill);
    assert_eq!(pixel(&canvas, w, 0, 0), [0; 4]);
    // scale = min(180, 180) / 18 = 10; the digit's 5x7 cells start at (100 - 25, 100 - 35).
    assert_eq!(pixel(&canvas, w, 75, 65), text);
    assert_ne!(fill, zone_colors(false).0);
}

#[test]
fn labels_above_nine_get_no_digit() {
    let (w, h) = (40u32, 40u32);
    let mut canvas = vec![0u8; (w * h * 4) as usize];
    let (fill, border) = zone_colors(false);
    paint_zone(&mut canvas, (w, h), PixelRect { x0: 0, y0: 0, x1: 40, y1: 40 }, fill, border, 10, label_color());
    assert!(canvas.chunks(4).all(|p| p == fill || p == border));
}

#[test]
fn draw_zone_paints_selected_tile_brighter() {
    let (w, h) = (100u32, 80u32);
    let bounds = PixelRect { x0: 20, y0: 10, x1: 100, y1: 80 };
    let mut selected = vec![0u8; (w * h * 4) as usize];
    draw_zone(&mut selected, (w, h), bounds, true, 12);
    let mut plain = vec![0u8; (w * h * 4) as usize];
    draw_zone(&mut plain, (w, h), bounds, false, 12);
    assert_eq!(pixel(&selected, w, 50, 40), zone_colors(true).0);
    assert_eq!(pixel(&selected, w, 20, 10), zone_colors(true).1);
    assert_eq!(pixel(&plain, w, 50, 40), zone_colors(false).0);
    assert_eq!(pixel(&plain, w, 99, 79), zone_colors(false).1);
    assert_eq!(pixel(&plain, w, 19, 9), [0; 4]);
}

#[test]
fn draw_zone_labels_with_the_digit() {
    let (w, h) = (200u32, 200u32);
    let mut canvas = vec![0u8; (w * h * 4) as usize];
    draw_zone(&mut canvas, (w, h), PixelRect { x0: 10, y0: 10, x1: 190, y1: 190 }, false, 3);
    // scale 10: the digit's first row starts at (100 - 25, 100 - 35).
    assert_eq!(pixel(&canvas, w, 75, 65), label_color());
}

#[test]
fn digit_with_negative_scale_draws_nothing() {
    let (w, h) = (20u32, 20u32);
    let mut canvas = vec![0u8; (w * h * 4) as usize];
    draw_digit(&mut canvas, (w, h), 8, (10, 10), -2, [9, 9, 9, 9]);
    assert!(canvas.iter().all(|&b| b == 0));
}
