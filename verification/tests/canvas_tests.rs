use simple_game_examples::{Canvas, Rgb};

fn pixel(data: &[u8], width: usize, bpp: usize, x: usize, y: usize) -> (u8, u8, u8) {
    let i = x * bpp + y * width * bpp;
    (data[i], data[i + 1], data[i + 2])
}

fn count_pixels_with(data: &[u8], width: usize, height: usize, bpp: usize, color: Rgb) -> usize {
    let mut n = 0;
    for y in 0..height {
        for x in 0..width {
            if pixel(data, width, bpp, x, y) == (color.red, color.green, color.blue) {
                n += 1;
            }
        }
    }
    n
}

#[test]
fn new_canvas_is_zero_filled() {
    let canvas = Canvas::new(4, 3, 3);
    assert_eq!(canvas.width, 4);
    assert_eq!(canvas.height, 3);
    assert_eq!(canvas.bpp, 3);
    let data = canvas.access_data();
    assert_eq!(data.len(), 4 * 3 * 3);
    assert!(data.iter().all(|&b| b == 0));
}

#[test]
fn span_is_width_times_bpp() {
    let canvas = Canvas::new(7, 2, 4);
    assert_eq!(canvas.span(), 28);
}

#[test]
fn fill_sets_every_pixel() {
    let mut canvas = Canvas::new(5, 4, 3);
    canvas.fill(Rgb::red());
    let data = canvas.access_data();
    assert_eq!(data.len(), 5 * 4 * 3);
    for y in 0..4 {
        for x in 0..5 {
            assert_eq!(pixel(data, 5, 3, x, y), (255, 0, 0));
        }
    }
}

#[test]
fn fill_with_four_bytes_per_pixel_leaves_pad_byte() {
    let mut canvas = Canvas::new(3, 2, 4);
    canvas.fill(Rgb::white());
    let data = canvas.access_data();
    assert_eq!(data.len(), 3 * 2 * 4);
    for p in 0..6 {
        assert_eq!(data[p * 4], 255);
        assert_eq!(data[p * 4 + 1], 255);
        assert_eq!(data[p * 4 + 2], 255);
        assert_eq!(data[p * 4 + 3], 0);
    }
}

#[test]
fn new_with_color_fills() {
    let canvas = Canvas::new_with_color(2, 2, Rgb::green(), 3);
    let data = canvas.access_data();
    for y in 0..2 {
        for x in 0..2 {
            assert_eq!(pixel(data, 2, 3, x, y), (0, 255, 0));
        }
    }
}

#[test]
fn set_pixel_writes_three_channels() {
    let mut canvas = Canvas::new(4, 4, 3);
    canvas.set_pixel(2, 1, Rgb::blue());
    let data = canvas.access_data();
    assert_eq!(pixel(data, 4, 3, 2, 1), (0, 0, 255));
    assert_eq!(count_pixels_with(data, 4, 4, 3, Rgb::blue()), 1);
}

#[test]
fn set_pixel_out_of_bounds_is_dropped() {
    let mut canvas = Canvas::new(4, 4, 3);
    canvas.set_pixel(4, 0, Rgb::red());
    canvas.set_pixel(0, 4, Rgb::red());
    canvas.set_pixel(100, 100, Rgb::red());
    assert!(canvas.access_data().iter().all(|&b| b == 0));
}

#[test]
fn set_pixel_from_index_writes_at_offset() {
    let mut canvas = Canvas::new(4, 1, 3);
    canvas.set_pixel_from_index(6, Rgb::white());
    let data = canvas.access_data();
    assert_eq!(&data[6..9], &[255, 255, 255]);
    assert!(data[..6].iter().all(|&b| b == 0));
    assert!(data[9..].iter().all(|&b| b == 0));
}

#[test]
fn into_raw_hands_out_the_buffer() {
    let mut canvas = Canvas::new(2, 2, 3);
    canvas.set_pixel(0, 0, Rgb::red());
    let (w, h, data) = canvas.into_raw();
    assert_eq!((w, h), (2, 2));
    assert_eq!(data.len(), 12);
    assert_eq!(&data[0..3], &[255, 0, 0]);
}

#[test]
fn horizontal_line_covers_half_open_range() {
    let mut canvas = Canvas::new(8, 4, 3);
    canvas.draw_horizontal_line(2, 1, 5, Rgb::red());
    let data = canvas.access_data();
    for x in 1..5 {
        assert_eq!(pixel(data, 8, 3, x, 2), (255, 0, 0));
    }
    assert_eq!(count_pixels_with(data, 8, 4, 3, Rgb::red()), 4);
}

#[test]
fn horizontal_line_is_clipped() {
    let mut canvas = Canvas::new(4, 3, 3);
    canvas.draw_horizontal_line(1, 2, 100, Rgb::green());
    canvas.draw_horizontal_line(7, 0, 4, Rgb::green());
    let data = canvas.access_data();
    assert_eq!(pixel(data, 4, 3, 2, 1), (0, 255, 0));
    assert_eq!(pixel(data, 4, 3, 3, 1), (0, 255, 0));
    assert_eq!(count_pixels_with(data, 4, 3, 3, Rgb::green()), 2);
}

#[test]
fn vertical_line_covers_half_open_range() {
    let mut canvas = Canvas::new(4, 8, 3);
    canvas.draw_vertical_line(3, 2, 6, Rgb::blue());
    let data = canvas.access_data();
    for y in 2..6 {
        assert_eq!(pixel(data, 4, 3, 3, y), (0, 0, 255));
    }
    assert_eq!(count_pixels_with(data, 4, 8, 3, Rgb::blue()), 4);
}

#[test]
fn vertical_line_is_clipped() {
    let mut canvas = Canvas::new(3, 4, 3);
    canvas.draw_vertical_line(1, 3, 50, Rgb::red());
    canvas.draw_vertical_line(9, 0, 4, Rgb::red());
    let data = canvas.access_data();
    assert_eq!(pixel(data, 3, 3, 1, 3), (255, 0, 0));
    assert_eq!(count_pixels_with(data, 3, 4, 3, Rgb::red()), 1);
}

#[test]
fn diagonal_line_unit_slope_sets_four_pixels() {
    let mut canvas = Canvas::new(5, 5, 3);
    canvas.draw_diagonal_line(0, 0, 4, 4, Rgb::red());
    let data = canvas.access_data();
    for k in 0..4 {
        assert_eq!(pixel(data, 5, 3, k, k), (255, 0, 0));
    }
    assert_eq!(count_pixels_with(data, 5, 5, 3, Rgb::red()), 4);
}

#[test]
fn diagonal_line_zero_length_sets_one_pixel() {
    let mut canvas = Canvas::new(5, 5, 3);
    canvas.draw_diagonal_line(0, 0, 0, 0, Rgb::red());
    let data = canvas.access_data();
    assert_eq!(pixel(data, 5, 3, 0, 0), (255, 0, 0));
    assert_eq!(count_pixels_with(data, 5, 5, 3, Rgb::red()), 1);
}

#[test]
fn diagonal_line_reverse_direction() {
    let mut canvas = Canvas::new(5, 5, 3);
    canvas.draw_diagonal_line(4, 4, 0, 0, Rgb::blue());
    let data = canvas.access_data();
    for k in 1..5 {
        assert_eq!(pixel(data, 5, 3, k, k), (0, 0, 255));
    }
    assert_eq!(count_pixels_with(data, 5, 5, 3, Rgb::blue()), 4);
}

#[test]
fn diagonal_line_steep_slope_rounds_down() {
    let mut canvas = Canvas::new(4, 4, 3);
    canvas.draw_diagonal_line(0, 0, 1, 3, Rgb::green());
    let data = canvas.access_data();
    assert_eq!(pixel(data, 4, 3, 0, 0), (0, 255, 0));
    assert_eq!(pixel(data, 4, 3, 0, 1), (0, 255, 0));
    assert_eq!(pixel(data, 4, 3, 0, 2), (0, 255, 0));
    assert_eq!(count_pixels_with(data, 4, 4, 3, Rgb::green()), 3);
}

#[test]
fn diagonal_line_off_canvas_is_clipped() {
    let mut canvas = Canvas::new(3, 3, 3);
    canvas.draw_diagonal_line(0, 0, 10, 10, Rgb::red());
    let data = canvas.access_data();
    assert_eq!(count_pixels_with(data, 3, 3, 3, Rgb::red()), 3);
}
