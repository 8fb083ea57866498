use simple_game_examples::draw::Draw;
use simple_game_examples::{Canvas, Rgb};

fn fill_through_capability<S: Draw>(surface: &mut S, color: Rgb) {
    surface.fill(color);
}

#[test]
fn canvas_implements_the_draw_capability() {
    let mut canvas = Canvas::new(3, 3, 3);
    fill_through_capability(&mut canvas, Rgb::green());
    Draw::set_pixel(&mut canvas, 1, 1, Rgb::red());
    Draw::draw_horizontal_line(&mut canvas, 0, 0, 3, Rgb::blue());
    let data = Draw::access_data(&canvas);
    assert_eq!(&data[0..3], &[0, 0, 255]);
    let center = 1 * 3 + 1 * 3 * 3;
    assert_eq!(&data[center..center + 3], &[255, 0, 0]);
    let bottom = 0 * 3 + 2 * 3 * 3;
    assert_eq!(&data[bottom..bottom + 3], &[0, 255, 0]);
}

#[test]
fn capability_diagonal_matches_canvas_diagonal() {
    let mut c1 = Canvas::new(6, 6, 3);
    let mut c2 = Canvas::new(6, 6, 3);
    Draw::draw_diagonal_line(&mut c1, 0, 5, 5, 0, Rgb::red());
    c2.draw_diagonal_line(0, 5, 5, 0, Rgb::red());
    assert_eq!(c1.access_data(), c2.access_data());
}
