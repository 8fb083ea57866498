use simple_game_examples::tilemap::{GameMap, Tile, TileCorner};
use simple_game_examples::{Canvas, Point, Rgb};

fn demo_map() -> GameMap {
    let mut tile = Tile::new(80, 40);
    tile.color = Rgb::blue();
    let mut map = GameMap {
        tile,
        map_size: (20, 10),
        map_origin: (5, 1),
        shift_x: 0,
        shift_y: 0,
        map_to_screen_transform: [0, 0, 0, 0],
    };
    map.calculate_transform();
    map
}

#[test]
fn tile_new_builds_the_diamond() {
    let tile = Tile::new(80, 40);
    assert_eq!(tile.color, Rgb::black());
    assert_eq!(tile.pt1, (40, 0));
    assert_eq!(tile.pt2, (80, 20));
    assert_eq!(tile.pt3, (40, 40));
    assert_eq!(tile.pt4, (0, 20));
    assert_eq!(tile.width, 80);
    assert_eq!(tile.height, 40);
}

#[test]
fn square_tile_has_equal_sides() {
    let tile = Tile::square(64);
    assert_eq!(tile.width, 64);
    assert_eq!(tile.height, 64);
    assert_eq!(tile.pt1, (32, 0));
}

#[test]
fn line_segments_connect_the_vertices() {
    let tile = Tile::new(80, 40);
    let segs = tile.get_line_segments();
    assert_eq!((segs[0].p1.x, segs[0].p1.y), (40, 0));
    assert_eq!((segs[0].p2.x, segs[0].p2.y), (80, 20));
    assert_eq!((segs[1].p2.x, segs[1].p2.y), (40, 40));
    assert_eq!((segs[2].p2.x, segs[2].p2.y), (0, 20));
    assert_eq!((segs[3].p2.x, segs[3].p2.y), (40, 0));
}

#[test]
fn corner_classification() {
    let tile = Tile::new(80, 40);
    assert_eq!(
        tile.point_is_outside_tile(Point { x: 0, y: 0 }),
        TileCorner::TopLeft
    );
    assert_eq!(
        tile.point_is_outside_tile(Point { x: 79, y: 0 }),
        TileCorner::TopRight
    );
    assert_eq!(
        tile.point_is_outside_tile(Point { x: 0, y: 39 }),
        TileCorner::BottomLeft
    );
    assert_eq!(
        tile.point_is_outside_tile(Point { x: 79, y: 39 }),
        TileCorner::BottomRight
    );
    assert_eq!(
        tile.point_is_outside_tile(Point { x: 40, y: 20 }),
        TileCorner::NotInCorner
    );
    assert_eq!(
        tile.point_is_outside_tile(Point { x: 41, y: 19 }),
        TileCorner::NotInCorner
    );
}

#[test]
fn calculate_transform_derives_shift_and_matrix() {
    let map = demo_map();
    assert_eq!(map.shift_x, 400);
    assert_eq!(map.shift_y, 40);
    assert_eq!(map.map_to_screen_transform, [40, -40, 20, 20]);
}

#[test]
fn transform_of_grid_origin_is_the_shift() {
    let map = demo_map();
    assert_eq!(map.transform_coordinate(0, 0), (400, 40));
}

#[test]
fn transform_moves_by_matrix_columns() {
    let map = demo_map();
    assert_eq!(map.transform_coordinate(1, 0), (440, 60));
    assert_eq!(map.transform_coordinate(0, 1), (360, 60));
    assert_eq!(map.transform_coordinate(2, 2), (400, 120));
    assert_eq!(map.transform_coordinate(2, 1), (440, 100));
}

#[test]
fn mouse_at_tile_center_selects_the_tile() {
    let map = demo_map();
    for &(col, row) in &[(0usize, 0usize), (2, 1), (2, 2), (7, 3), (19, 9)] {
        let (sx, sy) = map.transform_coordinate(col, row);
        let got = map.mouse_to_world_coordinate(sx + 40, sy + 20);
        assert_eq!(got, Some((col, row)));
    }
}

#[test]
fn mouse_at_tile_box_origin_selects_the_diagonal_neighbour() {
    // the top-left corner of a tile's bounding rectangle lies outside its
    // diamond, so it belongs to the neighbour one column to the left
    let map = demo_map();
    let (sx, sy) = map.transform_coordinate(2, 2);
    assert_eq!(map.mouse_to_world_coordinate(sx, sy), Some((1, 2)));
    let (ox, oy) = map.transform_coordinate(0, 0);
    assert_eq!(map.mouse_to_world_coordinate(ox, oy), None);
}

#[test]
fn mouse_far_outside_the_map_selects_nothing() {
    let map = demo_map();
    assert_eq!(map.mouse_to_world_coordinate(30000, 30000), None);
    assert_eq!(map.mouse_to_world_coordinate(0, 0), None);
}

#[test]
fn draw_tile_paints_the_diamond_edges() {
    let map = demo_map();
    let mut canvas = Canvas::new_with_color(800, 600, Rgb::white(), 3);
    map.draw_tile(0, 0, &mut canvas);
    let data = canvas.access_data();
    // the top vertex of tile (0, 0) sits at (400 + 40, 40 + 0)
    let i = 440 * 3 + 40 * 800 * 3;
    assert_eq!(&data[i..i + 3], &[0, 0, 255]);
    // a pixel far from the tile stays white
    let j = 10 * 3 + 500 * 800 * 3;
    assert_eq!(&data[j..j + 3], &[255, 255, 255]);
}
