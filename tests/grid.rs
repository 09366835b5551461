use tile_renderer::grid::{tiles_along, RenderConfig, TilePos, TILE_SIZE, WINDOW_HEIGHT, WINDOW_WIDTH};

#[test]
fn tiles_along_is_ceiling() {
    assert_eq!(tiles_along(1280, 40), 32);
    assert_eq!(tiles_along(720, 40), 18);
    assert_eq!(tiles_along(100, 30), 4);
    assert_eq!(tiles_along(90, 30), 3);
    assert_eq!(tiles_along(0, 7), 0);
    assert_eq!(tiles_along(1, 1), 1);
    assert_eq!(tiles_along(u32::MAX, 2), 1u32 << 31);
}

#[test]
fn default_window_draws_576_tiles() {
    let c = RenderConfig::window();
    assert_eq!((c.window_width, c.window_height, c.tile_size), (WINDOW_WIDTH, WINDOW_HEIGHT, TILE_SIZE));
    assert_eq!(c.columns(), 32);
    assert_eq!(c.rows(), 18);
    assert_eq!(c.tile_count(), 576);
    assert_eq!(c.frame_plan().len(), 576);
}

#[test]
fn one_tile_covers_square_window() {
    let c = RenderConfig::new(100, 100, 100);
    assert_eq!(c.tile_count(), 1);
    assert_eq!(c.frame_plan(), vec![TilePos { left: 0, right: 100, top: 0, bottom: 100 }]);
}

#[test]
fn plan_goes_column_by_column() {
    let c = RenderConfig::new(5, 3, 2);
    let p = c.frame_plan();
    let origins: Vec<(u64, u64)> = p.iter().map(|t| (t.left, t.top)).collect();
    assert_eq!(origins, vec![(0, 0), (0, 2), (2, 0), (2, 2), (4, 0), (4, 2)]);
    assert_eq!(p[5], TilePos { left: 4, right: 6, top: 2, bottom: 4 });
}

#[test]
fn tile_position_matches_plan() {
    let c = RenderConfig::window();
    let p = c.frame_plan();
    assert_eq!(c.tile_position(31, 17), TilePos { left: 1240, right: 1280, top: 680, bottom: 720 });
    assert_eq!(p[575], c.tile_position(31, 17));
    assert_eq!(p[18], c.tile_position(1, 0));
}

#[test]
fn empty_window_has_no_tiles() {
    let c = RenderConfig::new(0, 720, 40);
    assert_eq!(c.tile_count(), 0);
    assert!(c.frame_plan().is_empty());
}

#[test]
fn every_pixel_in_exactly_one_tile() {
    for &(w, h, s) in &[(10u32, 7u32, 3u32), (12, 12, 4), (1, 9, 5), (40, 40, 40)] {
        let p = RenderConfig::new(w, h, s).frame_plan();
        for x in 0..w as u64 {
            for y in 0..h as u64 {
                let n = p
                    .iter()
                    .filter(|t| t.left <= x && x < t.right && t.top <= y && y < t.bottom)
                    .count();
                assert_eq!(n, 1, "pixel ({}, {}) of {}x{} tiled by {}", x, y, w, h, s);
            }
        }
        for t in &p {
            assert!(t.left < w as u64 && t.top < h as u64);
        }
    }
}

#[test]
fn tile_local_position_repeats_with_tile_size() {
    let c = RenderConfig::window();
    let p = c.frame_plan();
    for &(x, y) in &[(0u64, 0u64), (39, 39), (40, 0), (1279, 719), (655, 123)] {
        let t = p
            .iter()
            .find(|t| t.left <= x && x < t.right && t.top <= y && y < t.bottom)
            .unwrap();
        assert_eq!((x - t.left, y - t.top), (x % 40, y % 40));
    }
}
