use noodle::geometry::{Point, Size};
use noodle::rect::Rect;
use noodle::tiles::{tiles_for_range, Tile, TileDrawingManager};
use std::cell::{Cell, RefCell};

#[test]
fn tile_from_cell_address() {
    let t = Tile::new(2, 3, 512);
    assert_eq!(t.row, 2);
    assert_eq!(t.column, 3);
    assert_eq!(t.rect, Rect::new(3 * 512, 2 * 512, 4 * 512, 3 * 512));
}

#[test]
fn tiles_enumerate_column_major() {
    let ts = tiles_for_range(&Rect::new(1, 1, 3, 3), 512);
    assert_eq!(ts.len(), 4);
    let cells: Vec<(i32, i32)> = ts.iter().map(|t| (t.row, t.column)).collect();
    assert_eq!(cells, vec![(1, 1), (2, 1), (1, 2), (2, 2)]);
    assert_eq!(ts[0].rect, Rect::new(512, 512, 1024, 1024));
    assert_eq!(ts[3].rect, Rect::new(1024, 1024, 1536, 1536));
    assert_eq!(tiles_for_range(&Rect::new(2, 2, 2, 5), 512).len(), 0);
}

#[test]
fn required_region_rounds_and_clamps() {
    let m = TileDrawingManager::new(512, 1, 10000);
    // A 800x600 viewport at the origin covers tiles (0,0)..(2,2); one unit of
    // rounding and one tile of draw-ahead give (0,0)..(3,3) after clamping.
    assert_eq!(
        m.required_tile_rect(Point::new(0, 0), Size::new(800, 600)),
        Rect::new(0, 0, 3, 3)
    );
    // Away from the grid edge the draw-ahead margin stays on all sides.
    assert_eq!(
        m.required_tile_rect(Point::new(2048, 1024), Size::new(800, 600)),
        Rect::new(3, 1, 7, 5)
    );
}

#[test]
fn first_update_draws_everything_once() {
    let mut m = TileDrawingManager::new(512, 1, 10000);
    let draws: RefCell<Vec<(Rect, usize)>> = RefCell::new(Vec::new());
    let trims: RefCell<Vec<Rect>> = RefCell::new(Vec::new());
    let draw_fn = |r: Rect, ts: Vec<Tile>| draws.borrow_mut().push((r, ts.len()));
    let trim_fn = |r: Rect| trims.borrow_mut().push(r);

    let n = m.update_viewport_size(Size::new(800, 600), &draw_fn, &trim_fn);
    assert_eq!(n, 1);
    assert_eq!(m.drawn_tile_rect, Rect::new(0, 0, 3, 3));
    assert_eq!(draws.borrow().as_slice(), &[(Rect::new(0, 0, 1536, 1536), 9)]);
    assert_eq!(trims.borrow().as_slice(), &[Rect::new(0, 0, 1536, 1536)]);
}

#[test]
fn update_is_idempotent() {
    let mut m = TileDrawingManager::new(512, 1, 10000);
    let quiet_draw = |_r: Rect, _ts: Vec<Tile>| {};
    let quiet_trim = |_r: Rect| {};
    m.update_viewport_size(Size::new(800, 600), &quiet_draw, &quiet_trim);

    let draw_calls = Cell::new(0u32);
    let trim_calls = Cell::new(0u32);
    let count_draw = |_r: Rect, _ts: Vec<Tile>| draw_calls.set(draw_calls.get() + 1);
    let count_trim = |_r: Rect| trim_calls.set(trim_calls.get() + 1);
    let n = m.update_visible_region(Point::new(0, 0), &count_draw, &count_trim);
    assert_eq!(n, 0);
    assert_eq!(draw_calls.get(), 0);
    assert_eq!(trim_calls.get(), 0);
    assert_eq!(m.drawn_tile_rect, Rect::new(0, 0, 3, 3));
}

#[test]
fn panning_draws_only_the_new_strip() {
    let mut m = TileDrawingManager::new(512, 1, 10000);
    let quiet_draw = |_r: Rect, _ts: Vec<Tile>| {};
    let quiet_trim = |_r: Rect| {};
    m.update_viewport_size(Size::new(800, 600), &quiet_draw, &quiet_trim);

    let draws: RefCell<Vec<(Rect, usize)>> = RefCell::new(Vec::new());
    let draw_fn = |r: Rect, ts: Vec<Tile>| draws.borrow_mut().push((r, ts.len()));
    let n = m.update_visible_region(Point::new(512, 0), &draw_fn, &quiet_trim);
    // Required grows from (0,0,3,3) to (0,0,4,3): one new column of 3 tiles.
    assert_eq!(n, 1);
    assert_eq!(
        draws.borrow().as_slice(),
        &[(Rect::new(3 * 512, 0, 4 * 512, 3 * 512), 3)]
    );
    // The drawn region equals the just-computed required region.
    assert_eq!(m.drawn_tile_rect, Rect::new(0, 0, 4, 3));
    assert_eq!(
        m.drawn_tile_rect,
        m.required_tile_rect(Point::new(512, 0), Size::new(800, 600))
    );
}

#[test]
fn shrinking_viewport_keeps_coverage() {
    let mut m = TileDrawingManager::new(512, 1, 10000);
    let quiet_draw = |_r: Rect, _ts: Vec<Tile>| {};
    let quiet_trim = |_r: Rect| {};
    m.update_viewport_size(Size::new(800, 600), &quiet_draw, &quiet_trim);
    assert_eq!(m.drawn_tile_rect, Rect::new(0, 0, 3, 3));

    // A smaller viewport needs a subset of what is drawn: nothing to draw,
    // and the recorded coverage is not shrunk.
    let draw_calls = Cell::new(0u32);
    let count_draw = |_r: Rect, _ts: Vec<Tile>| draw_calls.set(draw_calls.get() + 1);
    let n = m.update_viewport_size(Size::new(100, 100), &count_draw, &quiet_trim);
    assert_eq!(n, 0);
    assert_eq!(draw_calls.get(), 0);
    assert_eq!(m.drawn_tile_rect, Rect::new(0, 0, 3, 3));
}

#[test]
fn grid_cap_limits_required_region() {
    // A tiny grid: the required region is clamped to the grid however large
    // the viewport margin would reach.
    let m = TileDrawingManager::new(512, 1, 2);
    assert_eq!(
        m.required_tile_rect(Point::new(0, 0), Size::new(1024, 1024)),
        Rect::new(0, 0, 2, 2)
    );
}

#[test]
fn default_manager_configuration() {
    let m = TileDrawingManager::default();
    assert_eq!(m.tile_size, 512);
    assert_eq!(m.draw_ahead_count, 1);
    assert_eq!(m.max_surface_tiles, 10000);
    assert!(m.drawn_tile_rect.is_empty());
}
