//! Tile coordinate model for a virtualized drawing surface: the deterministic
//! mapping between pixel space and a grid of fixed-size tiles, and the
//! manager that tracks which tile region is materialized and computes the
//! incremental work on each viewport movement.

use crate::div_trunc;
use crate::geometry::{Point, Size};
use crate::rect::Rect;
use vstd::arithmetic::div_mod::{lemma_fundamental_div_mod_converse, lemma_div_multiples_vanish};
use vstd::arithmetic::mul::lemma_mul_inequality;
use vstd::prelude::*;

verus! {

/// One fixed-size grid cell, addressed by `(row, column)`, with its pixel
/// rectangle derived from the cell address and the tile size.
#[derive(Clone, Copy, Debug, PartialEq, Eq, Structural)]
pub struct Tile {
    pub row: i32,
    pub column: i32,
    pub rect: Rect,
}

impl Tile {
    pub fn new(row: i32, column: i32, tile_size: i32) -> (t: Tile)
        requires
            tile_size >= 1,
            i32::MIN <= column * tile_size,
            column * tile_size + tile_size <= i32::MAX,
            i32::MIN <= row * tile_size,
            row * tile_size + tile_size <= i32::MAX,
        ensures
            t.row == row,
            t.column == column,
            t.rect.left == column * tile_size,
            t.rect.top == row * tile_size,
            t.rect.right == column * tile_size + tile_size,
            t.rect.bottom == row * tile_size + tile_size,
    {
        let x = column * tile_size;
        let y = row * tile_size;
        Tile {
            row,
            column,
            rect: Rect { left: x, top: y, right: x + tile_size, bottom: y + tile_size },
        }
    }
}

impl Default for Tile {
    fn default() -> (t: Tile)
        ensures
            t.row == 0 && t.column == 0,
            t.rect == (Rect { left: 0, top: 0, right: 0, bottom: 0 }),
    {
        Tile { row: 0, column: 0, rect: Rect { left: 0, top: 0, right: 0, bottom: 0 } }
    }
}

/// The tiles covered by a tile-space rectangle, column by column and within
/// each column row by row: the cell at position `m` of the result has column
/// `left + m / height` and row `top + m % height`.
pub fn tiles_for_range(tile_rect: &Rect, tile_size: i32) -> (ts: Vec<Tile>)
    requires
        tile_size >= 1,
        i32::MIN <= tile_rect.left * tile_size,
        tile_rect.right * tile_size <= i32::MAX,
        i32::MIN <= tile_rect.top * tile_size,
        tile_rect.bottom * tile_size <= i32::MAX,
        tile_rect.right - tile_rect.left <= i32::MAX,
        tile_rect.bottom - tile_rect.top <= i32::MAX,
    ensures
        ts@.len() == if tile_rect.spec_is_empty() {
            0
        } else {
            (tile_rect.right - tile_rect.left) * (tile_rect.bottom - tile_rect.top)
        },
        forall|m: int| 0 <= m < ts@.len() ==> {
            let h = tile_rect.bottom - tile_rect.top;
            &&& (#[trigger] ts@[m]).column == tile_rect.left + m / h
            &&& ts@[m].row == tile_rect.top + m % h
            &&& ts@[m].rect.left == ts@[m].column * tile_size
            &&& ts@[m].rect.top == ts@[m].row * tile_size
            &&& ts@[m].rect.right == ts@[m].column * tile_size + tile_size
            &&& ts@[m].rect.bottom == ts@[m].row * tile_size + tile_size
        },
{
    let mut ts: Vec<Tile> = Vec::new();
    if tile_rect.left >= tile_rect.right || tile_rect.top >= tile_rect.bottom {
        return ts;
    }
    let ghost h = tile_rect.bottom - tile_rect.top;
    let mut i = tile_rect.left;
    while i < tile_rect.right
        invariant
            tile_size >= 1,
            tile_rect.left <= i <= tile_rect.right,
            tile_rect.left < tile_rect.right,
            tile_rect.top < tile_rect.bottom,
            i32::MIN <= tile_rect.left * tile_size,
            tile_rect.right * tile_size <= i32::MAX,
            i32::MIN <= tile_rect.top * tile_size,
            tile_rect.bottom * tile_size <= i32::MAX,
            h == tile_rect.bottom - tile_rect.top,
            ts@.len() == (i - tile_rect.left) * h,
            forall|m: int| 0 <= m < ts@.len() ==> {
                &&& (#[trigger] ts@[m]).column == tile_rect.left + m / h
                &&& ts@[m].row == tile_rect.top + m % h
                &&& ts@[m].rect.left == ts@[m].column * tile_size
                &&& ts@[m].rect.top == ts@[m].row * tile_size
                &&& ts@[m].rect.right == ts@[m].column * tile_size + tile_size
                &&& ts@[m].rect.bottom == ts@[m].row * tile_size + tile_size
            },
        decreases tile_rect.right - i,
    {
        let mut j = tile_rect.top;
        while j < tile_rect.bottom
            invariant
                tile_size >= 1,
                tile_rect.left <= i < tile_rect.right,
                tile_rect.top <= j <= tile_rect.bottom,
                tile_rect.left < tile_rect.right,
                tile_rect.top < tile_rect.bottom,
                i32::MIN <= tile_rect.left * tile_size,
                tile_rect.right * tile_size <= i32::MAX,
                i32::MIN <= tile_rect.top * tile_size,
                tile_rect.bottom * tile_size <= i32::MAX,
                h == tile_rect.bottom - tile_rect.top,
                ts@.len() == (i - tile_rect.left) * h + (j - tile_rect.top),
                forall|m: int| 0 <= m < ts@.len() ==> {
                    &&& (#[trigger] ts@[m]).column == tile_rect.left + m / h
                    &&& ts@[m].row == tile_rect.top + m % h
                    &&& ts@[m].rect.left == ts@[m].column * tile_size
                    &&& ts@[m].rect.top == ts@[m].row * tile_size
                    &&& ts@[m].rect.right == ts@[m].column * tile_size + tile_size
                    &&& ts@[m].rect.bottom == ts@[m].row * tile_size + tile_size
                },
            decreases tile_rect.bottom - j,
        {
            proof {
                lemma_mul_inequality(tile_rect.left as int, i as int, tile_size as int);
                lemma_mul_inequality(i + 1, tile_rect.right as int, tile_size as int);
                assert((i + 1) * tile_size == i * tile_size + tile_size) by (nonlinear_arith);
                lemma_mul_inequality(tile_rect.top as int, j as int, tile_size as int);
                lemma_mul_inequality(j + 1, tile_rect.bottom as int, tile_size as int);
                assert((j + 1) * tile_size == j * tile_size + tile_size) by (nonlinear_arith);
            }
            let tile = Tile::new(j, i, tile_size);
            ts.push(tile);
            proof {
                let m = ts@.len() - 1;
                assert(m == (i - tile_rect.left) * h + (j - tile_rect.top));
                lemma_fundamental_div_mod_converse(
                    m,
                    h as int,
                    i - tile_rect.left,
                    j - tile_rect.top,
                );
                assert(ts@[m].column == tile_rect.left + m / (h as int));
                assert(ts@[m].row == tile_rect.top + m % (h as int));
            }
            j += 1;
        }
        i += 1;
        proof {
            assert((i - tile_rect.left) * h == (i - 1 - tile_rect.left) * h + h)
                by (nonlinear_arith);
        }
    }
    proof {
        assert(ts@.len() == (tile_rect.right - tile_rect.left) * h);
    }
    ts
}

/// The default edge length of one tile, in pixels.
pub const TILE_SIZE: i32 = 512;

/// The default pre-render margin, in tiles, drawn beyond the visible
/// viewport on every side.
pub const DRAW_AHEAD_TILE_COUNT: i32 = 1;

/// The default safety cap on the tile grid, per axis, in tiles.
pub const MAX_SURFACE_TILES: i32 = 10000;

/// Tracks which tile region of a virtualized scrolling surface has been
/// materialized, and on each viewport movement computes the delta to draw
/// and the region to keep, invoking caller-supplied draw and trim callbacks.
#[derive(Debug)]
pub struct TileDrawingManager {
    /// The tile-space envelope of tiles currently materialized on the
    /// backing surface; empty before the first draw.
    pub drawn_tile_rect: Rect,
    /// The current viewport position, in pixels.
    pub current_position: Point,
    /// The viewport extent, in pixels.
    pub view_port_size: Size,
    /// The edge length of one tile, in pixels; fixed for the manager's
    /// lifetime.
    pub tile_size: i32,
    /// How many tiles beyond the viewport to draw ahead on every side.
    pub draw_ahead_count: i32,
    /// The tile grid's safety cap, per axis, in tiles.
    pub max_surface_tiles: i32,
}

impl TileDrawingManager {
    /// Configuration and state well-formedness: the constructor establishes
    /// it and every update preserves it.
    pub open spec fn wf(self) -> bool {
        &&& 1 <= self.tile_size
        &&& 0 <= self.draw_ahead_count <= 10000
        &&& 0 <= self.max_surface_tiles <= 10000
        &&& self.max_surface_tiles * self.tile_size <= i32::MAX
        &&& 0 <= self.current_position.x
        &&& 0 <= self.current_position.y
        &&& 0 <= self.view_port_size.width
        &&& 0 <= self.view_port_size.height
        &&& self.current_position.x + self.view_port_size.width
            <= self.tile_size * self.max_surface_tiles
        &&& self.current_position.y + self.view_port_size.height
            <= self.tile_size * self.max_surface_tiles
    }

    /// The tile rectangle that must be materialized for a viewport at `pos`
    /// with extent `vp`: the tiles covering the viewport rounded outward,
    /// grown by the draw-ahead margin, clamped to the tile grid.
    pub open spec fn spec_required_tile_rect(self, pos: Point, vp: Size) -> Rect {
        let t = self.tile_size as int;
        let a = self.draw_ahead_count as int;
        let m = self.max_surface_tiles as int;
        let l0 = div_trunc(pos.x as int, t) - a;
        let t0 = div_trunc(pos.y as int, t) - a;
        let r0 = div_trunc(pos.x + vp.width, t) + 1 + a;
        let b0 = div_trunc(pos.y + vp.height, t) + 1 + a;
        Rect {
            left: (if l0 >= 0 { l0 } else { 0 }) as i32,
            top: (if t0 >= 0 { t0 } else { 0 }) as i32,
            right: (if r0 <= m { r0 } else { m }) as i32,
            bottom: (if b0 <= m { b0 } else { m }) as i32,
        }
    }

    /// The bounds a viewport must satisfy to be tracked: non-negative
    /// position and extent, lying within the virtual surface.
    pub open spec fn viewport_ok(self, pos: Point, vp: Size) -> bool {
        &&& 0 <= pos.x
        &&& 0 <= pos.y
        &&& 0 <= vp.width
        &&& 0 <= vp.height
        &&& pos.x + vp.width <= self.tile_size * self.max_surface_tiles
        &&& pos.y + vp.height <= self.tile_size * self.max_surface_tiles
    }

    /// A manager for a tile grid of `max_surface_tiles` x `max_surface_tiles`
    /// cells of `tile_size` pixels each, with nothing drawn yet and an empty
    /// viewport at the origin.
    pub fn new(tile_size: i32, draw_ahead_count: i32, max_surface_tiles: i32) -> (m:
        TileDrawingManager)
        requires
            1 <= tile_size,
            0 <= draw_ahead_count <= 10000,
            0 <= max_surface_tiles <= 10000,
            max_surface_tiles * tile_size <= i32::MAX,
        ensures
            m.wf(),
            m.tile_size == tile_size,
            m.draw_ahead_count == draw_ahead_count,
            m.max_surface_tiles == max_surface_tiles,
            m.drawn_tile_rect.spec_is_empty(),
            m.current_position == (Point { x: 0, y: 0 }),
            m.view_port_size == (Size { width: 0, height: 0 }),
    {
        proof {
            lemma_mul_inequality(0, max_surface_tiles as int, tile_size as int);
        }
        TileDrawingManager {
            drawn_tile_rect: Rect { left: 0, top: 0, right: 0, bottom: 0 },
            current_position: Point { x: 0, y: 0 },
            view_port_size: Size { width: 0, height: 0 },
            tile_size,
            draw_ahead_count,
            max_surface_tiles,
        }
    }

    /// The required tile rectangle for the given viewport: the visible tile
    /// range rounded outward by one unit, outset by the draw-ahead margin,
    /// and clamped to the tile grid.
    pub fn required_tile_rect(&self, pos: Point, vp: Size) -> (r: Rect)
        requires
            self.wf(),
            self.viewport_ok(pos, vp),
        ensures
            r == self.spec_required_tile_rect(pos, vp),
            0 <= r.left <= self.max_surface_tiles,
            0 <= r.top <= self.max_surface_tiles,
            0 <= r.right <= self.max_surface_tiles,
            0 <= r.bottom <= self.max_surface_tiles,
    {
        proof {
            self.lemma_required_edges_bounded(pos, vp);
        }
        let visible = pos.with_size(vp);
        let scaled = visible.scale_down(self.tile_size);
        let grown = scaled.expand(Size { width: 1, height: 1 });
        let ahead = grown.outset(self.draw_ahead_count, self.draw_ahead_count);
        let grid = Rect { left: 0, top: 0, right: self.max_surface_tiles, bottom: self.max_surface_tiles };
        ahead.intersect(grid)
    }

    /// New parts of the surface are visible because the viewport moved:
    /// computes the tile areas that are required but not yet drawn, invokes
    /// `draw_fn` once for each (with the area's pixel rectangle and its
    /// tiles), tells `trim_fn` which pixel region must be kept, and records
    /// the new drawn region. Returns how many areas were drawn; zero means
    /// the required region was already fully materialized and no callback
    /// was invoked. Both callbacks run synchronously before the call
    /// returns, and the exclusive borrow of the manager rules out re-entrant
    /// updates from within a callback.
    #[verifier::loop_isolation(false)]
    pub fn update_visible_region<F: Fn(Rect, Vec<Tile>), G: Fn(Rect)>(
        &mut self,
        pos: Point,
        draw_fn: &F,
        trim_fn: &G,
    ) -> (n: usize)
        requires
            old(self).wf(),
            old(self).viewport_ok(pos, old(self).view_port_size),
            forall|r: Rect, ts: Vec<Tile>| #[trigger] call_requires(*draw_fn, (r, ts)),
            forall|r: Rect| #[trigger] call_requires(*trim_fn, (r,)),
        ensures
            final(self).wf(),
            final(self).current_position == pos,
            final(self).view_port_size == old(self).view_port_size,
            final(self).tile_size == old(self).tile_size,
            final(self).draw_ahead_count == old(self).draw_ahead_count,
            final(self).max_surface_tiles == old(self).max_surface_tiles,
            n == old(self).spec_required_tile_rect(pos, old(self).view_port_size).spec_subtract(
                old(self).drawn_tile_rect,
            ).len(),
            n > 0 ==> final(self).drawn_tile_rect == old(self).spec_required_tile_rect(
                pos,
                old(self).view_port_size,
            ),
            n == 0 ==> final(self).drawn_tile_rect == old(self).drawn_tile_rect,
            (n == 0) <==> ({
                let req = old(self).spec_required_tile_rect(pos, old(self).view_port_size);
                !req.spec_is_empty() && req.covered_by(old(self).drawn_tile_rect)
            }),
            old(self).spec_required_tile_rect(pos, old(self).view_port_size).covered_by(
                final(self).drawn_tile_rect,
            ),
    {
        self.current_position = pos;
        let required = self.required_tile_rect(pos, self.view_port_size);
        let to_draw = required.subtract(self.drawn_tile_rect);
        if to_draw.len() == 0 {
            return 0;
        }
        let mut idx: usize = 0;
        while idx < to_draw.len()
            invariant
                idx <= to_draw.len(),
            decreases to_draw.len() - idx,
        {
            let r = to_draw[idx];
            proof {
                self.lemma_scale_safe(r, required);
            }
            let draw_rect = r.scale(self.tile_size);
            let tiles = tiles_for_range(&r, self.tile_size);
            draw_fn(draw_rect, tiles);
            idx += 1;
        }
        proof {
            self.lemma_scale_safe(required, required);
        }
        let trim_rect = required.scale(self.tile_size);
        trim_fn(trim_rect);
        self.drawn_tile_rect = required;
        to_draw.len()
    }

    /// Updates the viewport extent and recomputes the visible region from
    /// the unchanged position under the new extent.
    pub fn update_viewport_size<F: Fn(Rect, Vec<Tile>), G: Fn(Rect)>(
        &mut self,
        new_size: Size,
        draw_fn: &F,
        trim_fn: &G,
    ) -> (n: usize)
        requires
            old(self).wf(),
            old(self).viewport_ok(old(self).current_position, new_size),
            forall|r: Rect, ts: Vec<Tile>| #[trigger] call_requires(*draw_fn, (r, ts)),
            forall|r: Rect| #[trigger] call_requires(*trim_fn, (r,)),
        ensures
            final(self).wf(),
            final(self).current_position == old(self).current_position,
            final(self).view_port_size == new_size,
            final(self).tile_size == old(self).tile_size,
            final(self).draw_ahead_count == old(self).draw_ahead_count,
            final(self).max_surface_tiles == old(self).max_surface_tiles,
            n == old(self).spec_required_tile_rect(old(self).current_position, new_size)
                .spec_subtract(old(self).drawn_tile_rect).len(),
            n > 0 ==> final(self).drawn_tile_rect == old(self).spec_required_tile_rect(
                old(self).current_position,
                new_size,
            ),
            n == 0 ==> final(self).drawn_tile_rect == old(self).drawn_tile_rect,
            (n == 0) <==> ({
                let req = old(self).spec_required_tile_rect(old(self).current_position, new_size);
                !req.spec_is_empty() && req.covered_by(old(self).drawn_tile_rect)
            }),
            old(self).spec_required_tile_rect(old(self).current_position, new_size).covered_by(
                final(self).drawn_tile_rect,
            ),
    {
        self.view_port_size = new_size;
        let pos = self.current_position;
        self.update_visible_region(pos, draw_fn, trim_fn)
    }

    /// Any tile rectangle whose edges stay within the clamped required
    /// region's edges can be scaled to pixel space without overflow.
    proof fn lemma_scale_safe(self, r: Rect, required: Rect)
        requires
            self.wf(),
            0 <= required.left <= self.max_surface_tiles,
            0 <= required.top <= self.max_surface_tiles,
            0 <= required.right <= self.max_surface_tiles,
            0 <= required.bottom <= self.max_surface_tiles,
            r == required || (required.left <= r.left && r.right <= required.right
                && required.top <= r.top && r.bottom <= required.bottom
                && !r.spec_is_empty()),
        ensures
            0 <= r.left * self.tile_size <= i32::MAX,
            0 <= r.top * self.tile_size <= i32::MAX,
            0 <= r.right * self.tile_size <= i32::MAX,
            0 <= r.bottom * self.tile_size <= i32::MAX,
            r.right * self.tile_size - r.left * self.tile_size <= i32::MAX,
            r.bottom * self.tile_size - r.top * self.tile_size <= i32::MAX,
            r.right - r.left <= i32::MAX,
            r.bottom - r.top <= i32::MAX,
    {
        let t = self.tile_size as int;
        let m = self.max_surface_tiles as int;
        lemma_mul_inequality(0, r.left as int, t);
        lemma_mul_inequality(0, r.top as int, t);
        lemma_mul_inequality(0, r.right as int, t);
        lemma_mul_inequality(0, r.bottom as int, t);
        lemma_mul_inequality(r.left as int, m, t);
        lemma_mul_inequality(r.top as int, m, t);
        lemma_mul_inequality(r.right as int, m, t);
        lemma_mul_inequality(r.bottom as int, m, t);
        vstd::arithmetic::mul::lemma_mul_is_commutative(t, m);
    }

    /// Updating is idempotent: once the drawn region equals the required
    /// tile rectangle of a viewport, updating again from the same position
    /// and extent finds the required region non-empty and already covered,
    /// so `update_visible_region` reports zero drawn areas, leaves the state
    /// unchanged, and never reaches its callbacks.
    ///
    /// A grid of at least one tile is assumed, and either a draw-ahead
    /// margin or a position strictly inside the surface: a zero draw-ahead
    /// viewport parked exactly on the surface's far edge requires an empty
    /// tile rectangle, which is never recorded as covered.
    pub proof fn lemma_update_idempotent(self, pos: Point, vp: Size)
        requires
            self.wf(),
            self.viewport_ok(pos, vp),
            1 <= self.max_surface_tiles,
            1 <= self.draw_ahead_count || (pos.x < self.tile_size * self.max_surface_tiles
                && pos.y < self.tile_size * self.max_surface_tiles),
            self.drawn_tile_rect == self.spec_required_tile_rect(pos, vp),
        ensures
            !self.spec_required_tile_rect(pos, vp).spec_is_empty(),
            self.spec_required_tile_rect(pos, vp).covered_by(self.drawn_tile_rect),
    {
        let t = self.tile_size as int;
        let a = self.draw_ahead_count as int;
        let m = self.max_surface_tiles as int;
        self.lemma_required_edges_bounded(pos, vp);
        let l0 = div_trunc(pos.x as int, t) - a;
        let r0 = div_trunc(pos.x + vp.width, t) + 1 + a;
        let t0 = div_trunc(pos.y as int, t) - a;
        let b0 = div_trunc(pos.y + vp.height, t) + 1 + a;
        // The left edge never reaches the right edge: the division is
        // monotone in the dividend, and the grid still has room.
        vstd::arithmetic::div_mod::lemma_div_is_ordered(pos.x as int, pos.x + vp.width, t);
        vstd::arithmetic::div_mod::lemma_div_is_ordered(pos.y as int, pos.y + vp.height, t);
        assert(l0 < r0 && t0 < b0);
        if a == 0 {
            // Position strictly inside the surface: its tile index is
            // strictly under the cap.
            vstd::arithmetic::div_mod::lemma_fundamental_div_mod(pos.x as int, t);
            vstd::arithmetic::div_mod::lemma_mod_pos_bound(pos.x as int, t);
            vstd::arithmetic::div_mod::lemma_fundamental_div_mod(pos.y as int, t);
            vstd::arithmetic::div_mod::lemma_mod_pos_bound(pos.y as int, t);
            assert(div_trunc(pos.x as int, t) < m) by {
                if div_trunc(pos.x as int, t) >= m {
                    lemma_mul_inequality(m, pos.x as int / t, t);
                    vstd::arithmetic::mul::lemma_mul_is_commutative(pos.x as int / t, t);
                    vstd::arithmetic::mul::lemma_mul_is_commutative(m, t);
                }
            }
            assert(div_trunc(pos.y as int, t) < m) by {
                if div_trunc(pos.y as int, t) >= m {
                    lemma_mul_inequality(m, pos.y as int / t, t);
                    vstd::arithmetic::mul::lemma_mul_is_commutative(pos.y as int / t, t);
                    vstd::arithmetic::mul::lemma_mul_is_commutative(m, t);
                }
            }
        }
        assert(l0 < m && t0 < m);
        assert(!self.spec_required_tile_rect(pos, vp).spec_is_empty());
    }

    /// The unclamped required edges stay in a small range around the grid,
    /// so none of the steps that compute them can overflow.
    proof fn lemma_required_edges_bounded(self, pos: Point, vp: Size)
        requires
            self.wf(),
            self.viewport_ok(pos, vp),
        ensures
            0 <= div_trunc(pos.x as int, self.tile_size as int) <= self.max_surface_tiles,
            0 <= div_trunc(pos.y as int, self.tile_size as int) <= self.max_surface_tiles,
            0 <= div_trunc(pos.x + vp.width, self.tile_size as int) <= self.max_surface_tiles,
            0 <= div_trunc(pos.y + vp.height, self.tile_size as int) <= self.max_surface_tiles,
    {
        let t = self.tile_size as int;
        let m = self.max_surface_tiles as int;
        lemma_div_multiples_vanish(m, t);
        vstd::arithmetic::div_mod::lemma_div_is_ordered(pos.x as int, t * m, t);
        vstd::arithmetic::div_mod::lemma_div_is_ordered(pos.y as int, t * m, t);
        vstd::arithmetic::div_mod::lemma_div_is_ordered(pos.x + vp.width, t * m, t);
        vstd::arithmetic::div_mod::lemma_div_is_ordered(pos.y + vp.height, t * m, t);
        vstd::arithmetic::div_mod::lemma_div_pos_is_pos(pos.x as int, t);
        vstd::arithmetic::div_mod::lemma_div_pos_is_pos(pos.y as int, t);
        vstd::arithmetic::div_mod::lemma_div_pos_is_pos(pos.x + vp.width, t);
        vstd::arithmetic::div_mod::lemma_div_pos_is_pos(pos.y + vp.height, t);
        vstd::arithmetic::mul::lemma_mul_is_commutative(t, m);
    }
}


impl Default for TileDrawingManager {
    /// A manager with the default tile size, draw-ahead margin and grid
    /// cap: nothing drawn, and an empty viewport at the origin.
    fn default() -> (m: TileDrawingManager)
        ensures
            m.wf(),
            m.tile_size == TILE_SIZE,
            m.draw_ahead_count == DRAW_AHEAD_TILE_COUNT,
            m.max_surface_tiles == MAX_SURFACE_TILES,
            m.drawn_tile_rect.spec_is_empty(),
            m.current_position == (Point { x: 0, y: 0 }),
            m.view_port_size == (Size { width: 0, height: 0 }),
    {
        TileDrawingManager::new(TILE_SIZE, DRAW_AHEAD_TILE_COUNT, MAX_SURFACE_TILES)
    }
}

} // verus!

