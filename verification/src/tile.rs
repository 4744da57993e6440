//! Tile geometry: the mapping between tile indices and the rectangular
//! pixel regions they cover. Tiles at the right and bottom edges are
//! clipped to the image bounds; together the tile rectangles partition
//! the image exactly.

use vstd::prelude::*;

use crate::config::{div_ceil, lemma_div_ceil_bounds, lemma_mul_le, AppConfig};

verus! {

/// Column of tile `t` in the tile grid.
pub open spec fn spec_tile_col(c: AppConfig, t: int) -> int {
    t % c.spec_tiles_x()
}

/// Row of tile `t` in the tile grid.
pub open spec fn spec_tile_row(c: AppConfig, t: int) -> int {
    t / c.spec_tiles_x()
}

/// Least x coordinate covered by tile `t`.
pub open spec fn spec_x_min(c: AppConfig, t: int) -> int {
    spec_tile_col(c, t) * c.tile_size
}

/// Least y coordinate covered by tile `t`.
pub open spec fn spec_y_min(c: AppConfig, t: int) -> int {
    spec_tile_row(c, t) * c.tile_size
}

/// Greatest x coordinate covered by tile `t`, clipped to the image.
pub open spec fn spec_x_max(c: AppConfig, t: int) -> int {
    if spec_x_min(c, t) + c.tile_size - 1 <= c.width - 1 {
        spec_x_min(c, t) + c.tile_size - 1
    } else {
        c.width - 1
    }
}

/// Greatest y coordinate covered by tile `t`, clipped to the image.
pub open spec fn spec_y_max(c: AppConfig, t: int) -> int {
    if spec_y_min(c, t) + c.tile_size - 1 <= c.height - 1 {
        spec_y_min(c, t) + c.tile_size - 1
    } else {
        c.height - 1
    }
}

/// The bounds of tile `t` as `(x_min, y_min, x_max, y_max)`.
pub open spec fn spec_tile_bounds(c: AppConfig, t: int) -> (int, int, int, int) {
    (spec_x_min(c, t), spec_y_min(c, t), spec_x_max(c, t), spec_y_max(c, t))
}

/// Whether pixel `(x, y)` lies within the bounds of tile `t`.
pub open spec fn tile_contains(c: AppConfig, t: int, x: int, y: int) -> bool {
    &&& spec_x_min(c, t) <= x <= spec_x_max(c, t)
    &&& spec_y_min(c, t) <= y <= spec_y_max(c, t)
}

/// The index of the tile whose bounds hold pixel `(x, y)`.
pub open spec fn spec_tile_of(c: AppConfig, x: int, y: int) -> int {
    (y / c.tile_size as int) * c.spec_tiles_x() + x / c.tile_size as int
}

/// Returns the minimum and maximum x/y coordinates covered by a tile index:
/// `(x_min, y_min, x_max, y_max)`, all inclusive and inside the image.
pub fn get_tile_bounds(config: &AppConfig, tile_idx: u32) -> (r: (u32, u32, u32, u32))
    requires
        config.valid(),
        tile_idx < config.spec_tiles(),
    ensures
        r.0 == spec_x_min(*config, tile_idx as int),
        r.1 == spec_y_min(*config, tile_idx as int),
        r.2 == spec_x_max(*config, tile_idx as int),
        r.3 == spec_y_max(*config, tile_idx as int),
        r.0 <= r.2 < config.width,
        r.1 <= r.3 < config.height,
{
    let ghost t = tile_idx as int;
    proof {
        lemma_tile_coords_in_grid(*config, t);
        lemma_tile_origin_in_image(*config, t);
    }
    let tiles_x = config.tiles_x();
    let ts = config.tile_size as u32;

    let tile_col = tile_idx % tiles_x;
    let tile_row = tile_idx / tiles_x;

    let x_min = tile_col * ts;
    let y_min = tile_row * ts;

    let x_end = x_min as u64 + ts as u64 - 1;
    let x_max: u32 = if x_end <= (config.width - 1) as u64 {
        x_end as u32
    } else {
        config.width - 1
    };

    let y_end = y_min as u64 + ts as u64 - 1;
    let y_max: u32 = if y_end <= (config.height - 1) as u64 {
        y_end as u32
    } else {
        config.height - 1
    };

    (x_min, y_min, x_max, y_max)
}

/// A tile index below the tile count has its column inside the grid's
/// columns and its row inside the grid's rows.
pub proof fn lemma_tile_coords_in_grid(c: AppConfig, t: int)
    requires
        c.valid(),
        0 <= t < c.spec_tiles(),
    ensures
        0 <= spec_tile_col(c, t) < c.spec_tiles_x(),
        0 <= spec_tile_row(c, t) < c.spec_tiles_y(),
{
    lemma_div_ceil_bounds(c.width as int, c.tile_size as int);
    lemma_div_ceil_bounds(c.height as int, c.tile_size as int);
    let tx = c.spec_tiles_x();
    let ty = c.spec_tiles_y();
    vstd::arithmetic::div_mod::lemma_mod_bound(t, tx);
    vstd::arithmetic::div_mod::lemma_fundamental_div_mod(t, tx);
    vstd::arithmetic::div_mod::lemma_mod_bound(t, tx);
    let q = t / tx;
    let r = t % tx;
    assert(q < ty) by (nonlinear_arith)
        requires
            t == tx * q + r,
            0 <= r < tx,
            t < tx * ty,
            tx >= 1;
    assert(q >= 0) by (nonlinear_arith)
        requires
            t == tx * q + r,
            0 <= r < tx,
            t >= 0,
            tx >= 1;
}

/// The top-left pixel of a tile lies inside the image.
pub proof fn lemma_tile_origin_in_image(c: AppConfig, t: int)
    requires
        c.valid(),
        0 <= t < c.spec_tiles(),
    ensures
        0 <= spec_x_min(c, t) < c.width,
        0 <= spec_y_min(c, t) < c.height,
{
    lemma_tile_coords_in_grid(c, t);
    lemma_div_ceil_bounds(c.width as int, c.tile_size as int);
    lemma_div_ceil_bounds(c.height as int, c.tile_size as int);
    let ts = c.tile_size as int;
    lemma_mul_le(spec_tile_col(c, t), ts, c.spec_tiles_x() - 1, ts);
    lemma_mul_le(spec_tile_row(c, t), ts, c.spec_tiles_y() - 1, ts);
    assert((c.spec_tiles_x() - 1) * ts == ts * (div_ceil(c.width as int, ts) - 1));
    assert((c.spec_tiles_y() - 1) * ts == ts * (div_ceil(c.height as int, ts) - 1));
}

/// For `ts >= 1` and non-negative `x` and `j`: `x` lies in the `ts`-wide
/// window starting at `j * ts` exactly when `x / ts == j`.
proof fn lemma_window_iff_quotient(x: int, j: int, ts: int)
    requires
        ts >= 1,
        0 <= x,
        0 <= j,
    ensures
        (j * ts <= x < j * ts + ts) <==> x / ts == j,
{
    if j * ts <= x < j * ts + ts {
        vstd::arithmetic::div_mod::lemma_fundamental_div_mod_converse(x, ts, j, x - j * ts);
    }
    if x / ts == j {
        vstd::arithmetic::div_mod::lemma_fundamental_div_mod(x, ts);
        vstd::arithmetic::div_mod::lemma_mod_bound(x, ts);
        assert(x == ts * j + x % ts);
        assert(ts * j == j * ts) by (nonlinear_arith);
    }
}

/// Every pixel of the image is assigned a tile index inside the tile count.
pub proof fn lemma_tile_of_in_range(c: AppConfig, x: int, y: int)
    requires
        c.valid(),
        0 <= x < c.width,
        0 <= y < c.height,
    ensures
        0 <= spec_tile_of(c, x, y) < c.spec_tiles(),
{
    lemma_div_ceil_bounds(c.width as int, c.tile_size as int);
    lemma_div_ceil_bounds(c.height as int, c.tile_size as int);
    let ts = c.tile_size as int;
    let tx = c.spec_tiles_x();
    let ty = c.spec_tiles_y();
    let cx = x / ts;
    let cy = y / ts;
    vstd::arithmetic::div_mod::lemma_fundamental_div_mod(x, ts);
    vstd::arithmetic::div_mod::lemma_mod_bound(x, ts);
    vstd::arithmetic::div_mod::lemma_fundamental_div_mod(y, ts);
    vstd::arithmetic::div_mod::lemma_mod_bound(y, ts);
    assert(cx < tx) by (nonlinear_arith)
        requires
            x == ts * cx + x % ts,
            0 <= x % ts < ts,
            x < ts * tx,
            ts >= 1;
    assert(cy < ty) by (nonlinear_arith)
        requires
            y == ts * cy + y % ts,
            0 <= y % ts < ts,
            y < ts * ty,
            ts >= 1;
    assert(cx >= 0) by (nonlinear_arith)
        requires
            x == ts * cx + x % ts,
            0 <= x % ts < ts,
            x >= 0,
            ts >= 1;
    assert(cy >= 0) by (nonlinear_arith)
        requires
            y == ts * cy + y % ts,
            0 <= y % ts < ts,
            y >= 0,
            ts >= 1;
    assert(cy * tx + cx < tx * ty) by (nonlinear_arith)
        requires
            0 <= cx < tx,
            0 <= cy < ty;
    assert(cy * tx + cx >= 0) by (nonlinear_arith)
        requires
            0 <= cx,
            0 <= cy,
            tx >= 1;
}

/// A tile's bounds hold a pixel exactly when the pixel's assigned tile
/// index is that tile.
pub proof fn lemma_tile_contains_iff(c: AppConfig, t: int, x: int, y: int)
    requires
        c.valid(),
        0 <= t < c.spec_tiles(),
        0 <= x < c.width,
        0 <= y < c.height,
    ensures
        tile_contains(c, t, x, y) <==> t == spec_tile_of(c, x, y),
{
    lemma_tile_coords_in_grid(c, t);
    lemma_tile_of_in_range(c, x, y);
    let ts = c.tile_size as int;
    let tx = c.spec_tiles_x();
    let col = spec_tile_col(c, t);
    let row = spec_tile_row(c, t);
    lemma_window_iff_quotient(x, col, ts);
    lemma_window_iff_quotient(y, row, ts);
    vstd::arithmetic::div_mod::lemma_fundamental_div_mod(t, tx);
    if tile_contains(c, t, x, y) {
        // The clipped upper bounds are at most one window wide, so
        // containment puts the pixel in the tile's window.
        assert(x / ts == col);
        assert(y / ts == row);
        assert(t == (y / ts) * tx + x / ts) by (nonlinear_arith)
            requires
                t == tx * (t / tx) + t % tx,
                t / tx == y / ts,
                t % tx == x / ts;
    }
    if t == spec_tile_of(c, x, y) {
        let cx = x / ts;
        let cy = y / ts;
        lemma_tile_of_in_range(c, x, y);
        assert(cx >= 0 && cy >= 0 && cx < tx) by {
            vstd::arithmetic::div_mod::lemma_fundamental_div_mod(x, ts);
            vstd::arithmetic::div_mod::lemma_mod_bound(x, ts);
            vstd::arithmetic::div_mod::lemma_fundamental_div_mod(y, ts);
            vstd::arithmetic::div_mod::lemma_mod_bound(y, ts);
            lemma_div_ceil_bounds(c.width as int, ts);
            assert(cx < tx) by (nonlinear_arith)
                requires
                    x == ts * cx + x % ts,
                    0 <= x % ts < ts,
                    x < ts * tx,
                    ts >= 1;
            assert(cx >= 0 && cy >= 0) by (nonlinear_arith)
                requires
                    x == ts * cx + x % ts,
                    0 <= x % ts < ts,
                    y == ts * cy + y % ts,
                    0 <= y % ts < ts,
                    x >= 0,
                    y >= 0,
                    ts >= 1;
        }
        vstd::arithmetic::div_mod::lemma_fundamental_div_mod_converse(t, tx, cy, cx);
        assert(col == cx && row == cy);
        assert(col * ts <= x < col * ts + ts);
        assert(row * ts <= y < row * ts + ts);
    }
}

/// Law: the tile rectangles partition the image. Every pixel lies within
/// the bounds of its assigned tile, and of no other tile; so a run that
/// merges each tile exactly once writes every pixel exactly once.
pub proof fn lemma_tiles_partition(c: AppConfig)
    requires
        c.valid(),
    ensures
        forall|x: int, y: int|
            0 <= x < c.width && 0 <= y < c.height ==> {
                &&& 0 <= #[trigger] spec_tile_of(c, x, y) < c.spec_tiles()
                &&& tile_contains(c, spec_tile_of(c, x, y), x, y)
            },
        forall|t1: int, t2: int, x: int, y: int|
            0 <= t1 < c.spec_tiles() && 0 <= t2 < c.spec_tiles() && 0 <= x < c.width && 0 <= y
                < c.height && #[trigger] tile_contains(c, t1, x, y) && #[trigger] tile_contains(
                c,
                t2,
                x,
                y,
            ) ==> t1 == t2,
{
    assert forall|x: int, y: int| 0 <= x < c.width && 0 <= y < c.height implies {
        &&& 0 <= #[trigger] spec_tile_of(c, x, y) < c.spec_tiles()
        &&& tile_contains(c, spec_tile_of(c, x, y), x, y)
    } by {
        lemma_tile_of_in_range(c, x, y);
        lemma_tile_contains_iff(c, spec_tile_of(c, x, y), x, y);
    }
    assert forall|t1: int, t2: int, x: int, y: int|
        0 <= t1 < c.spec_tiles() && 0 <= t2 < c.spec_tiles() && 0 <= x < c.width && 0 <= y
            < c.height && #[trigger] tile_contains(c, t1, x, y) && #[trigger] tile_contains(
            c,
            t2,
            x,
            y,
        ) implies t1 == t2 by {
        lemma_tile_contains_iff(c, t1, x, y);
        lemma_tile_contains_iff(c, t2, x, y);
    }
}

/// Law: computing a tile's bounds is a pure function of the configuration
/// and the tile index: two computations of the same tile's bounds agree.
pub proof fn lemma_tile_bounds_deterministic(
    c: AppConfig,
    t: int,
    r1: (int, int, int, int),
    r2: (int, int, int, int),
)
    requires
        r1 == spec_tile_bounds(c, t),
        r2 == spec_tile_bounds(c, t),
    ensures
        r1 == r2,
{
}

} // verus!
