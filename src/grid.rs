use vstd::prelude::*;
use vstd::arithmetic::div_mod::{
    lemma_div_is_ordered,
    lemma_fundamental_div_mod,
    lemma_fundamental_div_mod_converse,
    lemma_mod_pos_bound,
};

verus! {

/// Logical width of the window, in pixels.
pub const WINDOW_WIDTH: u32 = 1280;

/// Logical height of the window, in pixels.
pub const WINDOW_HEIGHT: u32 = 720;

/// Side of one tile, in pixels.
pub const TILE_SIZE: u32 = 40;

/// What a frame depends on: the window's size and the side of a tile, in pixels.
#[derive(Clone, Copy, Debug, PartialEq, Eq, Structural)]
pub struct RenderConfig {
    pub window_width: u32,
    pub window_height: u32,
    pub tile_size: u32,
}

/// Where one tile lands, in window pixels with the origin at the top left and y
/// growing downward. The tile covers `[left, right) x [top, bottom)`; its model
/// matrix is the translation by `(left, top)`.
#[derive(Clone, Copy, Debug, PartialEq, Eq, Structural)]
pub struct TilePos {
    pub left: u64,
    pub right: u64,
    pub top: u64,
    pub bottom: u64,
}

/// How many tiles of side `s` it takes to cover `len` pixels: the ceiling of `len / s`.
pub open spec fn tiles_along_spec(len: nat, s: nat) -> nat
    recommends
        s > 0,
{
    if len % s == 0 {
        len / s
    } else {
        len / s + 1
    }
}

pub open spec fn column_count(c: RenderConfig) -> nat {
    tiles_along_spec(c.window_width as nat, c.tile_size as nat)
}

pub open spec fn row_count(c: RenderConfig) -> nat {
    tiles_along_spec(c.window_height as nat, c.tile_size as nat)
}

/// The tile in column `i` and row `j`.
pub open spec fn tile_at(i: nat, j: nat, s: nat) -> TilePos {
    TilePos {
        left: (i * s) as u64,
        right: (i * s + s) as u64,
        top: (j * s) as u64,
        bottom: (j * s + s) as u64,
    }
}

/// The tiles of one frame in drawing order: column by column, and within a
/// column from the top row down.
pub open spec fn frame_plan_spec(c: RenderConfig) -> Seq<TilePos> {
    let rows = row_count(c) as int;
    Seq::new(
        column_count(c) * row_count(c),
        |k: int| tile_at((k / rows) as nat, (k % rows) as nat, c.tile_size as nat),
    )
}

/// The pixel `(x, y)` lies in the tile `t`.
pub open spec fn covers(t: TilePos, x: int, y: int) -> bool {
    t.left <= x < t.right && t.top <= y < t.bottom
}

/// `x` lies in the cell of side `s` numbered `x / s`.
proof fn lemma_cell(x: int, s: int)
    requires
        0 <= x,
        0 < s,
    ensures
        0 <= x / s,
        (x / s) * s <= x < (x / s) * s + s,
{
    lemma_fundamental_div_mod(x, s);
    lemma_mod_pos_bound(x, s);
    let q = x / s;
    let r = x % s;
    assert(0 <= q && q * s <= x < q * s + s) by (nonlinear_arith)
        requires
            x == s * q + r,
            0 <= r < s,
            0 <= x,
    ;
}

/// A cell of side `s` that holds `x` is the cell `x / s`.
proof fn lemma_cell_unique(x: int, s: int, i: int)
    requires
        0 < s,
        i * s <= x < i * s + s,
    ensures
        i == x / s,
{
    lemma_fundamental_div_mod_converse(x, s, i, x - i * s);
}

/// A tile counted by `tiles_along_spec` starts before the end.
proof fn lemma_start_inside(len: nat, s: nat, i: nat)
    requires
        s > 0,
        i < tiles_along_spec(len, s),
    ensures
        i * s < len,
{
    lemma_fundamental_div_mod(len as int, s as int);
    lemma_mod_pos_bound(len as int, s as int);
    let q = len as int / s as int;
    let r = len as int % s as int;
    if r == 0 {
        assert(i * s < len) by (nonlinear_arith)
            requires
                len == s * q + r,
                r == 0,
                i <= q - 1,
                s > 0,
        ;
    } else {
        assert(i * s < len) by (nonlinear_arith)
            requires
                len == s * q + r,
                0 < r,
                i <= q,
                s > 0,
        ;
    }
}

/// A pixel before the end lies in a tile that `tiles_along_spec` counts.
proof fn lemma_index_in_range(x: int, len: nat, s: nat)
    requires
        0 <= x < len,
        s > 0,
    ensures
        x / (s as int) < tiles_along_spec(len, s),
{
    lemma_div_is_ordered(x, len as int, s as int);
    lemma_cell(x, s as int);
    lemma_fundamental_div_mod(len as int, s as int);
    if len % s == 0 && x / (s as int) == len / s {
        let q = len as int / s as int;
        assert(q * s == len) by (nonlinear_arith)
            requires
                len == s * q + 0,
        ;
    }
}

/// Splitting `k` into a quotient and a remainder by `n` and joining them back.
proof fn lemma_join_index(i: int, j: int, n: int)
    requires
        0 <= i,
        0 <= j < n,
    ensures
        (i * n + j) / n == i,
        (i * n + j) % n == j,
{
    lemma_fundamental_div_mod_converse(i * n + j, n, i, j);
}

/// An index below `cols * rows` splits into a column below `cols` and a row below `rows`.
proof fn lemma_split_index(k: int, cols: int, rows: int)
    requires
        0 <= k < cols * rows,
        0 < rows,
    ensures
        0 <= k / rows < cols,
        0 <= k % rows < rows,
        k == (k / rows) * rows + k % rows,
{
    lemma_cell(k, rows);
    lemma_fundamental_div_mod(k, rows);
    lemma_mod_pos_bound(k, rows);
    let q = k / rows;
    assert(rows * q == q * rows) by (nonlinear_arith);
    assert(q < cols) by (nonlinear_arith)
        requires
            q * rows <= k,
            k < cols * rows,
            0 < rows,
    ;
}

/// The index of the tile at column `i` and row `j` lies below `cols * rows`.
proof fn lemma_index_below(i: int, j: int, cols: int, rows: int)
    requires
        0 <= i < cols,
        0 <= j < rows,
    ensures
        0 <= i * rows + j < cols * rows,
{
    assert(0 <= i * rows + j < cols * rows) by (nonlinear_arith)
        requires
            0 <= i < cols,
            0 <= j < rows,
    ;
}

impl RenderConfig {
    pub open spec fn wf(&self) -> bool {
        self.tile_size > 0
    }

    pub fn new(window_width: u32, window_height: u32, tile_size: u32) -> (r: Self)
        ensures
            r == (RenderConfig { window_width, window_height, tile_size }),
    {
        RenderConfig { window_width, window_height, tile_size }
    }

    /// The fixed window of 1280 by 720 pixels, tiled by squares of 40.
    pub fn window() -> (r: Self)
        ensures
            r == (RenderConfig {
                window_width: WINDOW_WIDTH,
                window_height: WINDOW_HEIGHT,
                tile_size: TILE_SIZE,
            }),
            r.wf(),
    {
        RenderConfig { window_width: WINDOW_WIDTH, window_height: WINDOW_HEIGHT, tile_size: TILE_SIZE }
    }

    /// Number of tile columns: the ceiling of width over tile size.
    pub fn columns(&self) -> (r: u32)
        requires
            self.wf(),
        ensures
            r == column_count(*self),
    {
        tiles_along(self.window_width, self.tile_size)
    }

    /// Number of tile rows: the ceiling of height over tile size.
    pub fn rows(&self) -> (r: u32)
        requires
            self.wf(),
        ensures
            r == row_count(*self),
    {
        tiles_along(self.window_height, self.tile_size)
    }

    /// Number of draw calls in one frame.
    pub fn tile_count(&self) -> (r: u64)
        requires
            self.wf(),
        ensures
            r == column_count(*self) * row_count(*self),
    {
        let cols = self.columns();
        let rows = self.rows();
        assert((cols as int) * (rows as int) <= u64::MAX) by (nonlinear_arith)
            requires
                cols <= u32::MAX,
                rows <= u32::MAX,
        ;
        cols as u64 * rows as u64
    }

    /// The tile at grid column `column` and row `row`.
    pub fn tile_position(&self, column: u32, row: u32) -> (r: TilePos)
        requires
            self.wf(),
            column < column_count(*self),
            row < row_count(*self),
        ensures
            r == tile_at(column as nat, row as nat, self.tile_size as nat),
    {
        let s = self.tile_size;
        proof {
            lemma_start_inside(self.window_width as nat, s as nat, column as nat);
            lemma_start_inside(self.window_height as nat, s as nat, row as nat);
        }
        let left = column as u64 * s as u64;
        let top = row as u64 * s as u64;
        TilePos { left, right: left + s as u64, top, bottom: top + s as u64 }
    }

    /// The tiles of one frame, in the order they are drawn.
    pub fn frame_plan(&self) -> (r: Vec<TilePos>)
        requires
            self.wf(),
        ensures
            r@ == frame_plan_spec(*self),
    {
        let cols = self.columns();
        let rows = self.rows();
        let ghost s = self.tile_size as nat;
        let mut plan: Vec<TilePos> = Vec::new();
        let mut i: u32 = 0;
        while i < cols
            invariant
                self.wf(),
                s == self.tile_size,
                cols == column_count(*self),
                rows == row_count(*self),
                i <= cols,
                plan@.len() == i * rows,
                forall|k: int|
                    0 <= k < plan@.len() ==> #[trigger] plan@[k] == tile_at(
                        (k / rows as int) as nat,
                        (k % rows as int) as nat,
                        s,
                    ),
            decreases cols - i,
        {
            let mut j: u32 = 0;
            while j < rows
                invariant
                    self.wf(),
                    s == self.tile_size,
                    cols == column_count(*self),
                    rows == row_count(*self),
                    i < cols,
                    j <= rows,
                    plan@.len() == i * rows + j,
                    forall|k: int|
                        0 <= k < plan@.len() ==> #[trigger] plan@[k] == tile_at(
                            (k / rows as int) as nat,
                            (k % rows as int) as nat,
                            s,
                        ),
                decreases rows - j,
            {
                let t = self.tile_position(i, j);
                proof {
                    lemma_join_index(i as int, j as int, rows as int);
                }
                plan.push(t);
                j = j + 1;
            }
            proof {
                assert((i + 1) * rows == i * rows + rows) by (nonlinear_arith);
            }
            i = i + 1;
        }
        assert(plan@ =~= frame_plan_spec(*self));
        plan
    }
}

/// How many tiles of side `tile_size` it takes to cover `len` pixels.
pub fn tiles_along(len: u32, tile_size: u32) -> (r: u32)
    requires
        tile_size > 0,
    ensures
        r == tiles_along_spec(len as nat, tile_size as nat),
{
    let whole = len / tile_size;
    if len % tile_size == 0 {
        whole
    } else {
        proof {
            lemma_fundamental_div_mod(len as int, tile_size as int);
            let r = len as int % tile_size as int;
            assert(whole < len) by (nonlinear_arith)
                requires
                    len == tile_size * whole + r,
                    r > 0,
                    tile_size >= 1,
                    whole >= 0,
            ;
        }
        whole + 1
    }
}

/// The index in the frame plan of the tile that holds the pixel `(x, y)`.
proof fn lemma_covering_index(c: RenderConfig, k: int, x: int, y: int)
    requires
        c.wf(),
        0 <= x,
        0 <= y,
        0 <= k < frame_plan_spec(c).len(),
        covers(frame_plan_spec(c)[k], x, y),
    ensures
        k == (x / c.tile_size as int) * row_count(c) + y / c.tile_size as int,
{
    let s = c.tile_size as int;
    let rows = row_count(c) as int;
    let cols = column_count(c) as int;
    lemma_split_index(k, cols, rows);
    let i = k / rows;
    let j = k % rows;
    lemma_start_inside(c.window_width as nat, s as nat, i as nat);
    lemma_start_inside(c.window_height as nat, s as nat, j as nat);
    lemma_cell_unique(x, s, i);
    lemma_cell_unique(y, s, j);
}

/// Every pixel of the window lies in exactly one tile of a frame: the tiles
/// cover the window with neither gap nor overlap.
pub proof fn lemma_tiles_cover_window(c: RenderConfig, x: int, y: int)
    requires
        c.wf(),
        0 <= x < c.window_width,
        0 <= y < c.window_height,
    ensures
        exists|k: int| 0 <= k < frame_plan_spec(c).len() && covers(#[trigger] frame_plan_spec(c)[k], x, y),
        forall|k1: int, k2: int|
            0 <= k1 < frame_plan_spec(c).len() && 0 <= k2 < frame_plan_spec(c).len()
                && covers(#[trigger] frame_plan_spec(c)[k1], x, y)
                && covers(#[trigger] frame_plan_spec(c)[k2], x, y) ==> k1 == k2,
{
    let s = c.tile_size as int;
    let rows = row_count(c) as int;
    let cols = column_count(c) as int;
    let i = x / s;
    let j = y / s;
    lemma_cell(x, s);
    lemma_cell(y, s);
    lemma_index_in_range(x, c.window_width as nat, s as nat);
    lemma_index_in_range(y, c.window_height as nat, s as nat);
    let k = i * rows + j;
    lemma_index_below(i, j, cols, rows);
    lemma_join_index(i, j, rows);
    lemma_start_inside(c.window_width as nat, s as nat, i as nat);
    lemma_start_inside(c.window_height as nat, s as nat, j as nat);
    assert(covers(frame_plan_spec(c)[k], x, y));
    assert forall|k1: int, k2: int|
        0 <= k1 < frame_plan_spec(c).len() && 0 <= k2 < frame_plan_spec(c).len()
            && covers(#[trigger] frame_plan_spec(c)[k1], x, y)
            && covers(#[trigger] frame_plan_spec(c)[k2], x, y) implies k1 == k2 by {
        lemma_covering_index(c, k1, x, y);
        lemma_covering_index(c, k2, x, y);
    }
}

/// The tile that holds the pixel `(x, y)` places it at tile-local position
/// `(x mod S, y mod S)`, so what a tile shows repeats with period `S` across the
/// window in both directions.
pub proof fn lemma_tile_local_position(c: RenderConfig, k: int, x: int, y: int)
    requires
        c.wf(),
        0 <= x,
        0 <= y,
        0 <= k < frame_plan_spec(c).len(),
        covers(frame_plan_spec(c)[k], x, y),
    ensures
        x - frame_plan_spec(c)[k].left == x % c.tile_size as int,
        y - frame_plan_spec(c)[k].top == y % c.tile_size as int,
{
    let s = c.tile_size as int;
    let rows = row_count(c) as int;
    lemma_covering_index(c, k, x, y);
    lemma_split_index(k, column_count(c) as int, rows);
    lemma_start_inside(c.window_width as nat, s as nat, (k / rows) as nat);
    lemma_start_inside(c.window_height as nat, s as nat, (k % rows) as nat);
    lemma_cell_unique(x, s, k / rows);
    lemma_cell_unique(y, s, k % rows);
    lemma_fundamental_div_mod(x, s);
    lemma_fundamental_div_mod(y, s);
    assert(s * (x / s) == (x / s) * s && s * (y / s) == (y / s) * s) by (nonlinear_arith);
}

/// Every tile of a frame starts inside the window, so no draw call is wasted
/// on a tile that shows nothing.
pub proof fn lemma_tiles_start_inside(c: RenderConfig)
    requires
        c.wf(),
    ensures
        forall|k: int|
            0 <= k < frame_plan_spec(c).len() ==> #[trigger] frame_plan_spec(c)[k].left < c.window_width
                && frame_plan_spec(c)[k].top < c.window_height,
{
    let s = c.tile_size as int;
    let rows = row_count(c) as int;
    let cols = column_count(c) as int;
    assert forall|k: int| 0 <= k < frame_plan_spec(c).len() implies #[trigger] frame_plan_spec(c)[k].left
        < c.window_width && frame_plan_spec(c)[k].top < c.window_height by {
        lemma_split_index(k, cols, rows);
        lemma_start_inside(c.window_width as nat, s as nat, (k / rows) as nat);
        lemma_start_inside(c.window_height as nat, s as nat, (k % rows) as nat);
    }
}

} // verus!
