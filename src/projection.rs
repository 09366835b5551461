use vstd::prelude::*;
use crate::grid::RenderConfig;

verus! {

/// The bounds of an orthographic projection, in window pixels.
#[derive(Clone, Copy, Debug, PartialEq, Eq, Structural)]
pub struct OrthoBounds {
    pub left: i64,
    pub right: i64,
    pub bottom: i64,
    pub top: i64,
    pub near: i64,
    pub far: i64,
}

/// The window's projection: x from 0 to the width, and y from 0 at the top to
/// the height at the bottom, so that y grows downward.
pub open spec fn window_projection_spec(c: RenderConfig) -> OrthoBounds {
    OrthoBounds {
        left: 0,
        right: c.window_width as i64,
        bottom: c.window_height as i64,
        top: 0,
        near: -1i64,
        far: 1,
    }
}

/// The clip-space x that an orthographic projection gives to window x, as a
/// numerator over a denominator: `(2x - (right + left)) / (right - left)`.
pub open spec fn clip_x(b: OrthoBounds, x: int) -> (int, int) {
    (2 * x - (b.right + b.left), b.right - b.left)
}

/// The clip-space y that an orthographic projection gives to window y, as a
/// numerator over a denominator: `(2y - (top + bottom)) / (top - bottom)`.
pub open spec fn clip_y(b: OrthoBounds, y: int) -> (int, int) {
    (2 * y - (b.top + b.bottom), b.top - b.bottom)
}

/// The fraction `f` has the value `n`.
pub open spec fn fraction_is(f: (int, int), n: int) -> bool {
    f.1 != 0 && f.0 == n * f.1
}

/// The bounds to build the window's orthographic matrix from.
pub fn window_projection(c: &RenderConfig) -> (r: OrthoBounds)
    ensures
        r == window_projection_spec(*c),
{
    OrthoBounds {
        left: 0,
        right: c.window_width as i64,
        bottom: c.window_height as i64,
        top: 0,
        near: -1,
        far: 1,
    }
}

/// The window's projection sends its top-left corner `(0, 0)` to clip space
/// `(-1, 1)` and its bottom-right corner `(width, height)` to `(1, -1)`.
pub proof fn lemma_projection_corners(c: RenderConfig)
    requires
        c.window_width > 0,
        c.window_height > 0,
    ensures
        fraction_is(clip_x(window_projection_spec(c), 0), -1),
        fraction_is(clip_y(window_projection_spec(c), 0), 1),
        fraction_is(clip_x(window_projection_spec(c), c.window_width as int), 1),
        fraction_is(clip_y(window_projection_spec(c), c.window_height as int), -1),
{
}

} // verus!
