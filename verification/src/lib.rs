//! Navigation of the Web Mercator ("slippy map") tile pyramid.
//!
//! A tile is addressed by a pair of non-negative grid indices `(x, y)` at a
//! zoom level `z`; the grid at zoom `z` has `2^z` columns and `2^z` rows.
//! `zoom_in` returns a tile's four children at the next zoom level, and
//! `zoom_out` returns its parent at the previous one. Neither function
//! checks that its arguments lie inside the grid of any particular zoom
//! level: they are pure arithmetic on the indices.

use vstd::prelude::*;

verus! {

/// Zoom in from the given tile.
///
/// Returns the four tiles into which the tile `(x, y)` splits at the next
/// zoom level, in the fixed order north-west, north-east, south-west,
/// south-east:
///
/// ```text
/// +------------+------------+
/// | 2x,   2y   | 2x+1, 2y   |
/// +------------+------------+
/// | 2x,   2y+1 | 2x+1, 2y+1 |
/// +------------+------------+
/// ```
pub fn zoom_in(x: u32, y: u32) -> (r: ((u32, u32), (u32, u32), (u32, u32), (u32, u32)))
    requires
        x <= u32::MAX / 2,
        y <= u32::MAX / 2,
    ensures
        r.0.0 == 2 * x,
        r.0.1 == 2 * y,
        r.1.0 == 2 * x + 1,
        r.1.1 == 2 * y,
        r.2.0 == 2 * x,
        r.2.1 == 2 * y + 1,
        r.3.0 == 2 * x + 1,
        r.3.1 == 2 * y + 1,
{
    let x2 = 2 * x;
    let y2 = 2 * y;
    ((x2, y2), (x2 + 1, y2), (x2, y2 + 1), (x2 + 1, y2 + 1))
}

/// Zoom out from the given tile.
///
/// Returns the tile into which the tile `(x, y)` merges at the previous
/// zoom level: its parent `(x / 2, y / 2)`, with integer (floor) division.
pub fn zoom_out(x: u32, y: u32) -> (r: (u32, u32))
    ensures
        r.0 == x / 2,
        r.1 == y / 2,
{
    (x / 2, y / 2)
}

/// Zooming out from any of the four children produced by zooming in on a
/// tile yields the original tile: halving undoes doubling, with or without
/// the added one, on both axes.
pub proof fn lemma_zoom_out_inverts_zoom_in(x: u32, y: u32)
    ensures
        (2 * x) / 2 == x,
        (2 * x + 1) / 2 == x,
        (2 * y) / 2 == y,
        (2 * y + 1) / 2 == y,
{
}

} // verus!
