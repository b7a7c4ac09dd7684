//! Tile geometry: splits a display into four equal tiles, top-left,
//! top-right, bottom-left, bottom-right, in that fixed order. Tile sizes
//! use floor division, so on a display with an odd width or height the
//! rightmost or bottom pixel strip is deliberately left uncovered.

use vstd::prelude::*;
use crate::display::DisplayDescriptor;

verus! {

/// One screen rectangle assigned to a view.
#[derive(Debug, Clone, Copy, PartialEq, Eq, Structural)]
pub struct TileRect {
    pub x: i32,
    pub y: i32,
    pub width: u32,
    pub height: u32,
}

/// Half the display width, rounded down.
pub open spec fn spec_tile_width(d: DisplayDescriptor) -> int {
    d.width as int / 2
}

/// Half the display height, rounded down.
pub open spec fn spec_tile_height(d: DisplayDescriptor) -> int {
    d.height as int / 2
}

/// The tile origins stay within the machine coordinate range.
pub open spec fn spec_tile_fits(d: DisplayDescriptor) -> bool {
    &&& d.x + spec_tile_width(d) <= i32::MAX
    &&& d.y + spec_tile_height(d) <= i32::MAX
}

/// The four tiles of a display, in fixed order: top-left, top-right,
/// bottom-left, bottom-right.
pub open spec fn spec_tiles(d: DisplayDescriptor) -> Seq<TileRect> {
    let tw = (d.width as int / 2) as u32;
    let th = (d.height as int / 2) as u32;
    let right = (d.x + d.width as int / 2) as i32;
    let bottom = (d.y + d.height as int / 2) as i32;
    seq![
        TileRect { x: d.x, y: d.y, width: tw, height: th },
        TileRect { x: right, y: d.y, width: tw, height: th },
        TileRect { x: d.x, y: bottom, width: tw, height: th },
        TileRect { x: right, y: bottom, width: tw, height: th },
    ]
}

/// Computes the four tile rectangles for `d`, index 0 the top-left,
/// 1 the top-right, 2 the bottom-left, 3 the bottom-right. A zero-size
/// display is passed through as zero-size tiles, not rejected.
pub fn compute_tiles(d: &DisplayDescriptor) -> (r: [TileRect; 4])
    requires
        spec_tile_fits(*d),
    ensures
        r@ == spec_tiles(*d),
{
    let tw = d.width / 2;
    let th = d.height / 2;
    let right = d.x + (tw as i32);
    let bottom = d.y + (th as i32);
    let r = [
        TileRect { x: d.x, y: d.y, width: tw, height: th },
        TileRect { x: right, y: d.y, width: tw, height: th },
        TileRect { x: d.x, y: bottom, width: tw, height: th },
        TileRect { x: right, y: bottom, width: tw, height: th },
    ];
    proof {
        assert(r@ =~= spec_tiles(*d));
    }
    r
}

/// The point `(px, py)` lies inside tile `t`.
pub open spec fn spec_in_tile(t: TileRect, px: int, py: int) -> bool {
    &&& t.x <= px < t.x + t.width
    &&& t.y <= py < t.y + t.height
}

/// Some tile of `d` holds the point `(px, py)`.
pub open spec fn spec_covered(d: DisplayDescriptor, px: int, py: int) -> bool {
    exists|i: int| 0 <= i < 4 && spec_in_tile(#[trigger] spec_tiles(d)[i], px, py)
}

/// Law: the four tiles of a display never overlap, and together they
/// cover exactly the rectangle of twice the half-width by twice the
/// half-height at the display origin — the whole display when both
/// dimensions are even; with an odd width or height, the one-pixel strip
/// at the right or bottom edge stays uncovered, by design.
pub proof fn lemma_tiles_partition(d: DisplayDescriptor)
    requires
        spec_tile_fits(d),
    ensures
        forall|i: int, j: int, px: int, py: int|
            0 <= i < 4 && 0 <= j < 4 && i != j ==> !(#[trigger] spec_in_tile(
                spec_tiles(d)[i],
                px,
                py,
            ) && #[trigger] spec_in_tile(spec_tiles(d)[j], px, py)),
        forall|px: int, py: int|
            #[trigger] spec_covered(d, px, py) <==> (d.x <= px < d.x + 2 * spec_tile_width(d)
                && d.y <= py < d.y + 2 * spec_tile_height(d)),
{
    let t = spec_tiles(d);
    let tw = spec_tile_width(d);
    let th = spec_tile_height(d);
    assert(t[0] == TileRect {
        x: d.x,
        y: d.y,
        width: tw as u32,
        height: th as u32,
    });
    assert(t[1] == TileRect {
        x: (d.x + tw) as i32,
        y: d.y,
        width: tw as u32,
        height: th as u32,
    });
    assert(t[2] == TileRect {
        x: d.x,
        y: (d.y + th) as i32,
        width: tw as u32,
        height: th as u32,
    });
    assert(t[3] == TileRect {
        x: (d.x + tw) as i32,
        y: (d.y + th) as i32,
        width: tw as u32,
        height: th as u32,
    });
    assert forall|px: int, py: int|
        d.x <= px < d.x + 2 * tw && d.y <= py < d.y + 2 * th implies spec_covered(d, px, py) by {
        if px < d.x + tw {
            if py < d.y + th {
                assert(spec_in_tile(spec_tiles(d)[0], px, py));
            } else {
                assert(spec_in_tile(spec_tiles(d)[2], px, py));
            }
        } else {
            if py < d.y + th {
                assert(spec_in_tile(spec_tiles(d)[1], px, py));
            } else {
                assert(spec_in_tile(spec_tiles(d)[3], px, py));
            }
        }
    }
}

/// Law: on a display whose width and height are both even, the four
/// tiles cover the display exactly — every display point lies in
/// exactly one tile, and no tile point lies outside the display.
pub proof fn lemma_tiles_cover_even(d: DisplayDescriptor)
    requires
        spec_tile_fits(d),
        d.width % 2 == 0,
        d.height % 2 == 0,
    ensures
        forall|i: int, j: int, px: int, py: int|
            0 <= i < 4 && 0 <= j < 4 && i != j ==> !(#[trigger] spec_in_tile(
                spec_tiles(d)[i],
                px,
                py,
            ) && #[trigger] spec_in_tile(spec_tiles(d)[j], px, py)),
        forall|px: int, py: int|
            #[trigger] spec_covered(d, px, py) <==> (d.x <= px < d.x + d.width && d.y <= py < d.y
                + d.height),
{
    lemma_tiles_partition(d);
    assert(2 * spec_tile_width(d) == d.width);
    assert(2 * spec_tile_height(d) == d.height);
}

} // verus!
