//! Safety-oriented core of a tiled-composition binding layer: integer 2D
//! geometry with an exact rectangle-difference algorithm, a tile coordinate
//! model with an incremental tile-drawing manager, and a reference-counted
//! handle abstraction with capability querying.

use vstd::prelude::*;

pub mod color;
pub mod comptr;
pub mod dcomp;
pub mod dwrite;
pub mod dxgi;
pub mod geometry;
pub mod mf;
pub mod rect;
pub mod tiles;
pub mod winuser;

pub use comptr::{CountedObject, RcHost, RcInterface};
pub use geometry::{Offset, Point, Size};
pub use rect::Rect;
pub use tiles::{Tile, TileDrawingManager};

verus! {

/// Truncating integer division (toward zero), the rounding that the
/// executable `/` on machine integers performs.
pub open spec fn div_trunc(a: int, b: int) -> int
    recommends
        b != 0,
{
    if a >= 0 && b > 0 {
        a / b
    } else if a < 0 && b < 0 {
        (a * -1) / (b * -1)
    } else if a < 0 {
        ((a * -1) / b) * -1
    } else {
        (a / (b * -1)) * -1
    }
}

/// The quotient of a truncating division is never larger in magnitude than
/// the dividend.
pub proof fn lemma_div_trunc_bounds(a: int, b: int)
    requires
        b != 0,
    ensures
        div_trunc(a, b) <= (if a >= 0 { a } else { -a }),
        -(if a >= 0 { a } else { -a }) <= div_trunc(a, b),
{
    let n = if a >= 0 { a } else { -a };
    let d = if b >= 0 { b } else { -b };
    vstd::arithmetic::div_mod::lemma_div_pos_is_pos(n, d);
    vstd::arithmetic::div_mod::lemma_div_nonincreasing(n, d);
}

/// Truncating division on `i32`, as the machine `/` computes it.
pub fn div_i32(a: i32, b: i32) -> (r: i32)
    requires
        b != 0,
        !(a == i32::MIN && b == -1),
    ensures
        r == div_trunc(a as int, b as int),
{
    proof {
        lemma_div_trunc_bounds(a as int, b as int);
        if a == i32::MIN && b <= -2 {
            vstd::arithmetic::div_mod::lemma_div_is_ordered_by_denominator(
                -(a as int),
                2,
                -(b as int),
            );
            vstd::arithmetic::div_mod::lemma_div_multiples_vanish(0x4000_0000, 2);
        }
    }
    a.checked_div(b).unwrap()
}

} // verus!
