//! Axis-aligned integer rectangles in the half-open convention
//! `[left, right) x [top, bottom)`, with intersection, bounding-box union,
//! translation, scaling, and an exact rectangle-difference algorithm.

use crate::div_trunc;
use crate::geometry::{Offset, Point, Size};
use vstd::prelude::*;

verus! {

/// An axis-aligned rectangle, half-open on the right and bottom. A rectangle
/// with `left >= right` or `top >= bottom` is empty: it contains no point.
#[derive(Clone, Copy, Debug, PartialEq, Eq, Structural)]
pub struct Rect {
    pub left: i32,
    pub top: i32,
    pub right: i32,
    pub bottom: i32,
}

/// Whether some rectangle of the sequence contains the point.
pub open spec fn in_any(rs: Seq<Rect>, x: int, y: int) -> bool {
    exists|i: int| 0 <= i < rs.len() && #[trigger] rs[i].contains_point(x, y)
}

impl Rect {
    /// Emptiness: no point lies in the rectangle.
    pub open spec fn spec_is_empty(self) -> bool {
        self.left >= self.right || self.top >= self.bottom
    }

    /// Point membership under the half-open convention.
    pub open spec fn contains_point(self, x: int, y: int) -> bool {
        self.left <= x < self.right && self.top <= y < self.bottom
    }

    /// Every point of `self` lies in `other`.
    pub open spec fn covered_by(self, other: Rect) -> bool {
        forall|x: int, y: int| self.contains_point(x, y) ==> other.contains_point(x, y)
    }

    /// No point lies in both rectangles.
    pub open spec fn disjoint_from(self, other: Rect) -> bool {
        forall|x: int, y: int| !(self.contains_point(x, y) && other.contains_point(x, y))
    }

    pub fn new(left: i32, top: i32, right: i32, bottom: i32) -> (r: Rect)
        ensures
            r == (Rect { left, top, right, bottom }),
    {
        Rect { left, top, right, bottom }
    }

    pub fn width(&self) -> (w: i32)
        requires
            i32::MIN <= self.right - self.left <= i32::MAX,
        ensures
            w == self.right - self.left,
    {
        self.right - self.left
    }

    pub fn height(&self) -> (h: i32)
        requires
            i32::MIN <= self.bottom - self.top <= i32::MAX,
        ensures
            h == self.bottom - self.top,
    {
        self.bottom - self.top
    }

    pub fn is_empty(&self) -> (e: bool)
        ensures
            e == self.spec_is_empty(),
    {
        self.left >= self.right || self.top >= self.bottom
    }

    pub fn size(&self) -> (s: Size)
        requires
            i32::MIN <= self.right - self.left <= i32::MAX,
            i32::MIN <= self.bottom - self.top <= i32::MAX,
        ensures
            s.width == self.right - self.left,
            s.height == self.bottom - self.top,
    {
        Size { width: self.right - self.left, height: self.bottom - self.top }
    }

    /// Shrink all four sides inward by `(dx, dy)`.
    pub fn inset(&self, dx: i32, dy: i32) -> (r: Rect)
        requires
            i32::MIN <= self.left + dx <= i32::MAX,
            i32::MIN <= self.top + dy <= i32::MAX,
            i32::MIN <= self.right - dx <= i32::MAX,
            i32::MIN <= self.bottom - dy <= i32::MAX,
        ensures
            r.left == self.left + dx,
            r.top == self.top + dy,
            r.right == self.right - dx,
            r.bottom == self.bottom - dy,
    {
        Rect {
            left: self.left + dx,
            top: self.top + dy,
            right: self.right - dx,
            bottom: self.bottom - dy,
        }
    }

    /// Grow all four sides outward by `(dx, dy)`.
    pub fn outset(&self, dx: i32, dy: i32) -> (r: Rect)
        requires
            i32::MIN <= self.left - dx <= i32::MAX,
            i32::MIN <= self.top - dy <= i32::MAX,
            i32::MIN <= self.right + dx <= i32::MAX,
            i32::MIN <= self.bottom + dy <= i32::MAX,
        ensures
            r.left == self.left - dx,
            r.top == self.top - dy,
            r.right == self.right + dx,
            r.bottom == self.bottom + dy,
    {
        Rect {
            left: self.left - dx,
            top: self.top - dy,
            right: self.right + dx,
            bottom: self.bottom + dy,
        }
    }

    /// Componentwise intersection: the largest rectangle inside both. Where
    /// the ranges do not overlap the result is empty (`left >= right` or
    /// `top >= bottom`), never clamped to a zero-area rectangle at the origin.
    pub fn intersect(self, other: Rect) -> (r: Rect)
        ensures
            r.left == if self.left >= other.left { self.left as int } else { other.left as int },
            r.top == if self.top >= other.top { self.top as int } else { other.top as int },
            r.right == if self.right <= other.right { self.right as int } else { other.right as int },
            r.bottom == if self.bottom <= other.bottom { self.bottom as int } else { other.bottom as int },
            forall|x: int, y: int| #[trigger] r.contains_point(x, y)
                <==> self.contains_point(x, y) && other.contains_point(x, y),
    {
        Rect {
            left: if self.left >= other.left { self.left } else { other.left },
            top: if self.top >= other.top { self.top } else { other.top },
            right: if self.right <= other.right { self.right } else { other.right },
            bottom: if self.bottom <= other.bottom { self.bottom } else { other.bottom },
        }
    }

    /// Componentwise union: the bounding box of the two rectangles (not the
    /// area union), whatever their overlap.
    pub fn union(self, other: Rect) -> (r: Rect)
        ensures
            r.left == if self.left <= other.left { self.left as int } else { other.left as int },
            r.top == if self.top <= other.top { self.top as int } else { other.top as int },
            r.right == if self.right >= other.right { self.right as int } else { other.right as int },
            r.bottom == if self.bottom >= other.bottom { self.bottom as int } else { other.bottom as int },
            forall|x: int, y: int| self.contains_point(x, y) ==> r.contains_point(x, y),
            forall|x: int, y: int| other.contains_point(x, y) ==> r.contains_point(x, y),
    {
        Rect {
            left: if self.left <= other.left { self.left } else { other.left },
            top: if self.top <= other.top { self.top } else { other.top },
            right: if self.right >= other.right { self.right } else { other.right },
            bottom: if self.bottom >= other.bottom { self.bottom } else { other.bottom },
        }
    }

    /// Translate by an offset.
    pub fn translate(self, o: Offset) -> (r: Rect)
        requires
            i32::MIN <= self.left + o.dx <= i32::MAX,
            i32::MIN <= self.top + o.dy <= i32::MAX,
            i32::MIN <= self.right + o.dx <= i32::MAX,
            i32::MIN <= self.bottom + o.dy <= i32::MAX,
        ensures
            r.left == self.left + o.dx,
            r.top == self.top + o.dy,
            r.right == self.right + o.dx,
            r.bottom == self.bottom + o.dy,
    {
        Rect {
            left: self.left + o.dx,
            top: self.top + o.dy,
            right: self.right + o.dx,
            bottom: self.bottom + o.dy,
        }
    }

    /// Grow from the origin corner: the left and top edges stay, the right
    /// and bottom edges move out by the extent.
    pub fn expand(self, s: Size) -> (r: Rect)
        requires
            i32::MIN <= self.right + s.width <= i32::MAX,
            i32::MIN <= self.bottom + s.height <= i32::MAX,
        ensures
            r.left == self.left,
            r.top == self.top,
            r.right == self.right + s.width,
            r.bottom == self.bottom + s.height,
    {
        Rect {
            left: self.left,
            top: self.top,
            right: self.right + s.width,
            bottom: self.bottom + s.height,
        }
    }

    /// Shrink toward the origin corner: the left and top edges stay, the
    /// right and bottom edges move in by the extent.
    pub fn contract(self, s: Size) -> (r: Rect)
        requires
            i32::MIN <= self.right - s.width <= i32::MAX,
            i32::MIN <= self.bottom - s.height <= i32::MAX,
        ensures
            r.left == self.left,
            r.top == self.top,
            r.right == self.right - s.width,
            r.bottom == self.bottom - s.height,
    {
        Rect {
            left: self.left,
            top: self.top,
            right: self.right - s.width,
            bottom: self.bottom - s.height,
        }
    }

    /// Multiply all four edges by `k` (tile space to pixel space).
    pub fn scale(self, k: i32) -> (r: Rect)
        requires
            i32::MIN <= self.left * k <= i32::MAX,
            i32::MIN <= self.top * k <= i32::MAX,
            i32::MIN <= self.right * k <= i32::MAX,
            i32::MIN <= self.bottom * k <= i32::MAX,
        ensures
            r.left == self.left * k,
            r.top == self.top * k,
            r.right == self.right * k,
            r.bottom == self.bottom * k,
    {
        Rect {
            left: self.left * k,
            top: self.top * k,
            right: self.right * k,
            bottom: self.bottom * k,
        }
    }

    /// Divide all four edges by `k`, truncating toward zero (pixel space to
    /// tile space). Scaling down and back up is lossy unless every edge is a
    /// multiple of `k`.
    pub fn scale_down(self, k: i32) -> (r: Rect)
        requires
            k != 0,
            !(k == -1 && (self.left == i32::MIN || self.top == i32::MIN || self.right == i32::MIN
                || self.bottom == i32::MIN)),
        ensures
            r.left == div_trunc(self.left as int, k as int),
            r.top == div_trunc(self.top as int, k as int),
            r.right == div_trunc(self.right as int, k as int),
            r.bottom == div_trunc(self.bottom as int, k as int),
    {
        Rect {
            left: crate::div_i32(self.left, k),
            top: crate::div_i32(self.top, k),
            right: crate::div_i32(self.right, k),
            bottom: crate::div_i32(self.bottom, k),
        }
    }
}

impl Rect {
    /// The componentwise intersection, as `intersect` computes it.
    pub open spec fn spec_intersect(self, other: Rect) -> Rect {
        Rect {
            left: if self.left >= other.left { self.left } else { other.left },
            top: if self.top >= other.top { self.top } else { other.top },
            right: if self.right <= other.right { self.right } else { other.right },
            bottom: if self.bottom <= other.bottom { self.bottom } else { other.bottom },
        }
    }

    /// The canonical decomposition of the set difference `self \ other`: a
    /// full-width top strip, then the left and right strips confined to the
    /// intersection's vertical span, then a full-width bottom strip, each
    /// present exactly when the corresponding edge of `self` differs from the
    /// intersection's; a `self` disjoint from `other` stays as it is.
    pub open spec fn spec_subtract(self, other: Rect) -> Seq<Rect> {
        let inter = self.spec_intersect(other);
        if inter.spec_is_empty() {
            seq![self]
        } else {
            (if self.top != inter.top {
                seq![Rect { left: self.left, top: self.top, right: self.right, bottom: inter.top }]
            } else {
                Seq::empty()
            }) + (if self.left != inter.left {
                seq![
                    Rect { left: self.left, top: inter.top, right: inter.left, bottom: inter.bottom },
                ]
            } else {
                Seq::empty()
            }) + (if self.right != inter.right {
                seq![
                    Rect {
                        left: inter.right,
                        top: inter.top,
                        right: self.right,
                        bottom: inter.bottom,
                    },
                ]
            } else {
                Seq::empty()
            }) + (if self.bottom != inter.bottom {
                seq![
                    Rect { left: self.left, top: inter.bottom, right: self.right, bottom: self.bottom },
                ]
            } else {
                Seq::empty()
            })
        }
    }

    /// The minimal set of disjoint axis-aligned rectangles whose union is the
    /// set difference `self \ other`: nothing of `self` is lost, nothing of
    /// `other` is covered, and no area is covered twice.
    ///
    /// The decomposition is canonical — `spec_subtract` pins the exact strips
    /// and their order. Re-intersecting any result with `other` yields an
    /// empty rectangle.
    pub fn subtract(self, other: Rect) -> (r: Vec<Rect>)
        ensures
            r@ == self.spec_subtract(other),
            r@.len() <= 4,
            forall|x: int, y: int| #[trigger] in_any(r@, x, y)
                <==> self.contains_point(x, y) && !other.contains_point(x, y),
            forall|i: int, j: int| 0 <= i < j < r@.len() ==> r@[i].disjoint_from(r@[j]),
            forall|i: int| 0 <= i < r@.len() ==> (#[trigger] r@[i]).disjoint_from(other),
            forall|i: int| 0 <= i < r@.len() ==> r@[i] == self || (!(#[trigger] r@[i]).spec_is_empty()
                && self.left <= r@[i].left && r@[i].right <= self.right
                && self.top <= r@[i].top && r@[i].bottom <= self.bottom),
            r@.len() == 0 <==> !self.spec_is_empty() && self.covered_by(other),
    {
        let inter = self.intersect(other);
        if inter.is_empty() {
            // No overlap: the difference is `self`, unchanged.
            let mut v: Vec<Rect> = Vec::new();
            v.push(self);
            proof {
                assert forall|x: int, y: int| #[trigger] in_any(v@, x, y)
                    <==> self.contains_point(x, y) && !other.contains_point(x, y) by {
                    if self.contains_point(x, y) {
                        assert(v@[0].contains_point(x, y));
                    }
                }
                if !self.spec_is_empty() {
                    assert(!self.covered_by(other)) by {
                        assert(self.contains_point(self.left as int, self.top as int));
                        assert(!inter.contains_point(self.left as int, self.top as int));
                    }
                }
                assert(inter == self.spec_intersect(other));
                assert(v@ =~= self.spec_subtract(other));
            }
            v
        } else {
            let top_strip = Rect { left: self.left, top: self.top, right: self.right, bottom: inter.top };
            let left_strip = Rect { left: self.left, top: inter.top, right: inter.left, bottom: inter.bottom };
            let right_strip = Rect { left: inter.right, top: inter.top, right: self.right, bottom: inter.bottom };
            let bottom_strip = Rect { left: self.left, top: inter.bottom, right: self.right, bottom: self.bottom };
            let mut v: Vec<Rect> = Vec::new();
            if self.top != inter.top {
                v.push(top_strip);
            }
            if self.left != inter.left {
                v.push(left_strip);
            }
            if self.right != inter.right {
                v.push(right_strip);
            }
            if self.bottom != inter.bottom {
                v.push(bottom_strip);
            }
            proof {
                let rs = v@;
                assert(forall|k: int| 0 <= k < rs.len() ==> (#[trigger] rs[k]) == top_strip
                    || rs[k] == left_strip || rs[k] == right_strip || rs[k] == bottom_strip);
                assert forall|x: int, y: int| #[trigger] in_any(rs, x, y)
                    <==> self.contains_point(x, y) && !other.contains_point(x, y) by {
                    if self.contains_point(x, y) && !other.contains_point(x, y) {
                        if y < inter.top {
                            assert(rs[0] == top_strip);
                            assert(rs[0].contains_point(x, y));
                        } else if y >= inter.bottom {
                            assert(rs[(rs.len() - 1) as int] == bottom_strip);
                            assert(rs[(rs.len() - 1) as int].contains_point(x, y));
                        } else if x < inter.left {
                            let k: int = if self.top != inter.top { 1 } else { 0 };
                            assert(rs[k] == left_strip);
                            assert(rs[k].contains_point(x, y));
                        } else {
                            let k: int = (if self.top != inter.top { 1int } else { 0 })
                                + (if self.left != inter.left { 1int } else { 0 });
                            assert(rs[k] == right_strip);
                            assert(rs[k].contains_point(x, y));
                        }
                    }
                }
                if rs.len() == 0 {
                    assert(!self.spec_is_empty());
                    assert(self.covered_by(other));
                } else {
                    let r0 = rs[0];
                    assert(!r0.spec_is_empty());
                    assert(r0.contains_point(r0.left as int, r0.top as int));
                    assert(in_any(rs, r0.left as int, r0.top as int));
                    assert(!self.covered_by(other)) by {
                        assert(self.contains_point(r0.left as int, r0.top as int)
                            && !other.contains_point(r0.left as int, r0.top as int));
                    }
                }
                assert(inter == self.spec_intersect(other));
                assert(rs =~= self.spec_subtract(other));
            }
            v
        }
    }
}

/// Truncating division undoes an exact multiplication: `(x * k) / k == x`
/// for any `x` and positive `k`.
pub proof fn lemma_mul_then_div_trunc(x: int, k: int)
    requires
        k > 0,
    ensures
        div_trunc(x * k, k) == x,
{
    if x >= 0 {
        vstd::arithmetic::div_mod::lemma_div_multiples_vanish(x, k);
        vstd::arithmetic::mul::lemma_mul_is_commutative(x, k);
        assert(x * k >= 0) by (nonlinear_arith)
            requires
                x >= 0 && k > 0,
        ;
    } else {
        let y = -x;
        vstd::arithmetic::div_mod::lemma_div_multiples_vanish(y, k);
        vstd::arithmetic::mul::lemma_mul_is_commutative(y, k);
        assert(x * k == -(y * k)) by (nonlinear_arith)
            requires
                y == -x,
        ;
        assert(y * k > 0) by (nonlinear_arith)
            requires
                y > 0 && k > 0,
        ;
        assert(div_trunc(x * k, k) == -((y * k) / k));
    }
}

/// Truncating division is undone by multiplication exactly when the dividend
/// is a multiple of the divisor: `(x / k) * k == x <==> x % k == 0`.
pub proof fn lemma_div_trunc_exact(x: int, k: int)
    requires
        k > 0,
    ensures
        div_trunc(x, k) * k == x <==> x % k == 0,
{
    if x >= 0 {
        let q = x / k;
        vstd::arithmetic::div_mod::lemma_fundamental_div_mod(x, k);
        vstd::arithmetic::mul::lemma_mul_is_commutative(q, k);
        assert(div_trunc(x, k) == q);
    } else {
        let y = -x;
        let q = y / k;
        vstd::arithmetic::div_mod::lemma_fundamental_div_mod(y, k);
        vstd::arithmetic::mul::lemma_mul_is_commutative(q, k);
        assert(div_trunc(x, k) == -q);
        assert((-q) * k == -(q * k)) by (nonlinear_arith);
        // div_trunc(x, k) * k == x + y % k, so the round trip is exact
        // exactly when y % k == 0; that in turn holds exactly when
        // x % k == 0, both being multiples of k together.
        if y % k == 0 {
            assert(x == (-q) * k);
            vstd::arithmetic::div_mod::lemma_mod_multiples_basic(-q, k);
        }
        if x % k == 0 {
            let m = x / k;
            vstd::arithmetic::div_mod::lemma_fundamental_div_mod(x, k);
            assert(x == k * m);
            assert(y == (-m) * k) by (nonlinear_arith)
                requires
                    y == -x && x == k * m,
            ;
            vstd::arithmetic::div_mod::lemma_mod_multiples_basic(-m, k);
        }
    }
}

/// Scaling a rectangle's edges up by a positive factor and dividing back
/// down by the same factor recovers the rectangle exactly, whatever its
/// edges.
pub proof fn lemma_scale_then_unscale(r: Rect, k: int)
    requires
        k > 0,
    ensures
        div_trunc(r.left * k, k) == r.left,
        div_trunc(r.top * k, k) == r.top,
        div_trunc(r.right * k, k) == r.right,
        div_trunc(r.bottom * k, k) == r.bottom,
{
    lemma_mul_then_div_trunc(r.left as int, k);
    lemma_mul_then_div_trunc(r.top as int, k);
    lemma_mul_then_div_trunc(r.right as int, k);
    lemma_mul_then_div_trunc(r.bottom as int, k);
}

/// Dividing a rectangle's edges down by a positive factor and scaling back
/// up recovers the rectangle exactly when, and only when, every edge is a
/// multiple of the factor; otherwise the truncation toward zero is lossy.
pub proof fn lemma_unscale_then_scale(r: Rect, k: int)
    requires
        k > 0,
    ensures
        (div_trunc(r.left as int, k) * k == r.left
            && div_trunc(r.top as int, k) * k == r.top
            && div_trunc(r.right as int, k) * k == r.right
            && div_trunc(r.bottom as int, k) * k == r.bottom)
            <==> (r.left as int % k == 0 && r.top as int % k == 0
                && r.right as int % k == 0 && r.bottom as int % k == 0),
{
    lemma_div_trunc_exact(r.left as int, k);
    lemma_div_trunc_exact(r.top as int, k);
    lemma_div_trunc_exact(r.right as int, k);
    lemma_div_trunc_exact(r.bottom as int, k);
}

impl Default for Rect {
    fn default() -> (r: Rect)
        ensures
            r == (Rect { left: 0, top: 0, right: 0, bottom: 0 }),
    {
        Rect { left: 0, top: 0, right: 0, bottom: 0 }
    }
}

impl Point {
    /// The rectangle with this point as its origin corner and the given
    /// extent.
    pub fn with_size(self, s: Size) -> (r: Rect)
        requires
            i32::MIN <= self.x + s.width <= i32::MAX,
            i32::MIN <= self.y + s.height <= i32::MAX,
        ensures
            r.left == self.x,
            r.top == self.y,
            r.right == self.x + s.width,
            r.bottom == self.y + s.height,
    {
        Rect { left: self.x, top: self.y, right: self.x + s.width, bottom: self.y + s.height }
    }
}

} // verus!

