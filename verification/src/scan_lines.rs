//! The scan-line engine behind the rectangle and ellipse tools.
//!
//! Shapes are accumulated as one horizontal span per scan row: adding a shape
//! widens the rows it touches.  `outline` then emits the boundary cells — a
//! row's full span where the shape has no row above or below it, otherwise
//! the cells that stick out past the neighbouring rows' spans, and always at
//! least the two edge cells of the row.
use vstd::prelude::*;

use crate::geometry::Position;
use crate::geometry::Rectangle;
use crate::geometry::Size;

verus! {

/// Coordinates the engine accepts stay this far inside `i32`, so span
/// arithmetic cannot overflow.
pub const SCAN_LIMIT: i32 = 0x3fff_ffff;

/// One scan row: the cells `min_x ..= max_x` of row `y` are inside the shape.
#[derive(Clone, Copy, Debug, PartialEq, Eq, Structural)]
pub struct ScanRow {
    pub y: i32,
    pub min_x: i32,
    pub max_x: i32,
}

/// No two rows of the sequence describe the same scan row.
pub open spec fn unique_ys(rows: Seq<ScanRow>) -> bool {
    forall|i: int, j: int|
        0 <= i < rows.len() && 0 <= j < rows.len() && i != j ==> #[trigger] rows[i].y
            != #[trigger] rows[j].y
}

/// The span the sequence holds for scan row `y`, if any.
pub open spec fn span_at(rows: Seq<ScanRow>, y: int) -> Option<(int, int)> {
    if exists|i: int| 0 <= i < rows.len() && rows[i].y == y {
        let i = choose|i: int| 0 <= i < rows.len() && rows[i].y == y;
        Some((rows[i].min_x as int, rows[i].max_x as int))
    } else {
        None
    }
}

/// The span `(x0, x1)` merged into an existing span: the union's hull.
pub open spec fn merged_span(old_span: Option<(int, int)>, x0: int, x1: int) -> (int, int) {
    match old_span {
        Some((a, b)) => (if x0 < a { x0 } else { a }, if x1 > b { x1 } else { b }),
        None => (x0, x1),
    }
}

/// Whether the cell `(x, y)` lies inside the ellipse inscribed in `rect`.
/// In doubled, centred coordinates `u = 2(x - x0) - a` and
/// `v = 2(y - y0) - b`, with `a` and `b` the doubled semi-axes, a cell is
/// inside when `u^2 b^2 <= a^2 (b^2 - v^2)`.
pub open spec fn ellipse_contains(rect: Rectangle, x: int, y: int) -> bool {
    let a = rect.size.width - 1;
    let b = rect.size.height - 1;
    let u = 2 * (x - rect.start.x) - a;
    let v = 2 * (y - rect.start.y) - b;
    &&& rect.start.x <= x < rect.start.x + rect.size.width
    &&& rect.start.y <= y < rect.start.y + rect.size.height
    &&& u * u * (b * b) <= a * a * (b * b - v * v)
}

/// The right-hand side of the ellipse membership test on row `y`.
pub open spec fn ellipse_r(rect: Rectangle, y: int) -> int {
    let a = rect.size.width - 1;
    let b = rect.size.height - 1;
    let v = 2 * (y - rect.start.y) - b;
    a * a * (b * b - v * v)
}

/// Row `yy` of `after` accounts for the ellipse in `rect`: where the
/// ellipse covers cells of the row, the span is the hull of the old span
/// and exactly those cells; elsewhere the row is untouched.
pub open spec fn ellipse_row_done(
    before: ScanLines,
    after: ScanLines,
    rect: Rectangle,
    yy: int,
) -> bool {
    if exists|x: int| ellipse_contains(rect, x, yy) {
        exists|lo: int, hi: int|
            {
                &&& (forall|x: int| ellipse_contains(rect, x, yy) <==> lo <= x <= hi)
                &&& after.span(yy) == Some(merged_span(before.span(yy), lo, hi))
            }
    } else {
        after.span(yy) == before.span(yy)
    }
}

/// Integer square root: the largest value whose square does not exceed `n`.
pub fn isqrt(n: u128) -> (r: u128)
    ensures
        r * r <= n < (r + 1) * (r + 1),
{
    if n == 0 {
        return 0;
    }
    let mut lo: u128 = 0;
    let mut hi: u128 = 0x1_0000_0000_0000_0000;
    proof {
        assert((hi as int) * (hi as int) > n as int) by (nonlinear_arith)
            requires
                hi as int == 0x1_0000_0000_0000_0000,
                n <= u128::MAX,
        ;
    }
    while hi - lo > 1
        invariant
            lo < hi <= 0x1_0000_0000_0000_0000,
            (lo as int) * (lo as int) <= n as int,
            (n as int) < (hi as int) * (hi as int),
        decreases hi - lo,
    {
        let mid = lo + (hi - lo) / 2;
        proof {
            assert(lo < mid < hi);
            assert((mid as int) * (mid as int) <= u128::MAX) by (nonlinear_arith)
                requires
                    mid as int <= 0xffff_ffff_ffff_ffff,
            ;
        }
        if mid * mid <= n {
            lo = mid;
        } else {
            hi = mid;
        }
    }
    lo
}

/// A value between `-b` and `b` has a square between `0` and `b^2`.
proof fn lemma_square_bound(v: int, b: int)
    requires
        -b <= v <= b,
    ensures
        0 <= v * v <= b * b,
{
    assert(0 <= v * v <= b * b) by (nonlinear_arith)
        requires
            -b <= v <= b,
    ;
}

/// Square roots are monotone: `s^2 <= (ab)^2` gives `s <= ab`.
proof fn lemma_sqrt_le(s: int, ab: int)
    requires
        s >= 0,
        ab >= 0,
        s * s <= ab * ab,
    ensures
        s <= ab,
{
    assert(s <= ab) by (nonlinear_arith)
        requires
            s >= 0,
            ab >= 0,
            s * s <= ab * ab,
    ;
}

/// What flooring division of `s` by `b` gives, when `s` stays under `a * b`.
proof fn lemma_div_le(s: int, a: int, b: int)
    requires
        s >= 0,
        b >= 1,
        a >= 0,
        s <= a * b,
    ensures
        0 <= s / b <= a,
        (s / b) * b <= s,
        s < (s / b + 1) * b,
{
    vstd::arithmetic::div_mod::lemma_fundamental_div_mod(s, b);
    let q = s / b;
    let r = s % b;
    assert(0 <= r < b);
    assert(0 <= q && q <= a && q * b <= s && s < (q + 1) * b) by (nonlinear_arith)
        requires
            s == b * q + r,
            0 <= r < b,
            s >= 0,
            b >= 1,
            a >= 0,
            s <= a * b,
    ;
}

/// `2k >= n` exactly when `k` is at least the rounded-up half of `n`.
proof fn lemma_ge_half(k: int, n: int)
    requires
        n >= 0,
    ensures
        (2 * k >= n) <==> (k >= (n + 1) / 2),
{
    vstd::arithmetic::div_mod::lemma_fundamental_div_mod(n + 1, 2);
    assert(0 <= (n + 1) % 2 < 2);
}

/// `2k <= m` exactly when `k` is at most the rounded-down half of `m`.
proof fn lemma_le_half(k: int, m: int)
    requires
        m >= 0,
    ensures
        (2 * k <= m) <==> (k <= m / 2),
{
    vstd::arithmetic::div_mod::lemma_fundamental_div_mod(m, 2);
    assert(0 <= m % 2 < 2);
}

/// On a one-row ellipse every cell of the row is inside.
proof fn lemma_ellipse_flat_row(rect: Rectangle, y: int)
    requires
        rect.size.width >= 1,
        rect.size.height == 1,
        y == rect.start.y,
    ensures
        forall|x: int|
            ellipse_contains(rect, x, y) <==> rect.start.x <= x <= rect.start.x + rect.size.width
                - 1,
{
    assert forall|x: int|
        ellipse_contains(rect, x, y) <==> rect.start.x <= x <= rect.start.x + rect.size.width
            - 1 by {
        let a = rect.size.width - 1;
        let u = 2 * (x - rect.start.x) - a;
        assert(u * u * (0 * 0) == 0 && a * a * (0 * 0 - 0 * 0) == 0) by (nonlinear_arith);
    }
}

/// The cells of row `y` inside the ellipse are exactly those within `t`
/// doubled steps of the centre column, where `t` is the floored quotient of
/// the row's square root bound by the vertical semi-axis.
proof fn lemma_ellipse_row(rect: Rectangle, y: int, s: int, t: int)
    requires
        rect.size.width >= 1,
        rect.size.height >= 2,
        rect.start.y <= y < rect.start.y + rect.size.height,
        s >= 0,
        s * s <= ellipse_r(rect, y),
        ellipse_r(rect, y) < (s + 1) * (s + 1),
        t == s / (rect.size.height - 1),
        0 <= t <= rect.size.width - 1,
        (t * (rect.size.height - 1)) <= s,
        s < (t + 1) * (rect.size.height - 1),
    ensures
        forall|x: int|
            ellipse_contains(rect, x, y) <==> (rect.start.x + (rect.size.width - 1 - t + 1) / 2
                <= x <= rect.start.x + (rect.size.width - 1 + t) / 2),
{
    let a = rect.size.width - 1;
    let b = rect.size.height - 1;
    let x0 = rect.start.x;
    let rr = ellipse_r(rect, y);
    assert forall|x: int|
        ellipse_contains(rect, x, y) <==> (x0 + (a - t + 1) / 2 <= x <= x0 + (a + t) / 2) by {
        let u = 2 * (x - x0) - a;
        lemma_ge_half(x - x0, a - t);
        lemma_le_half(x - x0, a + t);
        if ellipse_contains(rect, x, y) {
            assert(u * u * (b * b) <= rr);
            assert(-t <= u <= t) by (nonlinear_arith)
                requires
                    u * u * (b * b) < (s + 1) * (s + 1),
                    t * b <= s,
                    s < (t + 1) * b,
                    s >= 0,
                    b >= 1,
            ;
            assert(a - t <= 2 * (x - x0) <= a + t);
        }
        if x0 + (a - t + 1) / 2 <= x <= x0 + (a + t) / 2 {
            assert((a - t + 1) / 2 <= x - x0 <= (a + t) / 2);
            assert(a - t <= 2 * (x - x0) <= a + t);
            assert(-t <= u <= t);
            assert(u * u * (b * b) <= rr) by (nonlinear_arith)
                requires
                    -t <= u <= t,
                    t * b <= s,
                    s * s <= rr,
                    s >= 0,
                    b >= 1,
            ;
            assert(x0 <= x);
            assert(x - x0 <= a) by {
                assert(2 * (x - x0) <= a + t <= 2 * a);
            }
            assert(ellipse_contains(rect, x, y));
        }
    }
}

/// Once a row is accounted for, later additions to other rows keep it so.
proof fn lemma_row_done_frame(
    before: ScanLines,
    mid: ScanLines,
    after: ScanLines,
    rect: Rectangle,
    yy: int,
    ycur: int,
)
    requires
        ellipse_row_done(before, mid, rect, yy),
        after.span(yy) == mid.span(yy),
    ensures
        ellipse_row_done(before, after, rect, yy),
{
    if exists|x: int| ellipse_contains(rect, x, yy) {
        let (lo, hi) = choose|lo: int, hi: int|
            {
                &&& (forall|x: int| ellipse_contains(rect, x, yy) <==> lo <= x <= hi)
                &&& mid.span(yy) == Some(merged_span(before.span(yy), lo, hi))
            };
        assert(after.span(yy) == Some(merged_span(before.span(yy), lo, hi)));
    }
}

/// The accumulated spans of the shapes added so far.
pub struct ScanLines {
    rows: Vec<ScanRow>,
    line_thickness: i32,
}

impl ScanLines {
    pub closed spec fn rows_seq(self) -> Seq<ScanRow> {
        self.rows@
    }

    /// The span recorded for scan row `y`.
    pub open spec fn span(self, y: int) -> Option<(int, int)> {
        span_at(self.rows_seq(), y)
    }

    /// Whether the cell `(x, y)` lies in the accumulated shape.
    pub open spec fn covered(self, x: int, y: int) -> bool {
        self.span(y) matches Some((lo, hi)) && lo <= x <= hi
    }

    pub closed spec fn wf(self) -> bool {
        &&& unique_ys(self.rows@)
        &&& forall|i: int|
            0 <= i < self.rows@.len() ==> {
                &&& -SCAN_LIMIT <= #[trigger] self.rows@[i].min_x
                &&& self.rows@[i].min_x <= self.rows@[i].max_x <= SCAN_LIMIT
                &&& -SCAN_LIMIT <= self.rows@[i].y <= SCAN_LIMIT
            }
    }

    /// Two rows with the same `y` are the same row.
    proof fn lemma_unique_index(rows: Seq<ScanRow>, i: int, j: int)
        requires
            unique_ys(rows),
            0 <= i < rows.len(),
            0 <= j < rows.len(),
            rows[i].y == rows[j].y,
        ensures
            i == j,
    {
        if i != j {
            assert(rows[i].y != rows[j].y);
        }
    }

    /// `wf` keeps every recorded span ordered and bounded.
    pub proof fn lemma_wf_span(self, y: int)
        requires
            self.wf(),
        ensures
            self.span(y) matches Some((lo, hi)) ==> -SCAN_LIMIT <= lo <= hi <= SCAN_LIMIT,
    {
    }

    /// An engine with no shape yet.
    pub fn new(line_thickness: i32) -> (r: ScanLines)
        ensures
            r.wf(),
            forall|y: int| #[trigger] r.span(y) is None,
    {
        ScanLines { rows: Vec::new(), line_thickness }
    }

    /// The recorded span of scan row `y`, as values.
    #[verifier::loop_isolation(false)]
    pub fn get_span(&self, y: i32) -> (r: Option<(i32, i32)>)
        requires
            self.wf(),
        ensures
            match r {
                Some((lo, hi)) => self.span(y as int) == Some((lo as int, hi as int)),
                None => self.span(y as int) is None,
            },
    {
        let n = self.rows.len();
        let mut i: usize = 0;
        while i < n
            invariant
                i <= n,
                n == self.rows@.len(),
                self.wf(),
                forall|j: int| 0 <= j < i ==> #[trigger] self.rows@[j].y != y,
            decreases n - i,
        {
            let row = self.rows[i];
            if row.y == y {
                proof {
                    assert(self.rows@[i as int].y == y);
                    let w = choose|k: int| 0 <= k < self.rows@.len() && self.rows@[k].y == y as int;
                    Self::lemma_unique_index(self.rows@, w, i as int);
                }
                return Some((row.min_x, row.max_x));
            }
            i = i + 1;
        }
        proof {
            assert forall|k: int| 0 <= k < self.rows@.len() implies self.rows@[k].y != y as int by {
                assert(self.rows@[k].y != y);
            }
        }
        None
    }

    /// Widens scan row `y` by the cells `x0 ..= x1`; other rows keep their
    /// spans.
    #[verifier::loop_isolation(false)]
    pub fn add_span(&mut self, y: i32, x0: i32, x1: i32)
        requires
            old(self).wf(),
            x0 <= x1,
            -SCAN_LIMIT <= x0,
            x1 <= SCAN_LIMIT,
            -SCAN_LIMIT <= y <= SCAN_LIMIT,
        ensures
            final(self).wf(),
            forall|yy: int| #[trigger]
                final(self).span(yy) == if yy == y {
                    Some(merged_span(old(self).span(y as int), x0 as int, x1 as int))
                } else {
                    old(self).span(yy)
                },
    {
        let n = self.rows.len();
        let mut i: usize = 0;
        while i < n
            invariant
                i <= n,
                n == self.rows@.len(),
                self == old(self),
                old(self).wf(),
                forall|j: int| 0 <= j < i ==> #[trigger] self.rows@[j].y != y,
            decreases n - i,
        {
            let row = self.rows[i];
            if row.y == y {
                let new_row = ScanRow {
                    y,
                    min_x: if x0 < row.min_x {
                        x0
                    } else {
                        row.min_x
                    },
                    max_x: if x1 > row.max_x {
                        x1
                    } else {
                        row.max_x
                    },
                };
                self.rows[i] = new_row;
                proof {
                    let rows0 = old(self).rows@;
                    let rows1 = self.rows@;
                    assert(rows1 == rows0.update(i as int, new_row));
                    Self::lemma_span_update(rows0, i as int, new_row, 0);
                    assert forall|j: int| 0 <= j < rows1.len() implies {
                        &&& -SCAN_LIMIT <= #[trigger] rows1[j].min_x
                        &&& rows1[j].min_x <= rows1[j].max_x <= SCAN_LIMIT
                        &&& -SCAN_LIMIT <= rows1[j].y <= SCAN_LIMIT
                    } by {
                        if j != i as int {
                            assert(rows1[j] == rows0[j]);
                            assert(-SCAN_LIMIT <= rows0[j].min_x);
                        } else {
                            assert(rows1[j] == new_row);
                            assert(row == rows0[i as int]);
                            assert(-SCAN_LIMIT <= rows0[i as int].min_x);
                        }
                    }
                    assert(self.wf());
                    assert forall|yy: int| #[trigger]
                        self.span(yy) == if yy == y {
                            Some(merged_span(old(self).span(y as int), x0 as int, x1 as int))
                        } else {
                            old(self).span(yy)
                        } by {
                        Self::lemma_span_update(rows0, i as int, new_row, yy);
                        if yy == y {
                            assert(rows0[i as int].y == y);
                            let w = choose|k: int|
                                0 <= k < rows0.len() && rows0[k].y == y as int;
                            Self::lemma_unique_index(rows0, w, i as int);
                        }
                    }
                }
                return ;
            }
            i = i + 1;
        }
        let new_row = ScanRow { y, min_x: x0, max_x: x1 };
        self.rows.push(new_row);
        proof {
            let rows0 = old(self).rows@;
            let rows1 = self.rows@;
            assert(rows1 == rows0.push(new_row));
            Self::lemma_span_push(rows0, new_row, 0);
            assert forall|j: int| 0 <= j < rows1.len() implies {
                &&& -SCAN_LIMIT <= #[trigger] rows1[j].min_x
                &&& rows1[j].min_x <= rows1[j].max_x <= SCAN_LIMIT
                &&& -SCAN_LIMIT <= rows1[j].y <= SCAN_LIMIT
            } by {
                if j < rows0.len() {
                    assert(rows1[j] == rows0[j]);
                    assert(-SCAN_LIMIT <= rows0[j].min_x);
                } else {
                    assert(rows1[j] == new_row);
                }
            }
            assert(self.wf());
            assert forall|yy: int| #[trigger]
                self.span(yy) == if yy == y {
                    Some(merged_span(old(self).span(y as int), x0 as int, x1 as int))
                } else {
                    old(self).span(yy)
                } by {
                Self::lemma_span_push(rows0, new_row, yy);
                if yy == y {
                    assert(old(self).span(y as int) is None);
                }
            }
        }
    }

    /// Updating the row at `i` in place only changes that row's span.
    proof fn lemma_span_update(rows: Seq<ScanRow>, i: int, r: ScanRow, yy: int)
        requires
            unique_ys(rows),
            0 <= i < rows.len(),
            r.y == rows[i].y,
        ensures
            unique_ys(rows.update(i, r)),
            yy == r.y ==> span_at(rows.update(i, r), yy) == Some((r.min_x as int, r.max_x as int)),
            yy != r.y ==> span_at(rows.update(i, r), yy) == span_at(rows, yy),
    {
        let rows1 = rows.update(i, r);
        assert(unique_ys(rows1));
        if yy == r.y {
            assert(rows1[i].y == yy);
            let w = choose|k: int| 0 <= k < rows1.len() && rows1[k].y == yy;
            assert(w == i);
        } else {
            if exists|k: int| 0 <= k < rows1.len() && rows1[k].y == yy {
                let w = choose|k: int| 0 <= k < rows1.len() && rows1[k].y == yy;
                assert(w != i);
                assert(rows[w].y == yy);
                let w0 = choose|k: int| 0 <= k < rows.len() && rows[k].y == yy;
                assert(w0 == w);
            } else {
                assert forall|k: int| 0 <= k < rows.len() implies rows[k].y != yy by {
                    if k == i {
                        assert(rows[i].y == r.y);
                    } else {
                        assert(rows1[k].y != yy);
                    }
                }
            }
        }
    }

    /// Appending a row with a fresh `y` only adds that row's span.
    proof fn lemma_span_push(rows: Seq<ScanRow>, r: ScanRow, yy: int)
        requires
            unique_ys(rows),
            forall|k: int| 0 <= k < rows.len() ==> #[trigger] rows[k].y != r.y,
        ensures
            unique_ys(rows.push(r)),
            yy == r.y ==> span_at(rows.push(r), yy) == Some((r.min_x as int, r.max_x as int)),
            yy != r.y ==> span_at(rows.push(r), yy) == span_at(rows, yy),
    {
        let rows1 = rows.push(r);
        assert(rows1[rows.len() as int] == r);
        assert forall|i: int, j: int|
            0 <= i < rows1.len() && 0 <= j < rows1.len() && i != j implies #[trigger] rows1[i].y
            != #[trigger] rows1[j].y by {
            if i < rows.len() && j < rows.len() {
                assert(rows1[i] == rows[i]);
                assert(rows1[j] == rows[j]);
            } else if i < rows.len() {
                assert(rows1[i] == rows[i] && rows1[j] == r);
            } else {
                assert(rows1[i] == r && rows1[j] == rows[j]);
            }
        }
        if yy == r.y {
            let w = choose|k: int| 0 <= k < rows1.len() && rows1[k].y == yy;
            assert(w == rows.len());
        } else {
            if exists|k: int| 0 <= k < rows1.len() && rows1[k].y == yy {
                let w = choose|k: int| 0 <= k < rows1.len() && rows1[k].y == yy;
                assert(w < rows.len());
                assert(rows[w].y == yy);
                let w0 = choose|k: int| 0 <= k < rows.len() && rows[k].y == yy;
                assert(w0 == w);
            } else {
                assert forall|k: int| 0 <= k < rows.len() implies rows[k].y != yy by {
                    assert(rows1[k].y != yy);
                }
            }
        }
    }

    /// Adds a filled ellipse inscribed in `rect`: every row of `rect` is
    /// widened by the cells inside the ellipse on that row (rows the ellipse
    /// passes between cells are skipped).  On an engine with no prior shape
    /// the accumulated cells afterwards are exactly the ellipse's.
    #[verifier::loop_isolation(false)]
    pub fn add_ellipse(&mut self, rect: Rectangle)
        requires
            old(self).wf(),
            rect.size.width >= 1,
            rect.size.height >= 1,
            -SCAN_LIMIT <= rect.start.x,
            rect.start.x + rect.size.width - 1 <= SCAN_LIMIT,
            -SCAN_LIMIT <= rect.start.y,
            rect.start.y + rect.size.height - 1 <= SCAN_LIMIT,
        ensures
            final(self).wf(),
            forall|yy: int| #[trigger] ellipse_row_done(*old(self), *final(self), rect, yy),
            (forall|yy: int| old(self).span(yy) is None) ==> (forall|x: int, yy: int| #[trigger]
                final(self).covered(x, yy) <==> ellipse_contains(rect, x, yy)),
    {
        let x0 = rect.start.x;
        let x1 = rect.start.x + rect.size.width - 1;
        let y0 = rect.start.y;
        let y1 = rect.start.y + rect.size.height - 1;
        let a: i64 = (x1 as i64) - (x0 as i64);
        let b: i64 = (y1 as i64) - (y0 as i64);
        let mut y: i32 = y0;
        while y <= y1
            invariant
                y0 <= y <= y1 + 1,
                self.wf(),
                forall|yy: int|
                    !(y0 <= yy < y) ==> #[trigger] self.span(yy) == old(self).span(yy),
                forall|yy: int|
                    y0 <= yy < y ==> #[trigger] ellipse_row_done(
                        *old(self),
                        *self,
                        rect,
                        yy,
                    ),
            decreases y1 + 1 - y,
        {
            let ghost pre = *self;
            if b == 0 {
                proof {
                    lemma_ellipse_flat_row(rect, y as int);
                    assert(pre.span(y as int) == old(self).span(y as int));
                }
                self.add_span(y, x0, x1);
                proof {
                    assert(ellipse_contains(rect, x0 as int, y as int));
                    assert((forall|x: int|
                        ellipse_contains(rect, x, y as int) <==> x0 as int <= x <= x0
                            + rect.size.width - 1) && self.span(y as int) == Some(
                        merged_span(
                            old(self).span(y as int),
                            x0 as int,
                            x0 + rect.size.width - 1,
                        ),
                    ));
                    assert(ellipse_row_done(*old(self), *self, rect, y as int));
                }
            } else {
                let v2: i64 = 2 * ((y as i64) - (y0 as i64)) - b;
                proof {
                    lemma_square_bound(v2 as int, b as int);
                    assert(0 <= a * a < 0x4000_0000_0000_0000) by (nonlinear_arith)
                        requires
                            0 <= a < 0x8000_0000,
                    ;
                    assert(0 <= b * b < 0x4000_0000_0000_0000) by (nonlinear_arith)
                        requires
                            0 <= b < 0x8000_0000,
                    ;
                    assert((a * a) * ((b * b) - (v2 * v2)) >= 0) by (nonlinear_arith)
                        requires
                            v2 * v2 <= b * b,
                    ;
                    assert((a * a) * ((b * b) - (v2 * v2)) <= (a * a) * (b * b))
                        by (nonlinear_arith)
                        requires
                            v2 * v2 >= 0,
                            a * a >= 0,
                    ;
                    assert(a * a * (b * b) <= i128::MAX) by (nonlinear_arith)
                        requires
                            0 <= a * a < 0x4000_0000_0000_0000,
                            0 <= b * b < 0x4000_0000_0000_0000,
                    ;
                }
                let r_val: i128 = (a as i128) * (a as i128) * ((b as i128) * (b as i128) - (
                v2 as i128) * (v2 as i128));
                let s: u128 = isqrt(r_val as u128);
                let ghost sg = s as int;
                proof {
                    assert(sg * sg <= a * a * (b * b));
                    assert((a * b) * (a * b) == a * a * (b * b)) by (nonlinear_arith);
                    assert(a * b >= 0) by (nonlinear_arith)
                        requires
                            a >= 0,
                            b >= 0,
                    ;
                    lemma_sqrt_le(sg, (a * b) as int);
                    lemma_div_le(sg, a as int, b as int);
                }
                let t: i64 = (s / (b as u128)) as i64;
                let lo_off: i64 = (a - t + 1) / 2;
                let hi_off: i64 = (a + t) / 2;
                proof {
                    lemma_ellipse_row(rect, y as int, sg, t as int);
                }
                if lo_off <= hi_off {
                    let lo: i32 = ((x0 as i64) + lo_off) as i32;
                    let hi: i32 = ((x0 as i64) + hi_off) as i32;
                    self.add_span(y, lo, hi);
                    proof {
                        assert(ellipse_contains(rect, lo as int, y as int));
                        assert(ellipse_row_done(*old(self), *self, rect, y as int));
                    }
                } else {
                    proof {
                        assert forall|x: int| !ellipse_contains(rect, x, y as int) by {}
                        assert(ellipse_row_done(*old(self), *self, rect, y as int));
                    }
                }
            }
            proof {
                assert forall|yy: int| y0 <= yy < y + 1 implies #[trigger] ellipse_row_done(
                    *old(self),
                    *self,
                    rect,
                    yy,
                ) by {
                    if yy < y {
                        assert(ellipse_row_done(*old(self), pre, rect, yy));
                        lemma_row_done_frame(*old(self), pre, *self, rect, yy, y as int);
                    }
                }
            }
            y = y + 1;
        }
        proof {
            assert forall|yy: int| #[trigger] ellipse_row_done(*old(self), *self, rect, yy) by {
                if !(y0 <= yy <= y1) {
                    assert(self.span(yy) == old(self).span(yy));
                    if exists|x: int| ellipse_contains(rect, x, yy) {
                        let xw = choose|x: int| ellipse_contains(rect, x, yy);
                        assert(false);
                    }
                }
            }
            if forall|yy: int| old(self).span(yy) is None {
                assert forall|x: int, yy: int| #[trigger]
                    self.covered(x, yy) <==> ellipse_contains(rect, x, yy) by {
                    if y0 <= yy <= y1 {
                        assert(ellipse_row_done(*old(self), *self, rect, yy));
                        assert(old(self).span(yy) is None);
                        if exists|xx: int| ellipse_contains(rect, xx, yy) {
                            let (lo, hi) = choose|lo: int, hi: int|
                                {
                                    &&& (forall|x2: int|
                                        ellipse_contains(rect, x2, yy) <==> lo <= x2 <= hi)
                                    &&& self.span(yy) == Some(
                                        merged_span(old(self).span(yy), lo, hi),
                                    )
                                };
                            assert(self.span(yy) == Some((lo, hi)));
                        } else {
                            assert(self.span(yy) is None);
                            assert(!ellipse_contains(rect, x, yy));
                        }
                    } else {
                        assert(self.span(yy) == old(self).span(yy));
                        assert(!ellipse_contains(rect, x, yy));
                    }
                }
            }
        }
    }

    /// Whether the cell `(x, y)` belongs to the outline of the accumulated
    /// shape: it is covered, and — unless the shape has no row above or no
    /// row below it, which makes the whole row boundary — it is one of the
    /// row's two edge cells or sticks out sideways past both neighbouring
    /// rows' spans.
    pub open spec fn on_outline(self, x: int, y: int) -> bool {
        &&& self.covered(x, y)
        &&& match (self.span(y), self.span(y - 1), self.span(y + 1)) {
            (Some((lo, hi)), Some((lo_a, hi_a)), Some((lo_b, hi_b))) => {
                ||| x == lo
                ||| x == hi
                ||| (x < lo_a && x < lo_b)
                ||| (x > hi_a && x > hi_b)
            },
            _ => true,
        }
    }

    /// On an engine holding exactly one filled rectangle, the outline cells
    /// are the rectangle's perimeter: its whole top and bottom rows, and the
    /// two edge columns of every row between them.
    pub proof fn lemma_rectangle_outline_is_perimeter(
        self,
        rect: Rectangle,
        x: int,
        y: int,
    )
        requires
            self.wf(),
            rect.size.width >= 1,
            rect.size.height >= 1,
            forall|yy: int| #[trigger]
                self.span(yy) == if rect.start.y <= yy < rect.start.y + rect.size.height {
                    Some((rect.start.x as int, rect.start.x + rect.size.width - 1))
                } else {
                    Option::<(int, int)>::None
                },
        ensures
            self.on_outline(x, y) <==> (rect.covers(x, y) && (y == rect.start.y || y
                == rect.start.y + rect.size.height - 1 || x == rect.start.x || x == rect.start.x
                + rect.size.width - 1)),
    {
        assert(self.span(y) == if rect.start.y <= y < rect.start.y + rect.size.height {
            Some((rect.start.x as int, rect.start.x + rect.size.width - 1))
        } else {
            Option::<(int, int)>::None
        });
        assert(self.span(y - 1) == if rect.start.y <= y - 1 < rect.start.y + rect.size.height {
            Some((rect.start.x as int, rect.start.x + rect.size.width - 1))
        } else {
            Option::<(int, int)>::None
        });
        assert(self.span(y + 1) == if rect.start.y <= y + 1 < rect.start.y + rect.size.height {
            Some((rect.start.x as int, rect.start.x + rect.size.width - 1))
        } else {
            Option::<(int, int)>::None
        });
    }

    /// The row stored at index `k` is the one `span` reports for its `y`.
    proof fn lemma_row_span(self, k: int)
        requires
            self.wf(),
            0 <= k < self.rows_seq().len(),
        ensures
            self.span(self.rows_seq()[k].y as int) == Some(
                (self.rows_seq()[k].min_x as int, self.rows_seq()[k].max_x as int),
            ),
    {
        let rows = self.rows@;
        let y = rows[k].y as int;
        assert(rows[k].y == y);
        let w = choose|i: int| 0 <= i < rows.len() && rows[i].y == y;
        Self::lemma_unique_index(rows, w, k);
    }

    /// The boundary cells of the accumulated shape, as one-cell-high
    /// rectangles: together they cover exactly the cells `on_outline`
    /// describes.
    #[verifier::loop_isolation(false)]
    pub fn outline(&self) -> (r: Vec<Rectangle>)
        requires
            self.wf(),
        ensures
            forall|i: int, x: int, y: int|
                0 <= i < r@.len() && #[trigger] r@[i].covers(x, y) ==> self.on_outline(x, y),
            forall|x: int, y: int|
                #[trigger] self.on_outline(x, y) ==> exists|i: int|
                    0 <= i < r@.len() && #[trigger] r@[i].covers(x, y),
            forall|i: int|
                0 <= i < r@.len() ==> {
                    &&& (#[trigger] r@[i]).size.height == 1
                    &&& r@[i].size.width >= 1
                    &&& -SCAN_LIMIT <= r@[i].start.x
                    &&& r@[i].start.x + r@[i].size.width - 1 <= SCAN_LIMIT
                    &&& -SCAN_LIMIT <= r@[i].start.y <= SCAN_LIMIT
                },
    {
        let mut out: Vec<Rectangle> = Vec::new();
        let n = self.rows.len();
        let mut k: usize = 0;
        while k < n
            invariant
                k <= n,
                n == self.rows@.len(),
                forall|i: int, x: int, y: int|
                    0 <= i < out@.len() && #[trigger] out@[i].covers(x, y) ==> self.on_outline(
                        x,
                        y,
                    ),
                forall|x: int, y: int|
                    #[trigger] self.on_outline(x, y) && (exists|j: int|
                        0 <= j < k && #[trigger] self.rows@[j].y == y) ==> exists|i: int|
                        0 <= i < out@.len() && #[trigger] out@[i].covers(x, y),
                forall|i: int|
                    0 <= i < out@.len() ==> {
                        &&& (#[trigger] out@[i]).size.height == 1
                        &&& out@[i].size.width >= 1
                        &&& -SCAN_LIMIT <= out@[i].start.x
                        &&& out@[i].start.x + out@[i].size.width - 1 <= SCAN_LIMIT
                        &&& -SCAN_LIMIT <= out@[i].start.y <= SCAN_LIMIT
                    },
            decreases n - k,
        {
            let row = self.rows[k];
            proof {
                assert(self.rows@[k as int].min_x <= self.rows@[k as int].max_x);
                self.lemma_row_span(k as int);
                self.lemma_wf_span(row.y - 1);
                self.lemma_wf_span(row.y + 1);
            }
            let up = self.get_span(row.y - 1);
            let down = self.get_span(row.y + 1);
            let ghost out_pre = out@;
            let ghost ry = row.y as int;
            match (up, down) {
                (Some((lo_a, hi_a)), Some((lo_b, hi_b))) => {
                    let m = if lo_a < lo_b {
                        lo_a
                    } else {
                        lo_b
                    };
                    let l_end = if m - 1 < row.min_x {
                        row.min_x
                    } else if m - 1 > row.max_x {
                        row.max_x
                    } else {
                        m - 1
                    };
                    let left = Rectangle {
                        start: Position { x: row.min_x, y: row.y },
                        size: Size { width: l_end - row.min_x + 1, height: 1 },
                    };
                    let mm = if hi_a > hi_b {
                        hi_a
                    } else {
                        hi_b
                    };
                    let r_start = if mm + 1 > row.max_x {
                        row.max_x
                    } else if mm + 1 < row.min_x {
                        row.min_x
                    } else {
                        mm + 1
                    };
                    let right = Rectangle {
                        start: Position { x: r_start, y: row.y },
                        size: Size { width: row.max_x - r_start + 1, height: 1 },
                    };
                    out.push(left);
                    out.push(right);
                    proof {
                        assert(out@ == out_pre.push(left).push(right));
                        assert forall|x: int, y: int|
                            #[trigger] out@[out_pre.len() as int].covers(x, y)
                                implies self.on_outline(x, y) by {}
                        assert forall|x: int, y: int|
                            #[trigger] out@[out_pre.len() as int + 1].covers(x, y)
                                implies self.on_outline(x, y) by {}
                        assert forall|x: int| #[trigger]
                            self.on_outline(x, ry) implies out@[out_pre.len() as int].covers(x, ry)
                            || out@[out_pre.len() as int + 1].covers(x, ry) by {}
                    }
                },
                _ => {
                    let full = Rectangle {
                        start: Position { x: row.min_x, y: row.y },
                        size: Size { width: row.max_x - row.min_x + 1, height: 1 },
                    };
                    out.push(full);
                    proof {
                        assert(out@ == out_pre.push(full));
                        assert forall|x: int, y: int|
                            #[trigger] out@[out_pre.len() as int].covers(x, y)
                                implies self.on_outline(x, y) by {}
                        assert forall|x: int| #[trigger]
                            self.on_outline(x, ry) implies out@[out_pre.len() as int].covers(
                            x,
                            ry,
                        ) by {}
                    }
                },
            }
            proof {
                assert forall|i: int, x: int, y: int|
                    0 <= i < out@.len() && #[trigger] out@[i].covers(x, y) implies self.on_outline(
                    x,
                    y,
                ) by {
                    if i < out_pre.len() {
                        assert(out@[i] == out_pre[i]);
                        assert(out_pre[i].covers(x, y));
                    }
                }
                assert forall|x: int, y: int|
                    #[trigger] self.on_outline(x, y) && (exists|j: int|
                        0 <= j < k + 1 && #[trigger] self.rows@[j].y == y) implies exists|i: int|
                        0 <= i < out@.len() && #[trigger] out@[i].covers(x, y) by {
                    let j = choose|j: int| 0 <= j < k + 1 && self.rows@[j].y == y;
                    if j < k {
                        assert(exists|i: int|
                            0 <= i < out_pre.len() && #[trigger] out_pre[i].covers(x, y));
                        let i0 = choose|i: int|
                            0 <= i < out_pre.len() && #[trigger] out_pre[i].covers(x, y);
                        assert(out@[i0] == out_pre[i0]);
                        assert(out@[i0].covers(x, y));
                    } else {
                        Self::lemma_unique_index(self.rows@, j, k as int);
                        assert(y == ry);
                    }
                }
            }
            k = k + 1;
        }
        proof {
            assert forall|x: int, y: int| #[trigger] self.on_outline(x, y) implies exists|i: int|
                0 <= i < out@.len() && #[trigger] out@[i].covers(x, y) by {
                assert(self.covered(x, y));
                let w = choose|i: int| 0 <= i < self.rows@.len() && self.rows@[i].y == y;
                assert(0 <= w < n && self.rows@[w].y == y);
            }
        }
        out
    }

    /// Adds a filled rectangle: every row of `rect` is widened by the
    /// rectangle's full horizontal extent.
    #[verifier::loop_isolation(false)]
    pub fn add_rectangle(&mut self, rect: Rectangle)
        requires
            old(self).wf(),
            rect.size.width >= 1,
            rect.size.height >= 1,
            -SCAN_LIMIT <= rect.start.x,
            rect.start.x + rect.size.width - 1 <= SCAN_LIMIT,
            -SCAN_LIMIT <= rect.start.y,
            rect.start.y + rect.size.height - 1 <= SCAN_LIMIT,
        ensures
            final(self).wf(),
            forall|yy: int| #[trigger]
                final(self).span(yy) == if rect.start.y <= yy < rect.start.y + rect.size.height {
                    Some(
                        merged_span(
                            old(self).span(yy),
                            rect.start.x as int,
                            rect.start.x + rect.size.width - 1,
                        ),
                    )
                } else {
                    old(self).span(yy)
                },
    {
        let x0 = rect.start.x;
        let x1 = rect.start.x + rect.size.width - 1;
        let y1 = rect.start.y + rect.size.height - 1;
        let mut y: i32 = rect.start.y;
        while y <= y1
            invariant
                rect.start.y <= y <= y1 + 1,
                self.wf(),
                forall|yy: int| #[trigger]
                    self.span(yy) == if rect.start.y <= yy < y {
                        Some(merged_span(old(self).span(yy), x0 as int, x1 as int))
                    } else {
                        old(self).span(yy)
                    },
            decreases y1 + 1 - y,
        {
            self.add_span(y, x0, x1);
            y = y + 1;
        }
    }
}

} // verus!
