//! A rectangular grid of cells, stored row-major.
//!
//! Both the character layer and the preview overlay of the editor are grids;
//! the cell type is a parameter.  Reads and writes outside the bounds are
//! absorbed: a read hands back a caller-supplied default, a write changes
//! nothing.  That mirrors how the drawing tools treat positions that a drag
//! carries off the edge of the buffer.
use vstd::prelude::*;

use crate::geometry::Position;

verus! {

/// Largest accepted width or height, small enough that any cell index
/// fits both `usize` and `i32`.
pub const MAX_DIM: usize = 0x8000;

/// A `width` x `height` grid of `T` cells.
pub struct Grid<T> {
    cells: Vec<T>,
    width: usize,
    height: usize,
}

impl<T: Copy> Grid<T> {
    pub closed spec fn width(self) -> int {
        self.width as int
    }

    pub closed spec fn height(self) -> int {
        self.height as int
    }

    pub closed spec fn wf(self) -> bool {
        &&& 1 <= self.width <= MAX_DIM
        &&& 1 <= self.height <= MAX_DIM
        &&& self.cells@.len() == self.width * self.height
    }

    /// The cell in column `x` of row `y`.
    pub closed spec fn cell(self, x: int, y: int) -> T {
        self.cells@[y * self.width + x]
    }

    pub open spec fn in_bounds(self, p: Position) -> bool {
        0 <= p.x < self.width() && 0 <= p.y < self.height()
    }

    proof fn lemma_index(self, x: int, y: int)
        requires
            self.wf(),
            0 <= x < self.width(),
            0 <= y < self.height(),
        ensures
            0 <= y * self.width() + x < self.cells@.len(),
            y * self.width() + x < 0x4000_0000,
    {
        assert(0 <= y * self.width() + x < self.width() * self.height() && y * self.width() + x
            < 0x4000_0000) by (nonlinear_arith)
            requires
                0 <= x < self.width() <= MAX_DIM,
                0 <= y < self.height() <= MAX_DIM,
        ;
    }

    proof fn lemma_index_injective(self, x1: int, y1: int, x2: int, y2: int)
        requires
            0 <= x1 < self.width(),
            0 <= x2 < self.width(),
            0 <= y1,
            0 <= y2,
        ensures
            y1 * self.width() + x1 == y2 * self.width() + x2 ==> x1 == x2 && y1 == y2,
    {
        assert(y1 * self.width() + x1 == y2 * self.width() + x2 ==> x1 == x2 && y1 == y2)
            by (nonlinear_arith)
            requires
                0 <= x1 < self.width(),
                0 <= x2 < self.width(),
                0 <= y1,
                0 <= y2,
        ;
    }

    /// The bounds `wf` keeps on the dimensions, for callers that compute
    /// with them.
    pub proof fn lemma_dims(self)
        requires
            self.wf(),
        ensures
            1 <= self.width() <= MAX_DIM,
            1 <= self.height() <= MAX_DIM,
    {
    }

    pub fn exec_width(&self) -> (r: usize)
        ensures
            r == self.width(),
    {
        self.width
    }

    pub fn exec_height(&self) -> (r: usize)
        ensures
            r == self.height(),
    {
        self.height
    }

    /// A fresh grid with every cell set to `fill`.
    pub fn new(width: usize, height: usize, fill: T) -> (r: Grid<T>)
        requires
            1 <= width <= MAX_DIM,
            1 <= height <= MAX_DIM,
        ensures
            r.wf(),
            r.width() == width,
            r.height() == height,
            forall|x: int, y: int|
                0 <= x < width && 0 <= y < height ==> #[trigger] r.cell(x, y) == fill,
    {
        proof {
            assert(width * height <= 0x4000_0000) by (nonlinear_arith)
                requires
                    width <= MAX_DIM,
                    height <= MAX_DIM,
            ;
        }
        let n = width * height;
        let mut cells: Vec<T> = Vec::new();
        let mut i: usize = 0;
        while i < n
            invariant
                i <= n,
                cells@.len() == i,
                forall|k: int| 0 <= k < i ==> cells@[k] == fill,
            decreases n - i,
        {
            cells.push(fill);
            i = i + 1;
        }
        let r = Grid { cells, width, height };
        proof {
            assert forall|x: int, y: int|
                0 <= x < width && 0 <= y < height implies #[trigger] r.cell(x, y) == fill by {
                r.lemma_index(x, y);
            }
        }
        r
    }

    /// A grid with the same dimensions and cells.
    pub fn duplicate(&self) -> (r: Grid<T>)
        requires
            self.wf(),
        ensures
            r.wf(),
            r.width() == self.width(),
            r.height() == self.height(),
            forall|x: int, y: int|
                0 <= x < self.width() && 0 <= y < self.height() ==> #[trigger] r.cell(x, y)
                    == self.cell(x, y),
    {
        let mut cells: Vec<T> = Vec::new();
        let n = self.cells.len();
        let mut i: usize = 0;
        while i < n
            invariant
                i <= n,
                n == self.cells@.len(),
                cells@.len() == i,
                forall|k: int| 0 <= k < i ==> cells@[k] == self.cells@[k],
            decreases n - i,
        {
            cells.push(self.cells[i]);
            i = i + 1;
        }
        let r = Grid { cells, width: self.width, height: self.height };
        proof {
            assert(r.cells@ =~= self.cells@);
        }
        r
    }

    /// A grid of the new dimensions: cells inside both keep their value,
    /// fresh cells hold `fill`.
    #[verifier::loop_isolation(false)]
    pub fn resized(&self, width: usize, height: usize, fill: T) -> (r: Grid<T>)
        requires
            self.wf(),
            1 <= width <= MAX_DIM,
            1 <= height <= MAX_DIM,
        ensures
            r.wf(),
            r.width() == width,
            r.height() == height,
            forall|x: int, y: int|
                0 <= x < width && 0 <= y < height ==> #[trigger] r.cell(x, y) == if x
                    < self.width() && y < self.height() {
                    self.cell(x, y)
                } else {
                    fill
                },
    {
        let mut r = Grid::new(width, height, fill);
        let mut y: usize = 0;
        while y < height
            invariant
                y <= height,
                r.wf(),
                r.width() == width,
                r.height() == height,
                forall|xx: int, yy: int|
                    0 <= xx < width && 0 <= yy < height ==> #[trigger] r.cell(xx, yy) == if yy < y
                        && xx < self.width() && yy < self.height() {
                        self.cell(xx, yy)
                    } else {
                        fill
                    },
            decreases height - y,
        {
            let mut x: usize = 0;
            while x < width
                invariant
                    x <= width,
                    y < height,
                    r.wf(),
                    r.width() == width,
                    r.height() == height,
                    forall|xx: int, yy: int|
                        0 <= xx < width && 0 <= yy < height ==> #[trigger] r.cell(xx, yy) == if (yy
                            < y || (yy == y && xx < x)) && xx < self.width() && yy < self.height() {
                            self.cell(xx, yy)
                        } else {
                            fill
                        },
                decreases width - x,
            {
                let p = Position { x: x as i32, y: y as i32 };
                if self.in_bounds_exec(p) {
                    let v = self.get(p, fill);
                    r.set(p, v);
                }
                x = x + 1;
            }
            y = y + 1;
        }
        r
    }

    /// Whether `p` lies inside the grid, as a value.
    pub fn in_bounds_exec(&self, p: Position) -> (r: bool)
        requires
            self.wf(),
        ensures
            r == self.in_bounds(p),
    {
        0 <= p.x && (p.x as usize) < self.width && 0 <= p.y && (p.y as usize) < self.height
    }

    /// The cell at `p`, or `default` when `p` lies outside the grid.
    pub fn get(&self, p: Position, default: T) -> (r: T)
        requires
            self.wf(),
        ensures
            r == if self.in_bounds(p) {
                self.cell(p.x as int, p.y as int)
            } else {
                default
            },
    {
        if 0 <= p.x && (p.x as usize) < self.width && 0 <= p.y && (p.y as usize) < self.height {
            proof {
                self.lemma_index(p.x as int, p.y as int);
            }
            let idx = (p.y as usize) * self.width + (p.x as usize);
            self.cells[idx]
        } else {
            default
        }
    }

    /// Writes `v` at `p`; positions outside the grid are left alone.
    pub fn set(&mut self, p: Position, v: T)
        requires
            old(self).wf(),
        ensures
            final(self).wf(),
            final(self).width() == old(self).width(),
            final(self).height() == old(self).height(),
            forall|x: int, y: int|
                0 <= x < old(self).width() && 0 <= y < old(self).height()
                    ==> #[trigger] final(self).cell(x, y) == if old(self).in_bounds(p) && x == p.x
                    && y == p.y {
                    v
                } else {
                    old(self).cell(x, y)
                },
    {
        if 0 <= p.x && (p.x as usize) < self.width && 0 <= p.y && (p.y as usize) < self.height {
            proof {
                self.lemma_index(p.x as int, p.y as int);
            }
            let idx = (p.y as usize) * self.width + (p.x as usize);
            self.cells[idx] = v;
            proof {
                assert forall|x: int, y: int|
                    0 <= x < self.width() && 0 <= y < self.height() && !(x == p.x && y == p.y)
                        implies #[trigger] self.cell(x, y) == old(self).cell(x, y) by {
                    self.lemma_index(x, y);
                    self.lemma_index_injective(x, y, p.x as int, p.y as int);
                }
            }
        }
    }
}

} // verus!
