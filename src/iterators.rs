use vstd::prelude::*;

use crate::geometry::{CellIndex2d, IndexOffset, IndexRect};
use crate::grid::{min_int, sat_sub, Grid2D};

verus! {

/// The cells with `start_i <= x < end_i` and `start_j <= y < end_j`, all x of
/// a row before the next row, both ascending.
pub open spec fn row_major(start_i: u32, end_i: u32, start_j: u32, end_j: u32) -> Seq<CellIndex2d> {
    if end_i <= start_i || end_j <= start_j {
        Seq::empty()
    } else {
        let w = end_i - start_i;
        Seq::new(
            (w * (end_j - start_j)) as nat,
            |k: int| CellIndex2d { x: (start_i + k % (w as int)) as u32, y: (start_j + k / (w as int)) as u32 },
        )
    }
}

/// The cells of an inclusive rectangle in row-major order.
pub open spec fn rect_cells(area: IndexRect) -> Seq<CellIndex2d> {
    if area.is_proper() {
        Seq::new(
            ((area.max.x - area.min.x + 1) * (area.max.y - area.min.y + 1)) as nat,
            |k: int|
                CellIndex2d {
                    x: (area.min.x + k % (area.max.x - area.min.x + 1)) as u32,
                    y: (area.min.y + k / (area.max.x - area.min.x + 1)) as u32,
                },
        )
    } else {
        Seq::empty()
    }
}

/// A lazy, restartable sequence of cell coordinates in row-major order: it
/// keeps the ranges and two cursors into the sequence, and computes each
/// cell when it is handed out.
pub struct CoordinateIterator {
    start_i: u32,
    end_i: u32,
    start_j: u32,
    end_j: u32,
    front: u64,
    back: u64,
}

impl View for CoordinateIterator {
    type V = Seq<CellIndex2d>;

    /// The cells not yet handed out.
    closed spec fn view(&self) -> Seq<CellIndex2d> {
        row_major(self.start_i, self.end_i, self.start_j, self.end_j).subrange(self.front as int, self.back as int)
    }
}

impl CoordinateIterator {
    pub closed spec fn wf(&self) -> bool {
        self.front <= self.back <= row_major(self.start_i, self.end_i, self.start_j, self.end_j).len()
    }

    /// The cells of the half-open ranges `[start_i, end_i)` by
    /// `[start_j, end_j)`, in row-major order.
    pub fn new(start_i: u32, end_i: u32, start_j: u32, end_j: u32) -> (r: CoordinateIterator)
        ensures
            r.wf(),
            r@ == row_major(start_i, end_i, start_j, end_j),
    {
        let count: u64 = if start_i < end_i && start_j < end_j {
            proof {
                assert((end_i - start_i) * (end_j - start_j) <= 0xFFFF_FFFFu64 * 0xFFFF_FFFFu64) by (nonlinear_arith)
                    requires
                        end_i - start_i <= 0xFFFF_FFFFu64,
                        end_j - start_j <= 0xFFFF_FFFFu64,
                ;
            }
            (end_i - start_i) as u64 * (end_j - start_j) as u64
        } else {
            0
        };
        let r = CoordinateIterator { start_i, end_i, start_j, end_j, front: 0, back: count };
        assert(r@ =~= row_major(start_i, end_i, start_j, end_j));
        r
    }

    /// The `k`-th cell of the whole sequence.
    fn cell_at(&self, k: u64) -> (r: CellIndex2d)
        requires
            self.wf(),
            k < self.back,
        ensures
            r == row_major(self.start_i, self.end_i, self.start_j, self.end_j)[k as int],
    {
        assert(self.start_i < self.end_i && self.start_j < self.end_j);
        let w = self.end_i - self.start_i;
        let h = (self.end_j - self.start_j) as u64;
        proof {
            assert(k < w * h);
            vstd::arithmetic::div_mod::lemma_mod_bound(k as int, w as int);
            vstd::arithmetic::div_mod::lemma_div_pos_is_pos(k as int, w as int);
            vstd::arithmetic::div_mod::lemma_multiply_divide_lt(k as int, w as int, h as int);
        }
        let w64 = w as u64;
        let q = k / w64;
        let m = k % w64;
        assert(q == (k as int) / (w as int) && m == (k as int) % (w as int));
        assert(q < h && m < w64);
        let x = self.start_i + m as u32;
        let y = self.start_j + q as u32;
        CellIndex2d::new(x, y)
    }

    /// The next cell from the front.
    pub fn next(&mut self) -> (r: Option<CellIndex2d>)
        requires
            old(self).wf(),
        ensures
            final(self).wf(),
            old(self)@.len() == 0 ==> r is None && final(self)@ == old(self)@,
            old(self)@.len() > 0 ==> r == Some(old(self)@[0]) && final(self)@ == old(self)@.drop_first(),
    {
        if self.front < self.back {
            let c = self.cell_at(self.front);
            self.front = self.front + 1;
            assert(self@ =~= old(self)@.drop_first());
            Some(c)
        } else {
            None
        }
    }

    /// The next cell from the back.
    pub fn next_back(&mut self) -> (r: Option<CellIndex2d>)
        requires
            old(self).wf(),
        ensures
            final(self).wf(),
            old(self)@.len() == 0 ==> r is None && final(self)@ == old(self)@,
            old(self)@.len() > 0 ==> r == Some(old(self)@.last()) && final(self)@ == old(self)@.drop_last(),
    {
        if self.front < self.back {
            let c = self.cell_at(self.back - 1);
            self.back = self.back - 1;
            assert(self@ =~= old(self)@.drop_last());
            Some(c)
        } else {
            None
        }
    }

    /// How many cells are left.
    pub fn len(&self) -> (r: u64)
        requires
            self.wf(),
        ensures
            r == self@.len(),
    {
        self.back - self.front
    }
}

impl Grid2D {
    /// Every cell of the grid, row by row.
    pub fn iter_coordinates(&self) -> (r: CoordinateIterator)
        ensures
            r.wf(),
            r@ == row_major(0, self.column_number, 0, self.row_number),
    {
        CoordinateIterator::new(0, self.column_number, 0, self.row_number)
    }

    /// The cells with `min.x <= x < max.x` and `min.y <= y < max.y`.
    pub fn iter_coordinates_range(&self, min: CellIndex2d, max: CellIndex2d) -> (r: CoordinateIterator)
        requires
            max.x <= self.column_number,
            max.y <= self.row_number,
        ensures
            r.wf(),
            r@ == row_major(min.x, max.x, min.y, max.y),
    {
        CoordinateIterator::new(min.x, max.x, min.y, max.y)
    }

    /// The cells of the inclusive rectangle `area`, row by row.
    pub fn iter_coordinates_in_area(&self, area: IndexRect) -> (r: CoordinateIterator)
        requires
            self.wf(),
            area.max.x <= self.max_column_index,
            area.max.y <= self.max_row_index,
        ensures
            r.wf(),
            r@ == rect_cells(area),
    {
        let r = CoordinateIterator::new(area.min.x, area.max.x + 1, area.min.y, area.max.y + 1);
        assert(r@ =~= rect_cells(area));
        r
    }
}

/// The cells within `radius` of the centre on both axes, cut to the grid,
/// row by row.
pub fn calculate_indexes_in_range(grid_parameters: &Grid2D, center_cell_index: CellIndex2d, radius: u32) -> (r: Vec<
    CellIndex2d,
>)
    requires
        grid_parameters.wf(),
    ensures
        r@ == rect_cells(range_rect(grid_parameters, center_cell_index, radius)),
{
    let (min_limit, max_limit) = grid_parameters.calculate_indexes_limits_in_rang(center_cell_index, radius);
    let area = IndexRect::new(min_limit.x, min_limit.y, max_limit.x, max_limit.y);
    let mut it = grid_parameters.iter_coordinates_in_area(area);
    let mut out: Vec<CellIndex2d> = Vec::new();
    let ghost all = it@;
    while it.len() > 0
        invariant
            it.wf(),
            all == rect_cells(area),
            out@ + it@ == all,
        decreases it@.len(),
    {
        let c = it.next();
        match c {
            Some(c) => {
                out.push(c);
                assert(out@ + it@ =~= all);
            },
            None => {},
        }
    }
    assert(out@ =~= all);
    out
}

pub open spec fn range_rect(grid: &Grid2D, center: CellIndex2d, radius: u32) -> IndexRect {
    IndexRect {
        min: CellIndex2d {
            x: min_int(sat_sub(center.x as int, radius as int), grid.max_column_index as int) as u32,
            y: min_int(sat_sub(center.y as int, radius as int), grid.max_row_index as int) as u32,
        },
        max: CellIndex2d {
            x: min_int(center.x + radius, grid.max_column_index as int) as u32,
            y: min_int(center.y + radius, grid.max_row_index as int) as u32,
        },
    }
}

/// `c` lies within Euclidean distance `radius` of `center`.
pub open spec fn in_circle(center: CellIndex2d, radius: u32, c: CellIndex2d) -> bool {
    (c.x - center.x) * (c.x - center.x) + (c.y - center.y) * (c.y - center.y) <= radius * radius
}

fn is_in_circle(center: CellIndex2d, radius: u32, c: CellIndex2d) -> (r: bool)
    ensures
        r == in_circle(center, radius, c),
{
    let dx: u64 = if c.x >= center.x { (c.x - center.x) as u64 } else { (center.x - c.x) as u64 };
    let dy: u64 = if c.y >= center.y { (c.y - center.y) as u64 } else { (center.y - c.y) as u64 };
    proof {
        assert(dx * dx <= 0xFFFF_FFFFu64 * 0xFFFF_FFFFu64 && dy * dy <= 0xFFFF_FFFFu64 * 0xFFFF_FFFFu64)
            by (nonlinear_arith)
            requires
                dx <= 0xFFFF_FFFFu64,
                dy <= 0xFFFF_FFFFu64,
        ;
        assert(dx * dx == (c.x - center.x) * (c.x - center.x)) by (nonlinear_arith)
            requires
                dx == c.x - center.x || dx == center.x - c.x,
        ;
        assert(dy * dy == (c.y - center.y) * (c.y - center.y)) by (nonlinear_arith)
            requires
                dy == c.y - center.y || dy == center.y - c.y,
        ;
        assert(radius as u128 * radius as u128 <= 0xFFFF_FFFFu128 * 0xFFFF_FFFFu128) by (nonlinear_arith)
            requires
                radius <= 0xFFFF_FFFFu32,
        ;
    }
    let r2 = radius as u128 * radius as u128;
    dx as u128 * dx as u128 + dy as u128 * dy as u128 <= r2
}

/// The cells of `calculate_indexes_in_range` that lie within Euclidean
/// distance `radius` of the centre, in the same order.
pub fn calculate_indexes_in_circle_from_index(grid_parameters: &Grid2D, center_cell_index: CellIndex2d, radius: u32) -> (r:
    Vec<CellIndex2d>)
    requires
        grid_parameters.wf(),
    ensures
        r@ == rect_cells(range_rect(grid_parameters, center_cell_index, radius)).filter(
            |c: CellIndex2d| in_circle(center_cell_index, radius, c),
        ),
{
    let indexes = calculate_indexes_in_range(grid_parameters, center_cell_index, radius);
    let ghost pred = |c: CellIndex2d| in_circle(center_cell_index, radius, c);
    let mut out: Vec<CellIndex2d> = Vec::new();
    let mut i: usize = 0;
    while i < indexes.len()
        invariant
            i <= indexes@.len(),
            pred == (|c: CellIndex2d| in_circle(center_cell_index, radius, c)),
            out@ == indexes@.take(i as int).filter(pred),
        decreases indexes@.len() - i,
    {
        let c = indexes[i];
        proof {
            reveal(Seq::filter);
            assert(indexes@.take(i as int + 1).drop_last() =~= indexes@.take(i as int));
            assert(indexes@.take(i as int + 1).last() == c);
        }
        if is_in_circle(center_cell_index, radius, c) {
            out.push(c);
        }
        i = i + 1;
    }
    assert(indexes@.take(indexes@.len() as int) =~= indexes@);
    out
}

/// The cells an explosion at `center` pushes: those within `radius` of it on
/// both axes, cut to the grid, row by row, the centre itself left out.
pub fn explosion_cells(grid_parameters: &Grid2D, center: CellIndex2d, radius: u32) -> (r: Vec<CellIndex2d>)
    requires
        grid_parameters.wf(),
    ensures
        r@ == rect_cells(range_rect(grid_parameters, center, radius)).filter(|c: CellIndex2d| c != center),
        !r@.contains(center),
{
    let indexes = calculate_indexes_in_range(grid_parameters, center, radius);
    let ghost pred = |c: CellIndex2d| c != center;
    let mut out: Vec<CellIndex2d> = Vec::new();
    let mut i: usize = 0;
    while i < indexes.len()
        invariant
            i <= indexes@.len(),
            pred == (|c: CellIndex2d| c != center),
            out@ == indexes@.take(i as int).filter(pred),
        decreases indexes@.len() - i,
    {
        let c = indexes[i];
        proof {
            reveal(Seq::filter);
            assert(indexes@.take(i as int + 1).drop_last() =~= indexes@.take(i as int));
            assert(indexes@.take(i as int + 1).last() == c);
        }
        if c != center {
            out.push(c);
        }
        i = i + 1;
    }
    assert(indexes@.take(indexes@.len() as int) =~= indexes@);
    proof {
        if out@.contains(center) {
            let i = choose|i: int| 0 <= i < out@.len() && out@[i] == center;
            indexes@.lemma_filter_pred(pred, i);
        }
    }
    out
}

/// `(x, y)` is a cell of `r`.
pub open spec fn rect_has(r: IndexRect, x: int, y: int) -> bool {
    r.min.x <= x <= r.max.x && r.min.y <= y <= r.max.y
}

/// Walks a line of cells through an area: each step hands out the current
/// cell and moves on, as long as the next cell is still in the area.
pub struct AreaLineIterator {
    pub bounds: IndexRect,
    pub current: CellIndex2d,
    pub direction: IndexOffset,
}

impl AreaLineIterator {
    /// Hands out `current` and moves one step when the cell after it lies in
    /// `bounds`; otherwise the walk is over.
    pub fn next(&mut self) -> (r: Option<CellIndex2d>)
        ensures
            ({
                let nx = old(self).current.x + old(self).direction.x;
                let ny = old(self).current.y + old(self).direction.y;
                if rect_has(old(self).bounds, nx, ny) {
                    &&& r == Some(old(self).current)
                    &&& *final(self) == AreaLineIterator {
                        current: CellIndex2d { x: nx as u32, y: ny as u32 },
                        ..*old(self)
                    }
                } else {
                    r is None && *final(self) == *old(self)
                }
            }),
    {
        let nx = self.current.x as i64 + self.direction.x as i64;
        let ny = self.current.y as i64 + self.direction.y as i64;
        if !self.bounds.contains_i64(nx, ny) {
            return None;
        }
        let result = self.current;
        self.current = CellIndex2d::new(nx as u32, ny as u32);
        Some(result)
    }
}

/// Sweeps an area column by column: it steps along y while it can, then
/// moves one column along x and restarts the column from its first row.
pub struct AreaFullIterator {
    pub bounds: IndexRect,
    pub current: CellIndex2d,
    pub direction: IndexOffset,
}

impl AreaFullIterator {
    /// The next cell of the sweep: one step along y if that stays in
    /// `bounds`; else the next column, from the row where a sweep along
    /// `direction.y` starts; else the sweep is over.
    pub fn next(&mut self) -> (r: Option<CellIndex2d>)
        ensures
            ({
                let s = *old(self);
                let ny = s.current.y + s.direction.y;
                let nx = s.current.x + s.direction.x;
                let restart_y = if s.direction.y > 0 { s.bounds.min.y } else { s.bounds.max.y };
                if s.direction.y != 0 && rect_has(s.bounds, s.current.x as int, ny) {
                    let c = CellIndex2d { x: s.current.x, y: ny as u32 };
                    r == Some(c) && *final(self) == AreaFullIterator { current: c, ..s }
                } else if s.direction.x != 0 && rect_has(s.bounds, nx, s.current.y as int) {
                    let c = CellIndex2d { x: nx as u32, y: restart_y };
                    r == Some(c) && *final(self) == AreaFullIterator { current: c, ..s }
                } else {
                    r is None && *final(self) == s
                }
            }),
    {
        let ny = self.current.y as i64 + self.direction.y as i64;
        let nx = self.current.x as i64 + self.direction.x as i64;
        if self.direction.y != 0 && self.bounds.contains_i64(self.current.x as i64, ny) {
            self.current = CellIndex2d::new(self.current.x, ny as u32);
            Some(self.current)
        } else if self.direction.x != 0 && self.bounds.contains_i64(nx, self.current.y as i64) {
            let restart_y = if self.direction.y > 0 { self.bounds.min.y } else { self.bounds.max.y };
            self.current = CellIndex2d::new(nx as u32, restart_y);
            Some(self.current)
        } else {
            None
        }
    }
}

impl CoordinateIterator {
    /// A walk from `start` along `direction` through `area`.
    pub fn iter_area_in_line_from(start: CellIndex2d, direction: IndexOffset, area: IndexRect) -> (r: AreaLineIterator)
        ensures
            r == (AreaLineIterator { bounds: area, current: start, direction }),
    {
        AreaLineIterator { bounds: area, current: start, direction }
    }

    /// A column-by-column sweep of `area` from `start` along `direction`.
    pub fn iter_area_fully_from(start: CellIndex2d, direction: IndexOffset, area: IndexRect) -> (r: AreaFullIterator)
        ensures
            r == (AreaFullIterator { bounds: area, current: start, direction }),
    {
        AreaFullIterator { bounds: area, current: start, direction }
    }
}

} // verus!
