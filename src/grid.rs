use vstd::prelude::*;

use crate::geometry::{
    direction_ordinal, direction_vector, CellIndex2d, Direction, IndexRect,
};

verus! {

/// Geometry of a grid of cells: its dimensions and its compass partition.
#[derive(Clone, Debug)]
pub struct Grid2D {
    pub column_number: u32,
    pub row_number: u32,
    pub max_column_index: u32,
    pub max_row_index: u32,
    pub indexes_rect: IndexRect,
    /// One rectangle per compass direction, indexed by `Direction::ordinal`.
    pub segments: Vec<IndexRect>,
}

/// Row-major position of a cell in a grid `column_number` wide.
pub open spec fn flat_index(c: CellIndex2d, column_number: int) -> int {
    c.x + c.y * column_number
}

/// The cell at row-major position `i` of a grid `column_number` wide.
pub open spec fn unflat_index(i: int, column_number: int) -> CellIndex2d {
    CellIndex2d { x: (i % column_number) as u32, y: (i / column_number) as u32 }
}

pub open spec fn first_third(min: u32, max: u32) -> u32 {
    (min + (max - min) / 3) as u32
}

pub open spec fn second_third(min: u32, max: u32) -> u32 {
    (min + 2 * (max - min) / 3) as u32
}

pub open spec fn middle(min: u32, max: u32) -> u32 {
    (min + (max - min) / 2) as u32
}

pub open spec fn rect(min_x: int, min_y: int, max_x: int, max_y: int) -> IndexRect {
    IndexRect {
        min: CellIndex2d { x: min_x as u32, y: min_y as u32 },
        max: CellIndex2d { x: max_x as u32, y: max_y as u32 },
    }
}

/// The eight compass regions of `r`, by direction ordinal. Both axes are cut
/// in thirds; the middle band of rows is cut in two halves only, into west
/// and east. A region may hold no cell when `r` is narrow.
pub open spec fn compass_segments(r: IndexRect) -> Seq<IndexRect> {
    let f1x = first_third(r.min.x, r.max.x) as int;
    let s2x = second_third(r.min.x, r.max.x) as int;
    let f1y = first_third(r.min.y, r.max.y) as int;
    let s2y = second_third(r.min.y, r.max.y) as int;
    let cx = middle(r.min.x, r.max.x) as int;
    let (minx, miny, maxx, maxy) = (r.min.x as int, r.min.y as int, r.max.x as int, r.max.y as int);
    seq![
        rect(f1x + 1, s2y + 1, s2x, maxy),
        rect(s2x + 1, s2y + 1, maxx, maxy),
        rect(cx + 1, f1y + 1, maxx, s2y),
        rect(s2x + 1, miny, maxx, f1y),
        rect(f1x + 1, miny, s2x, f1y),
        rect(minx, miny, f1x, f1y),
        rect(minx, f1y + 1, cx, s2y),
        rect(minx, s2y + 1, f1x, maxy),
    ]
}

/// A rectangle that `compass_segments` can cut without leaving `u32`.
pub open spec fn splittable(r: IndexRect) -> bool {
    r.is_proper() && r.max.x < u32::MAX && r.max.y < u32::MAX
}

/// `r` and `o` share a cell, when both are proper.
pub open spec fn rects_touch(r: IndexRect, o: IndexRect) -> bool {
    !(r.max.x < o.min.x || r.min.x > o.max.x || r.max.y < o.min.y || r.min.y > o.max.y)
}

/// `r` and `o` overlap with a positive area, their borders aside.
pub open spec fn rects_overlap_inside(r: IndexRect, o: IndexRect) -> bool {
    !(r.max.x <= o.min.x || r.min.x >= o.max.x || r.max.y <= o.min.y || r.min.y >= o.max.y)
}

pub open spec fn clamp_to(v: int, hi: int) -> u32 {
    (if v < 0 { 0 } else if v > hi { hi } else { v }) as u32
}

pub open spec fn min_int(a: int, b: int) -> int {
    if a <= b { a } else { b }
}

pub open spec fn sat_sub(a: int, b: int) -> int {
    if a >= b { a - b } else { 0 }
}

impl Grid2D {
    /// Dimensions are consistent and every flat index fits in `u32`.
    pub open spec fn wf(&self) -> bool {
        &&& self.column_number >= 1
        &&& self.row_number >= 1
        &&& self.column_number * self.row_number <= u32::MAX + 1
        &&& self.column_number * self.row_number <= isize::MAX
        &&& self.max_column_index == self.column_number - 1
        &&& self.max_row_index == self.row_number - 1
        &&& self.indexes_rect == rect(0, 0, self.max_column_index as int, self.max_row_index as int)
        &&& self.segments@ == compass_segments(self.indexes_rect)
    }

    pub open spec fn in_bounds(&self, c: CellIndex2d) -> bool {
        c.x < self.column_number && c.y < self.row_number
    }

    /// A grid of `column_number` by `row_number` cells.
    pub fn new(column_number: u32, row_number: u32) -> (r: Grid2D)
        requires
            column_number >= 1,
            row_number >= 1,
            column_number * row_number <= u32::MAX + 1,
            column_number * row_number <= isize::MAX,
        ensures
            r.wf(),
            r.column_number == column_number,
            r.row_number == row_number,
    {
        let max_column_index = column_number - 1;
        let max_row_index = row_number - 1;
        let indexes_rect = IndexRect::new(0, 0, max_column_index, max_row_index);
        let segments = split_grid_in_compass_directions(&indexes_rect);
        Grid2D { column_number, row_number, max_column_index, max_row_index, indexes_rect, segments }
    }

    /// The compass region of `direction`.
    pub fn segment_in(&self, direction: Direction) -> (r: IndexRect)
        requires
            self.wf(),
        ensures
            r == compass_segments(self.indexes_rect)[direction_ordinal(direction) as int],
    {
        self.segments[direction.ordinal()]
    }

    pub fn get_central_cell(&self) -> (r: CellIndex2d)
        ensures
            r.x == self.column_number / 2,
            r.y == self.row_number / 2,
    {
        CellIndex2d::new(self.column_number / 2, self.row_number / 2)
    }

    #[inline]
    pub fn is_cell_index_in_grid_bounds(&self, cell_index: CellIndex2d) -> (r: bool)
        ensures
            r == self.in_bounds(cell_index),
    {
        cell_index.x < self.column_number && cell_index.y < self.row_number
    }

    /// Row-major index of a cell of this grid.
    #[inline]
    pub fn calc_cell_index_1d_at(&self, cell_index2d: CellIndex2d) -> (r: u32)
        requires
            self.wf(),
            self.in_bounds(cell_index2d),
        ensures
            r == flat_index(cell_index2d, self.column_number as int),
    {
        proof { lemma_flat_index_fits(cell_index2d, self.column_number as int, self.row_number as int); }
        calculate_1d_index(cell_index2d, self.column_number)
    }

    /// The cell at a row-major index.
    #[inline]
    pub fn calc_cell_index_2d_at(&self, cell_index1d: u32) -> (r: CellIndex2d)
        requires
            self.wf(),
        ensures
            r == unflat_index(cell_index1d as int, self.column_number as int),
    {
        calculate_2d_index(cell_index1d, self.column_number)
    }

    /// Clamps each coordinate into the grid.
    #[inline]
    pub fn form_grid_bound_cell_index(&self, cell_index_x: u32, cell_index_y: u32) -> (r: CellIndex2d)
        requires
            self.wf(),
        ensures
            r.x == min_int(cell_index_x as int, self.max_column_index as int),
            r.y == min_int(cell_index_y as int, self.max_row_index as int),
            self.in_bounds(r),
    {
        let x = if cell_index_x <= self.max_column_index { cell_index_x } else { self.max_column_index };
        let y = if cell_index_y <= self.max_row_index { cell_index_y } else { self.max_row_index };
        CellIndex2d::new(x, y)
    }

    /// The rectangle `center ± size / 2`, cut to the grid.
    pub fn calculate_area_clamped_from_center(&self, center: &CellIndex2d, size: CellIndex2d) -> (r: IndexRect)
        requires
            self.wf(),
        ensures
            r.min.x == min_int(sat_sub(center.x as int, (size.x / 2) as int), self.max_column_index as int),
            r.min.y == min_int(sat_sub(center.y as int, (size.y / 2) as int), self.max_row_index as int),
            r.max.x == min_int(center.x + size.x / 2, self.max_column_index as int),
            r.max.y == min_int(center.y + size.y / 2, self.max_row_index as int),
            r.is_proper(),
            self.indexes_rect.covers(r),
    {
        let half_width = size.x / 2;
        let half_height = size.y / 2;
        let min_x = clamp_high(sub_or_zero(center.x, half_width) as u64, self.max_column_index);
        let min_y = clamp_high(sub_or_zero(center.y, half_height) as u64, self.max_row_index);
        let max_x = clamp_high(center.x as u64 + half_width as u64, self.max_column_index);
        let max_y = clamp_high(center.y as u64 + half_height as u64, self.max_row_index);
        IndexRect::new(min_x, min_y, max_x, max_y)
    }

    /// The cells within `radius` of `center` on both axes, cut to the grid, as
    /// the lower and upper corners.
    #[inline]
    pub fn calculate_indexes_limits_in_rang(&self, center_cell_index: CellIndex2d, radius: u32) -> (r: (
        CellIndex2d,
        CellIndex2d,
    ))
        requires
            self.wf(),
        ensures
            r.0.x == min_int(sat_sub(center_cell_index.x as int, radius as int), self.max_column_index as int),
            r.0.y == min_int(sat_sub(center_cell_index.y as int, radius as int), self.max_row_index as int),
            r.1.x == min_int(center_cell_index.x + radius, self.max_column_index as int),
            r.1.y == min_int(center_cell_index.y + radius, self.max_row_index as int),
    {
        let min_x = clamp_high(sub_or_zero(center_cell_index.x, radius) as u64, self.max_column_index);
        let min_y = clamp_high(sub_or_zero(center_cell_index.y, radius) as u64, self.max_row_index);
        let max_x = clamp_high(center_cell_index.x as u64 + radius as u64, self.max_column_index);
        let max_y = clamp_high(center_cell_index.y as u64 + radius as u64, self.max_row_index);
        (CellIndex2d::new(min_x, min_y), CellIndex2d::new(max_x, max_y))
    }

    /// The square of side `area_size` centred on `from`, cut to the grid.
    #[inline]
    pub fn calculate_square_area_wrapped_from(&self, from: CellIndex2d, area_size: CellIndex2d) -> (r: IndexRect)
        requires
            self.wf(),
        ensures
            r == self.calculate_area_clamped_from_center_spec(from, area_size),
            r.is_proper(),
            self.indexes_rect.covers(r),
    {
        self.calculate_area_clamped_from_center(&from, area_size)
    }

    pub open spec fn calculate_area_clamped_from_center_spec(&self, center: CellIndex2d, size: CellIndex2d) -> IndexRect {
        rect(
            min_int(sat_sub(center.x as int, (size.x / 2) as int), self.max_column_index as int),
            min_int(sat_sub(center.y as int, (size.y / 2) as int), self.max_row_index as int),
            min_int(center.x + size.x / 2, self.max_column_index as int),
            min_int(center.y + size.y / 2, self.max_row_index as int),
        )
    }

    /// Each corner of `area` cut to the grid.
    #[inline]
    pub fn clamp_rect_to_grid_bounds(&self, area: IndexRect) -> (r: IndexRect)
        requires
            self.wf(),
        ensures
            r == IndexRect::from_corners_spec(
                CellIndex2d {
                    x: clamp_to(area.min.x as int, self.max_column_index as int),
                    y: clamp_to(area.min.y as int, self.max_row_index as int),
                },
                CellIndex2d {
                    x: clamp_to(area.max.x as int, self.max_column_index as int),
                    y: clamp_to(area.max.y as int, self.max_row_index as int),
                },
            ),
            self.indexes_rect.covers(r),
    {
        let min_x = clamp_high(area.min.x as u64, self.max_column_index);
        let min_y = clamp_high(area.min.y as u64, self.max_row_index);
        let max_x = clamp_high(area.max.x as u64, self.max_column_index);
        let max_y = clamp_high(area.max.y as u64, self.max_row_index);
        IndexRect::from_corners(CellIndex2d::new(min_x, min_y), CellIndex2d::new(max_x, max_y))
    }

    /// The cell `num_cells` steps from `origin` in `direction`, cut to the grid.
    pub fn calculate_cell_index_in_direction_from(
        &self,
        origin: CellIndex2d,
        in_direction: Direction,
        num_cells: u32,
    ) -> (r: CellIndex2d)
        requires
            self.wf(),
        ensures
            r.x == clamp_to(origin.x + direction_vector(in_direction).0 * num_cells, self.max_column_index as int),
            r.y == clamp_to(origin.y + direction_vector(in_direction).1 * num_cells, self.max_row_index as int),
    {
        let v = in_direction.as_vector();
        let x = clamp_signed(origin.x as i64 + scaled_step(v.x, num_cells), self.max_column_index);
        let y = clamp_signed(origin.y as i64 + scaled_step(v.y, num_cells), self.max_row_index);
        CellIndex2d::new(x, y)
    }

    /// The rectangle from `point` to the cell `num_cells` steps away in
    /// `in_direction`, the far corner cut to the grid.
    pub fn calculate_line_from(&self, point: CellIndex2d, in_direction: Direction, num_cells: u32) -> (r: IndexRect)
        requires
            self.wf(),
        ensures
            r == IndexRect::from_corners_spec(
                point,
                CellIndex2d {
                    x: clamp_to(point.x + direction_vector(in_direction).0 * num_cells, self.max_column_index as int),
                    y: clamp_to(point.y + direction_vector(in_direction).1 * num_cells, self.max_row_index as int),
                },
            ),
    {
        let end = self.calculate_cell_index_in_direction_from(point, in_direction, num_cells);
        IndexRect::from_corners(point, end)
    }

    pub open spec fn line_infront_spec(&self, point: CellIndex2d, in_direction: Direction, num_cells: u32) -> IndexRect {
        let (dx, dy) = direction_vector(in_direction);
        let sx = clamp_to(point.x + dx, self.max_column_index as int);
        let sy = clamp_to(point.y + dy, self.max_row_index as int);
        IndexRect::from_corners_spec(
            CellIndex2d { x: sx, y: sy },
            CellIndex2d {
                x: clamp_to(sx + dx * (num_cells - 1), self.max_column_index as int),
                y: clamp_to(sy + dy * (num_cells - 1), self.max_row_index as int),
            },
        )
    }

    /// The `num_cells` cells in front of `point` in `in_direction`: the cell
    /// next to `point` and `num_cells - 1` more, cut to the grid.
    pub fn calculate_line_infront_from(&self, point: CellIndex2d, in_direction: Direction, num_cells: u32) -> (r: IndexRect)
        requires
            self.wf(),
            num_cells >= 1,
        ensures
            r == self.line_infront_spec(point, in_direction, num_cells),
            self.indexes_rect.covers(r),
    {
        let start = self.calculate_cell_index_in_direction_from(point, in_direction, 1);
        let end = self.calculate_cell_index_in_direction_from(start, in_direction, num_cells - 1);
        IndexRect::from_corners(start, end)
    }

    /// The rectangle reaching `num_cells` times the direction's step on each
    /// side of `point` (before the grid cut), cut to the grid.
    pub fn calculate_area_from(&self, point: CellIndex2d, in_direction: Direction, num_cells: u32) -> (r: IndexRect)
        requires
            self.wf(),
        ensures
            ({
                let (dx, dy) = direction_vector(in_direction);
                let ax = if dx != 0 { num_cells as int } else { 0 };
                let ay = if dy != 0 { num_cells as int } else { 0 };
                let sx = min_int(sat_sub(point.x as int, ax), self.max_column_index as int);
                let sy = min_int(sat_sub(point.y as int, ay), self.max_row_index as int);
                r == rect(
                    sx,
                    sy,
                    min_int(sx + 2 * ax, self.max_column_index as int),
                    min_int(sy + 2 * ay, self.max_row_index as int),
                )
            }),
            r.is_proper(),
            self.indexes_rect.covers(r),
    {
        let v = in_direction.as_vector();
        let ax: u32 = if v.x != 0 { num_cells } else { 0 };
        let ay: u32 = if v.y != 0 { num_cells } else { 0 };
        let sx = clamp_high(sub_or_zero(point.x, ax) as u64, self.max_column_index);
        let sy = clamp_high(sub_or_zero(point.y, ay) as u64, self.max_row_index);
        let ex = clamp_high(sx as u64 + 2 * ax as u64, self.max_column_index);
        let ey = clamp_high(sy as u64 + 2 * ay as u64, self.max_row_index);
        IndexRect::new(sx, sy, ex, ey)
    }
}

impl IndexRect {
    pub open spec fn from_corners_spec(a: CellIndex2d, b: CellIndex2d) -> IndexRect {
        IndexRect {
            min: CellIndex2d { x: if a.x <= b.x { a.x } else { b.x }, y: if a.y <= b.y { a.y } else { b.y } },
            max: CellIndex2d { x: if a.x <= b.x { b.x } else { a.x }, y: if a.y <= b.y { b.y } else { a.y } },
        }
    }
}

fn sub_or_zero(a: u32, b: u32) -> (r: u32)
    ensures
        r == sat_sub(a as int, b as int),
{
    if a >= b { a - b } else { 0 }
}

fn clamp_high(v: u64, hi: u32) -> (r: u32)
    ensures
        r == min_int(v as int, hi as int),
{
    if v <= hi as u64 { v as u32 } else { hi }
}

/// `d * n` for a unit step `d`.
fn scaled_step(d: i32, n: u32) -> (r: i64)
    requires
        -1 <= d <= 1,
    ensures
        r == d * n,
        -(n as int) <= r <= n,
{
    if d > 0 {
        assert(d == 1);
        n as i64
    } else if d < 0 {
        assert(d == -1);
        -(n as i64)
    } else {
        assert(d == 0);
        0
    }
}

fn clamp_signed(v: i64, hi: u32) -> (r: u32)
    ensures
        r == clamp_to(v as int, hi as int),
{
    if v < 0 { 0 } else if v > hi as i64 { hi } else { v as u32 }
}

/// The cell at row-major position `index` of a grid `column_number` wide.
#[inline]
pub fn calculate_2d_index(index: u32, column_number: u32) -> (r: CellIndex2d)
    requires
        column_number > 0,
    ensures
        r == unflat_index(index as int, column_number as int),
        r.x < column_number,
{
    CellIndex2d::new(index % column_number, index / column_number)
}

/// Row-major position of `index` in a grid `column_number` wide.
#[inline]
pub fn calculate_1d_index(index: CellIndex2d, column_number: u32) -> (r: u32)
    requires
        flat_index(index, column_number as int) <= u32::MAX,
    ensures
        r == flat_index(index, column_number as int),
{
    proof {
        assert(index.y * column_number <= index.x + index.y * column_number);
    }
    index.x + index.y * column_number
}

pub fn calculate_2d_from_1d_index(grid_parameters: &Grid2D, index: u32) -> (r: CellIndex2d)
    requires
        grid_parameters.wf(),
    ensures
        r == unflat_index(index as int, grid_parameters.column_number as int),
{
    calculate_2d_index(index, grid_parameters.column_number)
}

pub fn calculate_1d_from_2d_index(grid_parameters: &Grid2D, index: CellIndex2d) -> (r: u32)
    requires
        grid_parameters.wf(),
        grid_parameters.in_bounds(index),
    ensures
        r == flat_index(index, grid_parameters.column_number as int),
{
    grid_parameters.calc_cell_index_1d_at(index)
}

/// Every cell of a grid has a flat index below `columns * rows`.
pub proof fn lemma_flat_index_fits(c: CellIndex2d, columns: int, rows: int)
    requires
        0 <= c.x < columns,
        0 <= c.y < rows,
    ensures
        0 <= flat_index(c, columns) < columns * rows,
{
    assert(c.y * columns + c.x < columns * rows) by (nonlinear_arith)
        requires
            0 <= c.x < columns,
            0 <= c.y < rows,
    ;
    assert(c.y * columns >= 0) by (nonlinear_arith)
        requires
            0 <= c.y,
            0 <= columns,
    ;
}

/// Flattening a cell of a grid and unflattening the index gives the cell back,
/// and each index below `columns * rows` is the flat index of the cell it
/// unflattens to.
pub proof fn lemma_flatten_round_trip(c: CellIndex2d, i: int, columns: int, rows: int)
    requires
        columns >= 1,
        rows >= 1,
        c.x < columns,
        c.y < rows,
        0 <= i < columns * rows,
        columns * rows <= u32::MAX + 1,
    ensures
        0 <= flat_index(c, columns) < columns * rows,
        unflat_index(flat_index(c, columns), columns) == c,
        flat_index(unflat_index(i, columns), columns) == i,
        unflat_index(i, columns).x < columns,
        unflat_index(i, columns).y < rows,
{
    lemma_flat_index_fits(c, columns, rows);
    let f = flat_index(c, columns);
    vstd::arithmetic::div_mod::lemma_fundamental_div_mod_converse(f, columns, c.y as int, c.x as int);
    vstd::arithmetic::div_mod::lemma_fundamental_div_mod(i, columns);
    assert(i / columns < rows) by (nonlinear_arith)
        requires
            0 <= i < columns * rows,
            columns >= 1,
    {
        vstd::arithmetic::div_mod::lemma_div_by_multiple_is_strongly_ordered(i, columns * rows, rows, columns);
    }
    assert(0 <= i % columns < columns) by {
        vstd::arithmetic::div_mod::lemma_mod_bound(i, columns);
    }
    assert(i / columns >= 0) by {
        vstd::arithmetic::div_mod::lemma_div_pos_is_pos(i, columns);
    }
    vstd::arithmetic::mul::lemma_mul_is_commutative(columns, i / columns);
    assert(columns <= u32::MAX + 1 && rows <= u32::MAX + 1) by (nonlinear_arith)
        requires
            columns * rows <= u32::MAX + 1,
            columns >= 1,
            rows >= 1,
    ;
    assert((i % columns) as u32 == i % columns);
    assert((i / columns) as u32 == i / columns);
}

/// The eight compass regions of `grid`, indexed by direction ordinal.
pub fn split_grid_in_compass_directions(grid: &IndexRect) -> (r: Vec<IndexRect>)
    requires
        splittable(*grid),
    ensures
        r@ == compass_segments(*grid),
{
    let (minx, miny, maxx, maxy) = (grid.min.x, grid.min.y, grid.max.x, grid.max.y);
    let f1x = minx + (maxx - minx) / 3;
    let s2x = minx + ((2 * (maxx - minx) as u64) / 3) as u32;
    let f1y = miny + (maxy - miny) / 3;
    let s2y = miny + ((2 * (maxy - miny) as u64) / 3) as u32;
    let cx = minx + (maxx - minx) / 2;
    let r = vec![
        IndexRect::new(f1x + 1, s2y + 1, s2x, maxy),
        IndexRect::new(s2x + 1, s2y + 1, maxx, maxy),
        IndexRect::new(cx + 1, f1y + 1, maxx, s2y),
        IndexRect::new(s2x + 1, miny, maxx, f1y),
        IndexRect::new(f1x + 1, miny, s2x, f1y),
        IndexRect::new(minx, miny, f1x, f1y),
        IndexRect::new(minx, f1y + 1, cx, s2y),
        IndexRect::new(minx, s2y + 1, f1x, maxy),
    ];
    assert(r@ =~= compass_segments(*grid));
    r
}

/// The compass regions of a rectangle share no cell, and together they hold
/// exactly the rectangle's cells.
pub proof fn lemma_compass_partition(r: IndexRect)
    requires
        splittable(r),
    ensures
        compass_segments(r).len() == 8,
        forall|i: int, j: int, p: CellIndex2d|
            0 <= i < 8 && 0 <= j < 8 && i != j && #[trigger] compass_segments(r)[i].contains_spec(p)
                ==> !#[trigger] compass_segments(r)[j].contains_spec(p),
        forall|p: CellIndex2d|
            r.contains_spec(p) <==> exists|i: int| 0 <= i < 8 && #[trigger] compass_segments(r)[i].contains_spec(p),
{
    let f1x = first_third(r.min.x, r.max.x) as int;
    let s2x = second_third(r.min.x, r.max.x) as int;
    let f1y = first_third(r.min.y, r.max.y) as int;
    let s2y = second_third(r.min.y, r.max.y) as int;
    let cx = middle(r.min.x, r.max.x) as int;
    assert(r.min.x <= f1x <= cx <= s2x <= r.max.x);
    assert(r.min.y <= f1y <= s2y <= r.max.y);
    let segs = compass_segments(r);
    assert forall|p: CellIndex2d| r.contains_spec(p) implies exists|i: int|
        0 <= i < 8 && #[trigger] segs[i].contains_spec(p) by {
        if p.y <= f1y {
            if p.x <= f1x {
                assert(segs[5].contains_spec(p));
            } else if p.x <= s2x {
                assert(segs[4].contains_spec(p));
            } else {
                assert(segs[3].contains_spec(p));
            }
        } else if p.y <= s2y {
            if p.x <= cx {
                assert(segs[6].contains_spec(p));
            } else {
                assert(segs[2].contains_spec(p));
            }
        } else {
            if p.x <= f1x {
                assert(segs[7].contains_spec(p));
            } else if p.x <= s2x {
                assert(segs[0].contains_spec(p));
            } else {
                assert(segs[1].contains_spec(p));
            }
        }
    }
}

/// The compass partition depends on the grid's dimensions alone: grids built
/// from the same column and row counts have identical segments.
pub proof fn lemma_compass_deterministic(g1: Grid2D, g2: Grid2D)
    requires
        g1.wf(),
        g2.wf(),
        g1.column_number == g2.column_number,
        g1.row_number == g2.row_number,
    ensures
        g1.segments@ == g2.segments@,
{
}

/// The rectangles share a cell; for proper rectangles, the negation of
/// being apart on some axis.
pub fn are_intersecting_exclusive(rect: IndexRect, other: IndexRect) -> (r: bool)
    ensures
        r == rects_touch(rect, other),
        rect.is_proper() && other.is_proper() ==> (r <==> exists|p: CellIndex2d|
            rect.contains_spec(p) && other.contains_spec(p)),
{
    let r = !(rect.max.x < other.min.x || rect.min.x > other.max.x || rect.max.y < other.min.y || rect.min.y
        > other.max.y);
    proof {
        if r && rect.is_proper() && other.is_proper() {
            let px = if rect.min.x >= other.min.x { rect.min.x } else { other.min.x };
            let py = if rect.min.y >= other.min.y { rect.min.y } else { other.min.y };
            let p = CellIndex2d { x: px, y: py };
            assert(rect.contains_spec(p) && other.contains_spec(p));
        }
    }
    r
}

/// The rectangles overlap with a positive area: sharing only a border line
/// does not count.
pub fn are_intersecting_inclusive(rect: IndexRect, other: IndexRect) -> (r: bool)
    ensures
        r == rects_overlap_inside(rect, other),
{
    !(rect.max.x <= other.min.x || rect.min.x >= other.max.x || rect.max.y <= other.min.y || rect.min.y
        >= other.max.y)
}

/// The rectangle of the same size as `area` with its lower corner at (0, 0).
pub fn normalize_rect(area: IndexRect) -> (r: IndexRect)
    requires
        area.is_proper(),
    ensures
        r == rect(0, 0, area.max.x - area.min.x, area.max.y - area.min.y),
{
    IndexRect::new(0, 0, area.width(), area.height())
}

/// `global_index` relative to the lower corner of `segment`.
pub fn global_to_local(global_index: CellIndex2d, segment: IndexRect) -> (r: CellIndex2d)
    requires
        global_index.x >= segment.min.x,
        global_index.y >= segment.min.y,
    ensures
        r.x == global_index.x - segment.min.x,
        r.y == global_index.y - segment.min.y,
{
    CellIndex2d::new(global_index.x - segment.min.x, global_index.y - segment.min.y)
}

} // verus!
