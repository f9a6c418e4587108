use vstd::prelude::*;

use ndarray::Array2;
use rand::rngs::ThreadRng;
use rand::Rng;

use crate::geometry::{chebyshev, CellIndex2d, IndexRect, DETRACTION_UNIT};
use crate::grid::Grid2D;

verus! {

/// Obstacle state of a cell.
#[derive(Clone, Copy, Debug, PartialEq, Eq, Structural)]
pub enum Occupation {
    Free,
    Occupied,
}

/// Colour of an untouched cell, as packed RGBA.
pub const WHITE: u32 = 0xFFFF_FFFF;

/// Per-cell simulation state. `color` is packed RGBA; `detraction_factor`
/// is a penalty in units of `DETRACTION_UNIT`.
#[derive(Clone, Copy, Debug, PartialEq, Eq, Structural)]
pub struct GridCellData {
    pub color: u32,
    pub occupation_state: Occupation,
    pub detraction_factor: u32,
}

pub open spec fn blank_cell() -> GridCellData {
    GridCellData { color: WHITE, occupation_state: Occupation::Free, detraction_factor: 0 }
}

impl GridCellData {
    /// A free white cell without penalty.
    pub fn blank() -> (r: GridCellData)
        ensures
            r == blank_cell(),
    {
        GridCellData { color: WHITE, occupation_state: Occupation::Free, detraction_factor: 0 }
    }
}

/// An ndarray `Array2` of cell records, indexed `[x, y]`. Held in an opaque
/// struct because Verus cannot declare ndarray's `ArrayBase`, whose bound is
/// an outside trait; `cells_of` names what it holds.
#[verifier::external_body]
pub struct CellArray {
    inner: Array2<GridCellData>,
}

/// What a cell array holds: outer index the column `x`, inner index the row `y`.
pub uninterp spec fn cells_of(a: CellArray) -> Seq<Seq<GridCellData>>;

/// Relies on ndarray's `Array2::from_elem`: an array of shape
/// `(columns, rows)` with every element equal to `cell`.
#[verifier::external_body]
fn new_cell_array(columns: usize, rows: usize, cell: GridCellData) -> (r: CellArray)
    requires
        columns * rows <= isize::MAX,
    ensures
        cells_of(r).len() == columns,
        forall|x: int| 0 <= x < columns ==> (#[trigger] cells_of(r)[x]).len() == rows,
        forall|x: int, y: int| 0 <= x < columns && 0 <= y < rows ==> #[trigger] cells_of(r)[x][y] == cell,
{
    CellArray { inner: Array2::from_elem((columns, rows), cell) }
}

/// Relies on ndarray's indexing by `[x, y]`: the element at that position.
#[verifier::external_body]
fn cell_array_get(a: &CellArray, x: usize, y: usize) -> (r: GridCellData)
    requires
        x < cells_of(*a).len(),
        y < cells_of(*a)[x as int].len(),
    ensures
        r == cells_of(*a)[x as int][y as int],
{
    a.inner[[x, y]]
}

/// Relies on ndarray's mutable indexing by `[x, y]`: only that element changes.
#[verifier::external_body]
fn cell_array_set(a: &mut CellArray, x: usize, y: usize, cell: GridCellData)
    requires
        x < cells_of(*old(a)).len(),
        y < cells_of(*old(a))[x as int].len(),
    ensures
        cells_of(*final(a)) == cells_of(*old(a)).update(
            x as int,
            cells_of(*old(a))[x as int].update(y as int, cell),
        ),
{
    a.inner[[x, y]] = cell;
}

/// Dense per-cell state of a grid, one record per cell.
pub struct GridRelatedData {
    data: CellArray,
}

impl View for GridRelatedData {
    type V = Seq<Seq<GridCellData>>;

    closed spec fn view(&self) -> Seq<Seq<GridCellData>> {
        cells_of(self.data)
    }
}

impl GridRelatedData {
    /// The array has the grid's shape: a column of `row_number` records for
    /// each of the `column_number` columns.
    pub open spec fn fits(&self, grid: &Grid2D) -> bool {
        &&& self@.len() == grid.column_number
        &&& forall|x: int| 0 <= x < grid.column_number ==> (#[trigger] self@[x]).len() == grid.row_number
    }

    pub open spec fn at(&self, c: CellIndex2d) -> GridCellData {
        self@[c.x as int][c.y as int]
    }

    /// Same shape, and equal everywhere but possibly at `c`.
    pub open spec fn same_but(&self, other: &GridRelatedData, grid: &Grid2D, c: CellIndex2d) -> bool {
        &&& self.fits(grid)
        &&& other.fits(grid)
        &&& forall|d: CellIndex2d| grid.in_bounds(d) && d != c ==> #[trigger] self.at(d) == other.at(d)
    }

    /// Blank records for every cell of `grid`.
    pub fn new(grid: &Grid2D) -> (r: GridRelatedData)
        requires
            grid.wf(),
        ensures
            r.fits(grid),
            forall|c: CellIndex2d| grid.in_bounds(c) ==> #[trigger] r.at(c) == blank_cell(),
    {
        let data = new_cell_array(grid.column_number as usize, grid.row_number as usize, GridCellData::blank());
        GridRelatedData { data }
    }

    /// The record of a cell of the grid.
    pub fn get_data_at(&self, grid: &Grid2D, cell_index: &CellIndex2d) -> (r: GridCellData)
        requires
            self.fits(grid),
            grid.in_bounds(*cell_index),
        ensures
            r == self.at(*cell_index),
    {
        cell_array_get(&self.data, cell_index.x as usize, cell_index.y as usize)
    }

    /// Replaces the record of a cell of the grid.
    pub fn set_data_at(&mut self, grid: &Grid2D, cell_index: &CellIndex2d, cell: GridCellData)
        requires
            old(self).fits(grid),
            grid.in_bounds(*cell_index),
        ensures
            final(self).same_but(old(self), grid, *cell_index),
            final(self).at(*cell_index) == cell,
    {
        cell_array_set(&mut self.data, cell_index.x as usize, cell_index.y as usize, cell);
    }

    pub fn set_color_at(&mut self, grid: &Grid2D, cell_index: CellIndex2d, color: u32)
        requires
            old(self).fits(grid),
            grid.in_bounds(cell_index),
        ensures
            final(self).same_but(old(self), grid, cell_index),
            final(self).at(cell_index) == (GridCellData { color, ..old(self).at(cell_index) }),
    {
        let mut cell = self.get_data_at(grid, &cell_index);
        cell.color = color;
        self.set_data_at(grid, &cell_index, cell);
    }

    pub fn set_occupation_at(&mut self, grid: &Grid2D, cell_index: CellIndex2d, occupation: Occupation)
        requires
            old(self).fits(grid),
            grid.in_bounds(cell_index),
        ensures
            final(self).same_but(old(self), grid, cell_index),
            final(self).at(cell_index) == (GridCellData { occupation_state: occupation, ..old(self).at(cell_index) }),
    {
        let mut cell = self.get_data_at(grid, &cell_index);
        cell.occupation_state = occupation;
        self.set_data_at(grid, &cell_index, cell);
    }

    /// Sets the detraction factor of a cell, whatever it was.
    pub fn set_detraction_factor(&mut self, grid: &Grid2D, cell_index: &CellIndex2d, detraction_factor: u32)
        requires
            old(self).fits(grid),
            grid.in_bounds(*cell_index),
        ensures
            final(self).same_but(old(self), grid, *cell_index),
            final(self).at(*cell_index) == (GridCellData { detraction_factor, ..old(self).at(*cell_index) }),
    {
        let mut cell = self.get_data_at(grid, cell_index);
        cell.detraction_factor = detraction_factor;
        self.set_data_at(grid, cell_index, cell);
    }

    /// Raises the detraction factor of a cell to `detraction_factor` if that
    /// is larger; it never decreases.
    pub fn set_increased_detraction_factor(&mut self, grid: &Grid2D, cell_index: &CellIndex2d, detraction_factor: u32)
        requires
            old(self).fits(grid),
            grid.in_bounds(*cell_index),
        ensures
            final(self).same_but(old(self), grid, *cell_index),
            final(self).at(*cell_index) == (GridCellData {
                detraction_factor: if detraction_factor > old(self).at(*cell_index).detraction_factor {
                    detraction_factor
                } else {
                    old(self).at(*cell_index).detraction_factor
                },
                ..old(self).at(*cell_index)
            }),
    {
        let mut cell = self.get_data_at(grid, cell_index);
        if detraction_factor > cell.detraction_factor {
            cell.detraction_factor = detraction_factor;
        }
        self.set_data_at(grid, cell_index, cell);
    }
}

/// Width of the band along the grid's edges that a random obstacle pattern
/// leaves free.
pub const BORDER_RANGE: u32 = 5;

/// Share of inner cells drawn free, as a ratio.
pub const FREE_NUMERATOR: u32 = 3;
pub const FREE_DENOMINATOR: u32 = 4;

/// rand's thread-local generator, carried through opaque.
#[verifier::external_type_specification]
#[verifier::external_body]
pub struct ExThreadRng(ThreadRng);

/// Relies on rand's `thread_rng`: a handle to the thread's seeded generator.
#[verifier::external_body]
fn thread_rng() -> ThreadRng {
    rand::thread_rng()
}

/// Relies on rand's `Rng::gen_ratio`: `true` with probability
/// `numerator / denominator`; always `true` when they are equal, never when
/// `numerator` is 0. It panics on `denominator == 0` or
/// `numerator > denominator`.
#[verifier::external_body]
fn gen_ratio(rng: &mut ThreadRng, numerator: u32, denominator: u32) -> (r: bool)
    requires
        denominator > 0,
        numerator <= denominator,
    ensures
        numerator == denominator ==> r,
        numerator == 0 ==> !r,
{
    rng.gen_ratio(numerator, denominator)
}

/// The cell lies within `BORDER_RANGE` of an edge of a grid.
pub open spec fn in_border_band(c: CellIndex2d, grid: &Grid2D) -> bool {
    c.x < BORDER_RANGE || c.y < BORDER_RANGE || c.x + BORDER_RANGE >= grid.column_number
        || c.y + BORDER_RANGE >= grid.row_number
}

pub open spec fn pattern_cell(c: CellIndex2d, grid: &Grid2D, drawn_free: bool) -> GridCellData {
    GridCellData {
        color: WHITE,
        occupation_state: if in_border_band(c, grid) || drawn_free {
            Occupation::Free
        } else {
            Occupation::Occupied
        },
        detraction_factor: 0,
    }
}

/// `cell` is what a random obstacle pattern may give the cell `c`.
pub open spec fn is_pattern_cell(c: CellIndex2d, grid: &Grid2D, cell: GridCellData) -> bool {
    cell == pattern_cell(c, grid, true) || cell == pattern_cell(c, grid, false)
}

/// The record a random obstacle pattern gives a cell, for the draw
/// `drawn_free`: border cells are free whatever was drawn.
pub fn obstacle_pattern_cell(cell_index: CellIndex2d, grid: &Grid2D, drawn_free: bool) -> (r: GridCellData)
    ensures
        r == pattern_cell(cell_index, grid, drawn_free),
{
    let border = cell_index.x < BORDER_RANGE || cell_index.y < BORDER_RANGE || cell_index.x as u64
        + BORDER_RANGE as u64 >= grid.column_number as u64 || cell_index.y as u64 + BORDER_RANGE as u64
        >= grid.row_number as u64;
    let occupation_state = if border || drawn_free { Occupation::Free } else { Occupation::Occupied };
    GridCellData { color: WHITE, occupation_state, detraction_factor: 0 }
}

/// The cell of `area` that is `k`-th in row-major order.
pub open spec fn area_cell(area: IndexRect, k: int) -> CellIndex2d {
    CellIndex2d {
        x: (area.min.x + k % (area.max.x - area.min.x + 1)) as u32,
        y: (area.min.y + k / (area.max.x - area.min.x + 1)) as u32,
    }
}

/// Row-major position of the cell `c` within `area`; the inverse of `area_cell`.
pub open spec fn area_offset(area: IndexRect, c: CellIndex2d) -> int {
    (c.x - area.min.x) + (c.y - area.min.y) * (area.max.x - area.min.x + 1)
}

impl GridRelatedData {
    /// Some cell of `area` is occupied.
    pub open spec fn obstacle_in(&self, area: IndexRect) -> bool {
        exists|c: CellIndex2d| area.contains_spec(c) && (#[trigger] self.at(c)).occupation_state == Occupation::Occupied
    }

    /// Whether any cell of `area` is occupied.
    pub fn has_obstacle_in(&self, grid: &Grid2D, area: IndexRect) -> (r: bool)
        requires
            self.fits(grid),
            grid.wf(),
            grid.indexes_rect.covers(area),
        ensures
            r == self.obstacle_in(area),
    {
        if area.min.x > area.max.x || area.min.y > area.max.y {
            return false;
        }
        let mut y = area.min.y;
        while y <= area.max.y
            invariant
                self.fits(grid),
                grid.wf(),
                grid.indexes_rect.covers(area),
                area.is_proper(),
                area.min.y <= y <= area.max.y + 1,
                forall|c: CellIndex2d|
                    area.contains_spec(c) && c.y < y ==> (#[trigger] self.at(c)).occupation_state == Occupation::Free,
            decreases area.max.y + 1 - y,
        {
            let mut x = area.min.x;
            while x <= area.max.x
                invariant
                    self.fits(grid),
                    grid.wf(),
                    grid.indexes_rect.covers(area),
                    area.is_proper(),
                    area.min.y <= y <= area.max.y,
                    area.min.x <= x <= area.max.x + 1,
                    forall|c: CellIndex2d|
                        area.contains_spec(c) && (c.y < y || (c.y == y && c.x < x))
                            ==> (#[trigger] self.at(c)).occupation_state == Occupation::Free,
                decreases area.max.x + 1 - x,
            {
                let c = CellIndex2d::new(x, y);
                let cell = self.get_data_at(grid, &c);
                if cell.occupation_state == Occupation::Occupied {
                    return true;
                }
                x = x + 1;
            }
            y = y + 1;
        }
        false
    }

    /// Paints every cell of `area`.
    pub fn set_color_for_area(&mut self, grid: &Grid2D, area: IndexRect, color: u32)
        requires
            old(self).fits(grid),
            grid.wf(),
            grid.indexes_rect.covers(area),
        ensures
            final(self).fits(grid),
            forall|c: CellIndex2d| grid.in_bounds(c) ==> #[trigger] final(self).at(c) == if area.contains_spec(c) {
                GridCellData { color, ..old(self).at(c) }
            } else {
                old(self).at(c)
            },
    {
        if area.min.x > area.max.x || area.min.y > area.max.y {
            return;
        }
        let ghost start = *self;
        let mut y = area.min.y;
        while y <= area.max.y
            invariant
                self.fits(grid),
                start.fits(grid),
                grid.wf(),
                grid.indexes_rect.covers(area),
                area.is_proper(),
                area.min.y <= y <= area.max.y + 1,
                forall|c: CellIndex2d| grid.in_bounds(c) ==> #[trigger] self.at(c) == if area.contains_spec(c) && c.y < y {
                    GridCellData { color, ..start.at(c) }
                } else {
                    start.at(c)
                },
            decreases area.max.y + 1 - y,
        {
            let mut x = area.min.x;
            while x <= area.max.x
                invariant
                    self.fits(grid),
                    start.fits(grid),
                    grid.wf(),
                    grid.indexes_rect.covers(area),
                    area.is_proper(),
                    area.min.y <= y <= area.max.y,
                    area.min.x <= x <= area.max.x + 1,
                    forall|c: CellIndex2d| grid.in_bounds(c) ==> #[trigger] self.at(c) == if area.contains_spec(c) && (c.y
                        < y || (c.y == y && c.x < x)) {
                        GridCellData { color, ..start.at(c) }
                    } else {
                        start.at(c)
                    },
                decreases area.max.x + 1 - x,
            {
                let c = CellIndex2d::new(x, y);
                self.set_color_at(grid, c, color);
                x = x + 1;
            }
            y = y + 1;
        }
    }

    /// Replaces every record with a random obstacle pattern: cells within
    /// `BORDER_RANGE` of an edge are free, the others are free with
    /// probability `FREE_NUMERATOR / FREE_DENOMINATOR`; colours are reset and
    /// penalties cleared.
    pub fn fill_with_random_obstacle_pattern(&mut self, grid: &Grid2D)
        requires
            old(self).fits(grid),
            grid.wf(),
        ensures
            final(self).fits(grid),
            forall|c: CellIndex2d| grid.in_bounds(c) ==> is_pattern_cell(c, grid, #[trigger] final(self).at(c)),
    {
        let mut rng = thread_rng();
        let mut x: u32 = 0;
        while x < grid.column_number
            invariant
                self.fits(grid),
                grid.wf(),
                x <= grid.column_number,
                forall|c: CellIndex2d| grid.in_bounds(c) && c.x < x ==> is_pattern_cell(c, grid, #[trigger] self.at(c)),
            decreases grid.column_number - x,
        {
            let mut y: u32 = 0;
            while y < grid.row_number
                invariant
                    self.fits(grid),
                    grid.wf(),
                    x < grid.column_number,
                    y <= grid.row_number,
                    forall|c: CellIndex2d| grid.in_bounds(c) && (c.x < x || (c.x == x && c.y < y)) ==> is_pattern_cell(
                        c,
                        grid,
                        #[trigger] self.at(c),
                    ),
                decreases grid.row_number - y,
            {
                let c = CellIndex2d::new(x, y);
                let drawn_free = gen_ratio(&mut rng, FREE_NUMERATOR, FREE_DENOMINATOR);
                let cell = obstacle_pattern_cell(c, grid, drawn_free);
                self.set_data_at(grid, &c, cell);
                y = y + 1;
            }
            x = x + 1;
        }
    }

    /// Writes a window: the cell of `area` at row-major position `k` (the
    /// order `get_segment_view_of` reads in) gets `records[k]`; cells outside
    /// `area` keep their records.
    pub fn set_segment_of(&mut self, grid: &Grid2D, area: IndexRect, records: &Vec<GridCellData>)
        requires
            old(self).fits(grid),
            grid.wf(),
            area.is_proper(),
            grid.indexes_rect.covers(area),
            records@.len() == (area.max.x - area.min.x + 1) * (area.max.y - area.min.y + 1),
        ensures
            final(self).fits(grid),
            forall|c: CellIndex2d| grid.in_bounds(c) ==> #[trigger] final(self).at(c) == if area.contains_spec(c) {
                records@[area_offset(area, c)]
            } else {
                old(self).at(c)
            },
    {
        let ghost start = *self;
        let w = area.max.x - area.min.x + 1;
        let total = records.len();
        let mut k: usize = 0;
        let mut y = area.min.y;
        while y <= area.max.y
            invariant
                self.fits(grid),
                start.fits(grid),
                grid.wf(),
                area.is_proper(),
                grid.indexes_rect.covers(area),
                w == area.max.x - area.min.x + 1,
                records@.len() == w * (area.max.y - area.min.y + 1),
                total == records@.len(),
                area.min.y <= y <= area.max.y + 1,
                k == w * (y - area.min.y),
                forall|c: CellIndex2d| grid.in_bounds(c) ==> #[trigger] self.at(c) == if area.contains_spec(c) && c.y < y {
                    records@[area_offset(area, c)]
                } else {
                    start.at(c)
                },
            decreases area.max.y + 1 - y,
        {
            let mut x = area.min.x;
            while x <= area.max.x
                invariant
                    self.fits(grid),
                    start.fits(grid),
                    grid.wf(),
                    area.is_proper(),
                    grid.indexes_rect.covers(area),
                    w == area.max.x - area.min.x + 1,
                    records@.len() == w * (area.max.y - area.min.y + 1),
                    area.min.y <= y <= area.max.y,
                    area.min.x <= x <= area.max.x + 1,
                    total == records@.len(),
                    k == w * (y - area.min.y) + (x - area.min.x),
                    forall|c: CellIndex2d| grid.in_bounds(c) ==> #[trigger] self.at(c) == if area.contains_spec(c) && (c.y
                        < y || (c.y == y && c.x < x)) {
                        records@[area_offset(area, c)]
                    } else {
                        start.at(c)
                    },
                decreases area.max.x + 1 - x,
            {
                let c = CellIndex2d::new(x, y);
                proof {
                    assert(k < records@.len()) by (nonlinear_arith)
                        requires
                            k == w * (y - area.min.y) + (x - area.min.x),
                            x <= area.max.x,
                            y <= area.max.y,
                            w == area.max.x - area.min.x + 1,
                            area.min.y <= y,
                            area.min.x <= x,
                            records@.len() == w * (area.max.y - area.min.y + 1),
                    ;
                    vstd::arithmetic::mul::lemma_mul_is_commutative(w as int, (y - area.min.y) as int);
                    assert(area_offset(area, c) == k);
                }
                self.set_data_at(grid, &c, records[k]);
                k = k + 1;
                x = x + 1;
            }
            proof {
                assert(w * (y - area.min.y) + w == w * (y + 1 - area.min.y)) by (nonlinear_arith);
            }
            y = y + 1;
        }
    }

    /// A copy of the records of `area`, row by row from `area.min`.
    pub fn get_segment_view_of(&self, grid: &Grid2D, area: IndexRect) -> (r: Vec<GridCellData>)
        requires
            self.fits(grid),
            grid.wf(),
            area.is_proper(),
            grid.indexes_rect.covers(area),
        ensures
            r@.len() == (area.max.x - area.min.x + 1) * (area.max.y - area.min.y + 1),
            forall|k: int| 0 <= k < r@.len() ==> #[trigger] r@[k] == self.at(area_cell(area, k)),
    {
        let w = area.max.x - area.min.x + 1;
        let mut r: Vec<GridCellData> = Vec::new();
        let mut y = area.min.y;
        while y <= area.max.y
            invariant
                self.fits(grid),
                grid.wf(),
                area.is_proper(),
                grid.indexes_rect.covers(area),
                w == area.max.x - area.min.x + 1,
                area.min.y <= y <= area.max.y + 1,
                r@.len() == w * (y - area.min.y),
                forall|k: int| 0 <= k < r@.len() ==> #[trigger] r@[k] == self.at(area_cell(area, k)),
            decreases area.max.y + 1 - y,
        {
            let mut x = area.min.x;
            while x <= area.max.x
                invariant
                    self.fits(grid),
                    grid.wf(),
                    area.is_proper(),
                    grid.indexes_rect.covers(area),
                    w == area.max.x - area.min.x + 1,
                    area.min.y <= y <= area.max.y,
                    area.min.x <= x <= area.max.x + 1,
                    r@.len() == w * (y - area.min.y) + (x - area.min.x),
                    forall|k: int| 0 <= k < r@.len() ==> #[trigger] r@[k] == self.at(area_cell(area, k)),
                decreases area.max.x + 1 - x,
            {
                let c = CellIndex2d::new(x, y);
                let cell = self.get_data_at(grid, &c);
                proof {
                    let k = r@.len() as int;
                    let (q, rem) = ((y - area.min.y) as int, (x - area.min.x) as int);
                    vstd::arithmetic::mul::lemma_mul_is_commutative(w as int, q);
                    vstd::arithmetic::div_mod::lemma_fundamental_div_mod_converse(k, w as int, q, rem);
                    assert(area_cell(area, k) == c);
                }
                r.push(cell);
                x = x + 1;
            }
            proof {
                assert(w * (y - area.min.y) + w == w * (y + 1 - area.min.y)) by (nonlinear_arith);
            }
            y = y + 1;
        }
        r
    }
}

impl GridRelatedData {
    /// The detraction factor a cell has after the influence of an obstacle at
    /// `obstacle` spread over `area`.
    pub open spec fn influenced_cell(&self, grid: &Grid2D, obstacle: CellIndex2d, area: IndexRect, c: CellIndex2d) -> GridCellData {
        let old_cell = self.at(c);
        let pushed = if chebyshev(obstacle, c) == 0 {
            0
        } else {
            DETRACTION_UNIT as nat / chebyshev(obstacle, c)
        };
        if self.at(obstacle).occupation_state == Occupation::Occupied && area.contains_spec(c) && pushed
            > old_cell.detraction_factor {
            GridCellData { detraction_factor: pushed as u32, ..old_cell }
        } else {
            old_cell
        }
    }

    /// Spreads the influence of the obstacle at `obstacle`, when that cell is
    /// occupied, over the `influence_area`-sized square around it (cut to the
    /// grid): each cell's detraction factor rises to the inverse Chebyshev
    /// falloff from the obstacle if that is larger.
    pub fn apply_obstacle_influence(&mut self, grid: &Grid2D, obstacle: CellIndex2d, influence_area: CellIndex2d)
        requires
            old(self).fits(grid),
            grid.wf(),
            grid.in_bounds(obstacle),
        ensures
            final(self).fits(grid),
            forall|c: CellIndex2d|
                grid.in_bounds(c) ==> #[trigger] final(self).at(c) == old(self).influenced_cell(
                    grid,
                    obstacle,
                    grid.calculate_area_clamped_from_center_spec(obstacle, influence_area),
                    c,
                ),
    {
        let area = grid.calculate_area_clamped_from_center(&obstacle, influence_area);
        let ghost start = *self;
        if self.get_data_at(grid, &obstacle).occupation_state != Occupation::Occupied {
            return;
        }
        let mut y = area.min.y;
        while y <= area.max.y
            invariant
                self.fits(grid),
                start.fits(grid),
                grid.wf(),
                grid.in_bounds(obstacle),
                start.at(obstacle).occupation_state == Occupation::Occupied,
                grid.indexes_rect.covers(area),
                area.is_proper(),
                area.min.y <= y <= area.max.y + 1,
                forall|c: CellIndex2d| grid.in_bounds(c) ==> #[trigger] self.at(c) == if c.y < y {
                    start.influenced_cell(grid, obstacle, area, c)
                } else {
                    start.at(c)
                },
            decreases area.max.y + 1 - y,
        {
            let mut x = area.min.x;
            while x <= area.max.x
                invariant
                    self.fits(grid),
                    start.fits(grid),
                    grid.wf(),
                    grid.in_bounds(obstacle),
                    start.at(obstacle).occupation_state == Occupation::Occupied,
                    grid.indexes_rect.covers(area),
                    area.is_proper(),
                    area.min.y <= y <= area.max.y,
                    area.min.x <= x <= area.max.x + 1,
                    forall|c: CellIndex2d| grid.in_bounds(c) ==> #[trigger] self.at(c) == if c.y < y || (c.y == y && c.x
                        < x && area.min.x <= c.x) {
                        start.influenced_cell(grid, obstacle, area, c)
                    } else {
                        start.at(c)
                    },
                decreases area.max.x + 1 - x,
            {
                let c = CellIndex2d::new(x, y);
                let factor = obstacle.inverse_chebyshev_distance(&c);
                self.set_increased_detraction_factor(grid, &c, factor);
                x = x + 1;
            }
            y = y + 1;
        }
    }
}

} // verus!
