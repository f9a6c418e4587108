use vstd::prelude::*;

use crate::geometry::{direction_vector, shifted, CellIndex2d, Direction, IndexRect};
use crate::grid::{calculate_2d_index, rect, unflat_index, Grid2D};

verus! {

/// The frame a cell index is expressed in.
#[derive(Clone, Copy, Debug, PartialEq, Eq, Structural)]
pub enum CoordinateType {
    /// Relative to the window's own origin.
    Normalized,
    /// In the window's frame, tested against the window's extent.
    Local,
    /// In the frame of the parent grid.
    Global,
}

/// A rectangular window (`child_grid`) of a parent rectangle, with exact
/// transforms between the parent's frame and the window's own frame.
#[derive(Clone, Copy, Debug)]
pub struct GridSegment {
    pub parent_grid: IndexRect,
    pub child_grid: IndexRect,
    /// `child_grid.min - parent_grid.min`.
    pub offset: CellIndex2d,
    /// The window re-origined to (0, 0).
    pub bounds: IndexRect,
}

impl GridSegment {
    pub open spec fn wf(&self) -> bool {
        &&& self.child_grid.is_proper()
        &&& self.parent_grid.covers(self.child_grid)
        &&& self.offset.x == self.child_grid.min.x - self.parent_grid.min.x
        &&& self.offset.y == self.child_grid.min.y - self.parent_grid.min.y
        &&& self.bounds == rect(
            0,
            0,
            self.child_grid.max.x - self.child_grid.min.x,
            self.child_grid.max.y - self.child_grid.min.y,
        )
    }

    /// `g` expressed in the window's frame.
    pub open spec fn to_local(&self, g: CellIndex2d) -> CellIndex2d {
        CellIndex2d { x: (g.x - self.offset.x) as u32, y: (g.y - self.offset.y) as u32 }
    }

    /// `l` expressed in the parent's frame.
    pub open spec fn to_global(&self, l: CellIndex2d) -> CellIndex2d {
        CellIndex2d { x: (l.x + self.offset.x) as u32, y: (l.y + self.offset.y) as u32 }
    }

    /// `g` can be expressed in the window's frame.
    pub open spec fn localizable(&self, g: CellIndex2d) -> bool {
        g.x >= self.offset.x && g.y >= self.offset.y
    }

    /// `l` can be expressed in the parent's frame.
    pub open spec fn globalizable(&self, l: CellIndex2d) -> bool {
        l.x + self.offset.x <= u32::MAX && l.y + self.offset.y <= u32::MAX
    }

    /// The window `child` of `parent`.
    pub fn new(parent: IndexRect, child: IndexRect) -> (r: GridSegment)
        requires
            child.is_proper(),
            parent.covers(child),
        ensures
            r.wf(),
            r.parent_grid == parent,
            r.child_grid == child,
    {
        let offset = CellIndex2d::new(child.min.x - parent.min.x, child.min.y - parent.min.y);
        let bounds = IndexRect::new(0, 0, child.max.x - child.min.x, child.max.y - child.min.y);
        GridSegment { parent_grid: parent, child_grid: child, offset, bounds }
    }

    pub fn get_offset(&self) -> (r: CellIndex2d)
        ensures
            r == self.offset,
    {
        self.offset
    }

    /// Transform from the parent's frame to the window's frame.
    pub fn global_to_local_index(&self, global_index: CellIndex2d) -> (r: CellIndex2d)
        requires
            self.localizable(global_index),
        ensures
            r == self.to_local(global_index),
    {
        CellIndex2d::new(global_index.x - self.offset.x, global_index.y - self.offset.y)
    }

    /// Transform from the window's frame to the parent's frame.
    pub fn local_to_global_index(&self, local_index: CellIndex2d) -> (r: CellIndex2d)
        requires
            self.globalizable(local_index),
        ensures
            r == self.to_global(local_index),
    {
        CellIndex2d::new(local_index.x + self.offset.x, local_index.y + self.offset.y)
    }

    /// The cell of the window at row-major position `index`.
    pub fn convert_1d_to_2d(&self, index: u32) -> (r: CellIndex2d)
        requires
            self.wf(),
            self.bounds.max.x < u32::MAX,
        ensures
            r == unflat_index(index as int, self.bounds.max.x + 1),
    {
        calculate_2d_index(index, self.bounds.max.x + 1)
    }

    /// The rectangle, in the window's frame, covered by `length` cells from
    /// `start_cell` (parent frame) in `direction`.
    pub fn calculate_line_of_cells_in_direction(
        &self,
        start_cell: CellIndex2d,
        direction: Direction,
        length: u32,
    ) -> (r: IndexRect)
        requires
            length >= 1,
            self.localizable(start_cell),
            ({
                let l = self.to_local(start_cell);
                let (dx, dy) = direction_vector(direction);
                crate::geometry::shifted_fits(l, dx * (length - 1), dy * (length - 1))
            }),
        ensures
            ({
                let l = self.to_local(start_cell);
                let (dx, dy) = direction_vector(direction);
                r == IndexRect::from_corners_spec(l, shifted(l, dx * (length - 1), dy * (length - 1)))
            }),
    {
        let start = self.global_to_local_index(start_cell);
        let v = direction.as_vector();
        let n = (length - 1) as i64;
        let ex = start.x as i64 + if v.x > 0 { n } else if v.x < 0 { -n } else { 0 };
        let ey = start.y as i64 + if v.y > 0 { n } else if v.y < 0 { -n } else { 0 };
        proof {
            let (dx, dy) = direction_vector(direction);
            assert(dx == v.x && dy == v.y);
            assert(ex == start.x + dx * (length - 1)) by (nonlinear_arith)
                requires
                    -1 <= dx <= 1,
                    ex == start.x + if dx > 0 { n as int } else if dx < 0 { -n } else { 0 },
                    n == length - 1,
            ;
            assert(ey == start.y + dy * (length - 1)) by (nonlinear_arith)
                requires
                    -1 <= dy <= 1,
                    ey == start.y + if dy > 0 { n as int } else if dy < 0 { -n } else { 0 },
                    n == length - 1,
            ;
        }
        IndexRect::from_corners(start, CellIndex2d::new(ex as u32, ey as u32))
    }

    /// A cell in the parent's frame that lies in the parent rectangle.
    #[inline]
    pub fn contains_global(&self, index: CellIndex2d) -> (r: bool)
        ensures
            r == self.parent_grid.contains_spec(index),
    {
        self.parent_grid.contains(index)
    }

    /// A cell in the window's frame that lies within the window's extent,
    /// 0 to `child_grid.max - child_grid.min` on each axis.
    #[inline]
    pub fn contains_local(&self, index: CellIndex2d) -> (r: bool)
        requires
            self.wf(),
        ensures
            r == (index.x <= self.child_grid.max.x - self.child_grid.min.x && index.y <= self.child_grid.max.y
                - self.child_grid.min.y),
    {
        index.x <= self.child_grid.max.x - self.child_grid.min.x && index.y <= self.child_grid.max.y
            - self.child_grid.min.y
    }

    /// A cell in the window's own frame that lies in the window.
    #[inline]
    pub fn contains_normalized(&self, index: CellIndex2d) -> (r: bool)
        ensures
            r == self.bounds.contains_spec(index),
    {
        self.bounds.contains(index)
    }

    /// Containment of `index`, read in the frame `coordinate_type`.
    pub fn contains(&self, index: CellIndex2d, coordinate_type: CoordinateType) -> (r: bool)
        requires
            self.wf(),
        ensures
            r == match coordinate_type {
                CoordinateType::Global => self.parent_grid.contains_spec(index),
                CoordinateType::Local => index.x <= self.child_grid.max.x - self.child_grid.min.x && index.y
                    <= self.child_grid.max.y - self.child_grid.min.y,
                CoordinateType::Normalized => self.bounds.contains_spec(index),
            },
    {
        match coordinate_type {
            CoordinateType::Global => self.contains_global(index),
            CoordinateType::Local => self.contains_local(index),
            CoordinateType::Normalized => self.contains_normalized(index),
        }
    }
}

impl Grid2D {
    /// The window `area` of this grid.
    pub fn form_segment_for(&self, area: IndexRect) -> (r: GridSegment)
        requires
            self.wf(),
            area.is_proper(),
            self.indexes_rect.covers(area),
        ensures
            r.wf(),
            r.parent_grid == self.indexes_rect,
            r.child_grid == area,
    {
        GridSegment::new(self.indexes_rect, area)
    }
}

impl Grid2D {
    /// The window of the `num_cells` cells from `origin` along `in_direction`.
    pub fn form_segment_from(&self, origin: CellIndex2d, in_direction: Direction, num_cells: u32) -> (r: GridSegment)
        requires
            self.wf(),
            num_cells >= 1,
            self.in_bounds(origin),
            ({
                let (dx, dy) = direction_vector(in_direction);
                0 <= origin.x + dx * (num_cells - 1) <= self.max_column_index && 0 <= origin.y + dy * (num_cells
                    - 1) <= self.max_row_index
            }),
        ensures
            r.wf(),
            r.parent_grid == self.indexes_rect,
            ({
                let (dx, dy) = direction_vector(in_direction);
                r.child_grid == IndexRect::from_corners_spec(
                    origin,
                    shifted(origin, dx * (num_cells - 1), dy * (num_cells - 1)),
                )
            }),
    {
        let end = self.calculate_cell_index_in_direction_from(origin, in_direction, num_cells - 1);
        let child = IndexRect::from_corners(origin, end);
        GridSegment::new(self.indexes_rect, child)
    }
}

/// The two frames are exact inverses: a window cell taken to the parent's
/// frame and back is unchanged, and so is a parent cell taken to the window's
/// frame and back. For a parent rectangle at the origin, the cells of the
/// window are exactly those whose window-frame index lies in `bounds`.
pub proof fn lemma_frame_round_trip(seg: GridSegment, l: CellIndex2d, g: CellIndex2d)
    requires
        seg.wf(),
    ensures
        seg.globalizable(l) ==> seg.localizable(seg.to_global(l)) && seg.to_local(seg.to_global(l)) == l,
        seg.localizable(g) ==> seg.globalizable(seg.to_local(g)) && seg.to_global(seg.to_local(g)) == g,
        seg.parent_grid.min == (CellIndex2d { x: 0, y: 0 }) ==> (seg.child_grid.contains_spec(g) <==> (
        seg.localizable(g) && seg.bounds.contains_spec(seg.to_local(g)))),
        seg.parent_grid.min == (CellIndex2d { x: 0, y: 0 }) && seg.bounds.contains_spec(l) ==> (
        seg.globalizable(l) && seg.child_grid.contains_spec(seg.to_global(l))),
{
}

} // verus!
