use vstd::prelude::*;

use crate::geometry::CellIndex2d;
use crate::grid_data::{GridCellData, Occupation};
use crate::pathfinding::Pathfinder;

verus! {

/// How a cell shows in a view of a detour: its ends, the path between them,
/// obstacles, penalised cells and empty cells, in that order of precedence.
#[derive(Clone, Copy, Debug, PartialEq, Eq, Structural)]
pub enum CellClass {
    Start,
    End,
    Path,
    Obstacle,
    Penalized,
    Empty,
}

pub open spec fn cell_class(cell: CellIndex2d, key_points: Pathfinder, record: GridCellData, path: Seq<CellIndex2d>) -> CellClass {
    if cell == key_points.start {
        CellClass::Start
    } else if cell == key_points.end {
        CellClass::End
    } else if path.contains(cell) {
        CellClass::Path
    } else if record.occupation_state == Occupation::Occupied {
        CellClass::Obstacle
    } else if record.detraction_factor > 0 {
        CellClass::Penalized
    } else {
        CellClass::Empty
    }
}

/// The class of `cell`, whose record is `record`, in a view of the detour
/// `key_points` along `path`.
pub fn determine_cell_type(
    cell: CellIndex2d,
    key_points: &Pathfinder,
    record: &GridCellData,
    path: &Vec<CellIndex2d>,
) -> (r: CellClass)
    ensures
        r == cell_class(cell, *key_points, *record, path@),
{
    if cell == key_points.start {
        return CellClass::Start;
    }
    if cell == key_points.end {
        return CellClass::End;
    }
    let mut i: usize = 0;
    while i < path.len()
        invariant
            i <= path@.len(),
            cell != key_points.start,
            cell != key_points.end,
            forall|j: int| 0 <= j < i ==> path@[j] != cell,
        decreases path@.len() - i,
    {
        if path[i] == cell {
            assert(path@.contains(cell)) by {
                assert(path@[i as int] == cell);
            }
            return CellClass::Path;
        }
        i = i + 1;
    }
    if record.occupation_state == Occupation::Occupied {
        CellClass::Obstacle
    } else if record.detraction_factor > 0 {
        CellClass::Penalized
    } else {
        CellClass::Empty
    }
}

} // verus!
