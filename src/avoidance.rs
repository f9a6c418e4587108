use vstd::prelude::*;

use crate::geometry::{CellIndex2d, Direction};
use crate::grid::Grid2D;
use crate::grid_data::GridRelatedData;
use crate::pathfinding::{Pathfinder, PathfindingMap};

verus! {

/// Side of the square window searched for a detour.
pub const PATHFINDING_RECT_SIDE: u32 = 8;

/// How many cells ahead of a mover are checked for obstacles.
pub const CELLS_IN_FRONT: u32 = 2;

/// What a mover does after one avoidance check.
pub enum AvoidanceOutcome {
    /// Nothing blocks the cells ahead: keep following the flow field.
    Clear,
    /// Blocked, but the window holds no obstacle-then-free pair ahead: keep
    /// following the flow field.
    NoDetour,
    /// Blocked, and the detour found is the one already being taken.
    SameDetour,
    /// Blocked; a new detour (window frame) was chosen but no path inside
    /// the window reaches its end.
    NoPath(Pathfinder),
    /// Blocked; a new detour (window frame) and its path in grid cells.
    Detour(Pathfinder, Vec<CellIndex2d>),
}

/// The outcome of planning a detour in `map` for a mover at `from` (parent
/// frame) heading along `d`, whose previous detour was `last`.
pub open spec fn detour_result(
    map: &PathfindingMap,
    from: CellIndex2d,
    d: Direction,
    last: Pathfinder,
    r: AvoidanceOutcome,
) -> bool {
    let s = map.grid_segment.to_local(from);
    match r {
        AvoidanceOutcome::Clear => false,
        AvoidanceOutcome::NoDetour => map.destination_result(s, d, None),
        AvoidanceOutcome::SameDetour => map.destination_result(s, d, Some(last)),
        AvoidanceOutcome::NoPath(p) => p != last && map.destination_result(s, d, Some(p)) && !map.reachable(
            p.start,
            p.end,
        ),
        AvoidanceOutcome::Detour(p, g) => p != last && map.destination_result(s, d, Some(p))
            && map.global_path_result(p, true, Some(g)),
    }
}

/// Plans a detour inside `map` for a mover at `from` (parent frame) heading
/// along `direction`: the nearest obstacle ahead, the first free cell
/// beyond it, and a path between them weighted by detraction. A detour equal
/// to `last_destination` is not planned again.
pub fn plan_detour(map: &PathfindingMap, from: CellIndex2d, direction: Direction, last_destination: Pathfinder) -> (r:
    AvoidanceOutcome)
    requires
        map.wf(),
        map.grid_segment.localizable(from),
        map.has(map.grid_segment.to_local(from).x as int, map.grid_segment.to_local(from).y as int),
    ensures
        detour_result(map, from, direction, last_destination, r),
{
    match map.find_destination_in_direction(from, direction) {
        None => AvoidanceOutcome::NoDetour,
        Some(destination) => {
            if destination == last_destination {
                AvoidanceOutcome::SameDetour
            } else {
                match map.calculate_weighted_path_coordinates_global(destination) {
                    None => AvoidanceOutcome::NoPath(destination),
                    Some(path) => AvoidanceOutcome::Detour(destination, path),
                }
            }
        },
    }
}

/// One avoidance check for a mover at `cell` heading along `direction`:
/// when an obstacle lies in the `CELLS_IN_FRONT` cells ahead, a detour is
/// planned in the `PATHFINDING_RECT_SIDE` square around the mover.
pub fn avoidance_step(
    grid: &Grid2D,
    data: &GridRelatedData,
    cell: CellIndex2d,
    direction: Direction,
    last_destination: Pathfinder,
) -> (r: AvoidanceOutcome)
    requires
        grid.wf(),
        data.fits(grid),
        grid.in_bounds(cell),
    ensures
        ({
            let ahead = grid.line_infront_spec(cell, direction, CELLS_IN_FRONT);
            let area = grid.calculate_area_clamped_from_center_spec(
                cell,
                CellIndex2d { x: PATHFINDING_RECT_SIDE, y: PATHFINDING_RECT_SIDE },
            );
            &&& (r is Clear <==> !data.obstacle_in(ahead))
            &&& !(r is Clear) ==> exists|map: PathfindingMap|
                {
                    &&& map.wf()
                    &&& map.area == area
                    &&& map.grid_segment.parent_grid == grid.indexes_rect
                    &&& forall|l: CellIndex2d|
                        map.has(l.x as int, l.y as int) ==> #[trigger] map.record(l.x as int, l.y as int) == data.at(
                            map.grid_segment.to_global(l),
                        )
                    &&& detour_result(&map, cell, direction, last_destination, r)
                }
        }),
{
    let ahead = grid.calculate_line_infront_from(cell, direction, CELLS_IN_FRONT);
    if !data.has_obstacle_in(grid, ahead) {
        return AvoidanceOutcome::Clear;
    }
    let size = CellIndex2d::new(PATHFINDING_RECT_SIDE, PATHFINDING_RECT_SIDE);
    let area = grid.calculate_square_area_wrapped_from(cell, size);
    let map = data.create_pathfinding_map_on(grid, area);
    proof {
        assert(area.contains_spec(cell));
    }
    let r = plan_detour(&map, cell, direction, last_destination);
    assert(!(r is Clear));
    r
}

} // verus!
