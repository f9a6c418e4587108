use vstd::prelude::*;

use pathfinding::prelude::astar;

use crate::geometry::{direction_vector, manhattan, CellIndex2d, Direction, IndexRect, DETRACTION_UNIT};
use crate::grid::Grid2D;
use crate::grid_data::{area_cell, GridCellData, GridRelatedData, Occupation};
use crate::segment::GridSegment;

verus! {

/// Start and end of a detour, both in the window's frame unless stated.
#[derive(Clone, Copy, Debug, PartialEq, Eq, Structural)]
pub struct Pathfinder {
    pub start: CellIndex2d,
    pub end: CellIndex2d,
}

impl Pathfinder {
    pub fn new(start: CellIndex2d, end: CellIndex2d) -> (r: Pathfinder)
        ensures
            r.start == start,
            r.end == end,
    {
        Pathfinder { start, end }
    }

    /// Whether `cell` is the end of the detour.
    pub fn is_end(&self, cell: &CellIndex2d) -> (r: bool)
        ensures
            r == (*cell == self.end),
    {
        cell.x == self.end.x && cell.y == self.end.y
    }
}

/// A query window: the window's geometry and a copy of its records, kept in
/// the window's frame, row by row.
pub struct PathfindingMap {
    pub grid_segment: GridSegment,
    pub cells: Vec<GridCellData>,
    pub area: IndexRect,
    pub area_normalized: IndexRect,
}

/// Cell `k` steps from `(x, y)` along `d`, as integers.
pub open spec fn ray(x: int, y: int, d: Direction, k: int) -> (int, int) {
    (x + k * direction_vector(d).0, y + k * direction_vector(d).1)
}

impl PathfindingMap {
    pub open spec fn width(&self) -> int {
        self.area_normalized.max.x + 1
    }

    pub open spec fn height(&self) -> int {
        self.area_normalized.max.y + 1
    }

    pub open spec fn wf(&self) -> bool {
        &&& self.grid_segment.wf()
        &&& self.area == self.grid_segment.child_grid
        &&& self.area_normalized == self.grid_segment.bounds
        &&& self.cells@.len() == self.width() * self.height()
        &&& self.width() * self.height() <= u32::MAX + 1
    }

    /// `(x, y)` lies in the window, in the window's frame.
    pub open spec fn has(&self, x: int, y: int) -> bool {
        0 <= x <= self.area_normalized.max.x && 0 <= y <= self.area_normalized.max.y
    }

    /// The record of the window cell `(x, y)`.
    pub open spec fn record(&self, x: int, y: int) -> GridCellData {
        self.cells@[x + y * self.width()]
    }

    pub open spec fn occupation(&self, x: int, y: int) -> Occupation {
        self.record(x, y).occupation_state
    }

    /// The `j`-th cell of the ray from `(x, y)` along `d` is in the window and
    /// its occupancy is not `occ`.
    pub open spec fn passes_at(&self, x: int, y: int, d: Direction, occ: Occupation, j: int) -> bool {
        self.has(ray(x, y, d, j).0, ray(x, y, d, j).1) && self.occupation(ray(x, y, d, j).0, ray(x, y, d, j).1) != occ
    }

    /// Scanning from `(x, y)` along `d`, the `k`-th cell is the first whose
    /// occupancy is `occ`, all earlier cells lying in the window.
    pub open spec fn first_match_at(&self, x: int, y: int, d: Direction, occ: Occupation, k: int) -> bool {
        &&& k >= 0
        &&& self.has(ray(x, y, d, k).0, ray(x, y, d, k).1)
        &&& self.occupation(ray(x, y, d, k).0, ray(x, y, d, k).1) == occ
        &&& forall|j: int| 0 <= j < k ==> #[trigger] self.passes_at(x, y, d, occ, j)
    }

    /// The `k`-th cell of the ray from `(x, y)` along `d`, if in the window,
    /// does not have occupancy `occ`.
    pub open spec fn misses_at(&self, x: int, y: int, d: Direction, occ: Occupation, k: int) -> bool {
        k >= 0 && self.has(ray(x, y, d, k).0, ray(x, y, d, k).1) ==> self.occupation(ray(x, y, d, k).0, ray(x, y, d, k).1)
            != occ
    }

    /// No cell of the window on the ray from `(x, y)` along `d` has occupancy `occ`.
    pub open spec fn no_match(&self, x: int, y: int, d: Direction, occ: Occupation) -> bool {
        forall|k: int| #[trigger] self.misses_at(x, y, d, occ, k)
    }

    /// What a scan from `from` along `d` for `occ` returns.
    pub open spec fn scan_result(&self, from: CellIndex2d, d: Direction, occ: Occupation, r: Option<CellIndex2d>) -> bool {
        match r {
            Some(c) => exists|k: int|
                #[trigger] self.first_match_at(from.x as int, from.y as int, d, occ, k) && c.x == ray(
                    from.x as int,
                    from.y as int,
                    d,
                    k,
                ).0 && c.y == ray(from.x as int, from.y as int, d, k).1,
            None => self.no_match(from.x as int, from.y as int, d, occ),
        }
    }

    /// Whether the window-frame cell lies in the window.
    pub fn is_valid_index(&self, cell_index2d: &CellIndex2d) -> (r: bool)
        requires
            self.wf(),
        ensures
            r == self.has(cell_index2d.x as int, cell_index2d.y as int),
    {
        self.area_normalized.contains(*cell_index2d)
    }

    /// The record of a window-frame cell.
    pub fn cell_at(&self, cell_index2d: &CellIndex2d) -> (r: GridCellData)
        requires
            self.wf(),
            self.has(cell_index2d.x as int, cell_index2d.y as int),
        ensures
            r == self.record(cell_index2d.x as int, cell_index2d.y as int),
    {
        self.record_at(cell_index2d.x as i64, cell_index2d.y as i64)
    }

    fn record_at(&self, x: i64, y: i64) -> (r: GridCellData)
        requires
            self.wf(),
            self.has(x as int, y as int),
        ensures
            r == self.record(x as int, y as int),
    {
        let w = self.area_normalized.max.x as u64 + 1;
        proof {
            assert(x + y * w < self.width() * self.height()) by (nonlinear_arith)
                requires
                    0 <= x < w,
                    0 <= y < self.height(),
                    w == self.width(),
            ;
            assert(y * w >= 0) by (nonlinear_arith)
                requires
                    y >= 0,
                    w >= 0,
            ;
        }
        self.cells[(x as u64 + y as u64 * w) as usize]
    }

    /// Walks from the window cell `from_local_index` along `direction` and
    /// returns the first cell, `from_local_index` included, whose occupancy is
    /// `occupation_state`; `None` when the walk leaves the window first.
    pub fn find_closest_cell_in_direction_local(
        &self,
        from_local_index: CellIndex2d,
        direction: Direction,
        occupation_state: Occupation,
    ) -> (r: Option<CellIndex2d>)
        requires
            self.wf(),
            self.has(from_local_index.x as int, from_local_index.y as int),
        ensures
            self.scan_result(from_local_index, direction, occupation_state, r),
    {
        let v = direction.as_vector();
        let ghost (fx, fy) = (from_local_index.x as int, from_local_index.y as int);
        let mut x = from_local_index.x as i64;
        let mut y = from_local_index.y as i64;
        let mut k: i64 = 0;
        while self.area_normalized.contains_i64(x, y)
            invariant
                self.wf(),
                (v.x as int, v.y as int) == direction_vector(direction),
                -1 <= v.x <= 1,
                -1 <= v.y <= 1,
                0 <= k <= 0x1_0000_0000,
                (x as int, y as int) == ray(fx, fy, direction, k as int),
                self.has(fx, fy),
                fx == from_local_index.x,
                fy == from_local_index.y,
                0 <= x <= u32::MAX,
                0 <= y <= u32::MAX,
                forall|j: int| 0 <= j < k ==> #[trigger] self.passes_at(fx, fy, direction, occupation_state, j),
            decreases 0x1_0000_0000 - k,
        {
            assert(self.area_normalized.min == CellIndex2d { x: 0, y: 0 });
            assert(ray(fx, fy, direction, k as int).0 == x && ray(fx, fy, direction, k as int).1 == y);
            assert(self.has(x as int, y as int));
            let cell = self.record_at(x, y);
            if cell.occupation_state == occupation_state {
                proof {
                    assert(self.first_match_at(fx, fy, direction, occupation_state, k as int));
                }
                let c = CellIndex2d::new(x as u32, y as u32);
                assert(c.x == ray(fx, fy, direction, k as int).0 && c.y == ray(fx, fy, direction, k as int).1);
                return Some(c);
            }
            proof {
                lemma_ray_step(fx, fy, direction, k as int);
            }
            if x + (v.x as i64) < 0 || y + (v.y as i64) < 0 || x + (v.x as i64) > u32::MAX as i64 || y + (v.y as i64)
                > u32::MAX as i64 {
                proof {
                    assert(!self.has(ray(fx, fy, direction, k + 1).0, ray(fx, fy, direction, k + 1).1));
                    assert forall|j: int| #[trigger] self.misses_at(fx, fy, direction, occupation_state, j) by {
                        if j > k {
                            lemma_ray_leaves(self, fx, fy, direction, k as int + 1, j);
                        } else if j >= 0 {
                            assert(self.passes_at(fx, fy, direction, occupation_state, j));
                        }
                    }
                }
                return None;
            }
            proof {
                lemma_ray_bound(fx, fy, direction, k as int + 1);
                assert(self.passes_at(fx, fy, direction, occupation_state, k as int));
            }
            x = x + v.x as i64;
            y = y + v.y as i64;
            k = k + 1;
        }
        proof {
            assert forall|j: int| #[trigger] self.misses_at(fx, fy, direction, occupation_state, j) by {
                if j >= k {
                    lemma_ray_leaves(self, fx, fy, direction, k as int, j);
                } else if j >= 0 {
                    assert(self.passes_at(fx, fy, direction, occupation_state, j));
                }
            }
        }
        None
    }
}

/// The exits of a cell are its free axis neighbours in the window, each
/// listed once at its step cost, and every such neighbour is listed.
proof fn lemma_exits(m: &PathfindingMap, c: CellIndex2d, weighted: bool)
    requires
        m.wf(),
    ensures
        m.exits(c, weighted).map_values(|p: (CellIndex2d, u128)| p.0).no_duplicates(),
        forall|i: int|
            0 <= i < m.exits(c, weighted).len() ==> m.is_edge(c, (#[trigger] m.exits(c, weighted)[i]).0)
                && m.exits(c, weighted)[i].1 == m.step_cost(m.exits(c, weighted)[i].0, weighted),
        forall|b: CellIndex2d| #[trigger] m.is_edge(c, b) ==> exists|i: int|
            0 <= i < m.exits(c, weighted).len() && (#[trigger] m.exits(c, weighted)[i]).0 == b,
{
    let e0 = m.exit_entry(c.x as int, c.y + 1, weighted);
    let e1 = m.exit_entry(c.x + 1, c.y as int, weighted);
    let e2 = m.exit_entry(c.x as int, c.y - 1, weighted);
    let e3 = m.exit_entry(c.x - 1, c.y as int, weighted);
    let s = m.exits(c, weighted);
    let (l0, l1, l2) = (e0.len() as int, (e0.len() + e1.len()) as int, (e0.len() + e1.len() + e2.len()) as int);
    // The position of each entry tells which neighbour it is.
    assert forall|i: int| 0 <= i < s.len() implies {
        &&& (i < l0 ==> s[i] == e0[0])
        &&& (l0 <= i < l1 ==> s[i] == e1[0])
        &&& (l1 <= i < l2 ==> s[i] == e2[0])
        &&& (l2 <= i ==> s[i] == e3[0])
    } by {
        assert(s == e0 + e1 + e2 + e3);
    }
    let keys = s.map_values(|p: (CellIndex2d, u128)| p.0);
    assert forall|i: int, j: int| 0 <= i < keys.len() && 0 <= j < keys.len() && i != j implies keys[i] != keys[j] by {
        assert(keys[i] == s[i].0 && keys[j] == s[j].0);
    }
    assert forall|i: int| 0 <= i < s.len() implies m.is_edge(c, (#[trigger] s[i]).0) && s[i].1 == m.step_cost(
        s[i].0,
        weighted,
    ) by {}
    assert forall|b: CellIndex2d| #[trigger] m.is_edge(c, b) implies exists|i: int|
        0 <= i < s.len() && (#[trigger] s[i]).0 == b by {
        if b.x == c.x && b.y == c.y + 1 {
            assert(s[0].0 == b);
        } else if b.x == c.x + 1 && b.y == c.y {
            assert(s[l0].0 == b);
        } else if b.x == c.x && b.y + 1 == c.y {
            assert(s[l1].0 == b);
        } else {
            assert(b.x + 1 == c.x && b.y == c.y);
            assert(s[l2].0 == b);
        }
    }
}

impl IndexRect {
    pub fn contains_i64(&self, x: i64, y: i64) -> (r: bool)
        ensures
            r == (self.min.x <= x <= self.max.x && self.min.y <= y <= self.max.y),
    {
        self.min.x as i64 <= x && x <= self.max.x as i64 && self.min.y as i64 <= y && y <= self.max.y as i64
    }
}

proof fn lemma_ray_step(x: int, y: int, d: Direction, k: int)
    ensures
        ray(x, y, d, k + 1) == (ray(x, y, d, k).0 + direction_vector(d).0, ray(x, y, d, k).1 + direction_vector(d).1),
{
    let (dx, dy) = direction_vector(d);
    assert((k + 1) * dx == k * dx + dx) by (nonlinear_arith);
    assert((k + 1) * dy == k * dy + dy) by (nonlinear_arith);
}

/// A ray with both ends in the range of `u32` has at most `u32::MAX` steps:
/// every direction moves along some axis.
proof fn lemma_ray_bound(x: int, y: int, d: Direction, k: int)
    requires
        k >= 0,
        0 <= x <= u32::MAX,
        0 <= y <= u32::MAX,
        0 <= ray(x, y, d, k).0 <= u32::MAX,
        0 <= ray(x, y, d, k).1 <= u32::MAX,
    ensures
        k <= u32::MAX,
{
    let (dx, dy) = direction_vector(d);
    if dx == 1 {
        assert(k * dx == k) by (nonlinear_arith) requires dx == 1;
    } else if dx == -1 {
        assert(k * dx == -k) by (nonlinear_arith) requires dx == -1;
    } else if dy == 1 {
        assert(k * dy == k) by (nonlinear_arith) requires dy == 1;
    } else {
        assert(dy == -1);
        assert(k * dy == -k) by (nonlinear_arith) requires dy == -1;
    }
}

/// A ray that starts in the window and has left it by step `k` is still
/// outside at every later step `j`.
proof fn lemma_ray_leaves(m: &PathfindingMap, x: int, y: int, d: Direction, k: int, j: int)
    requires
        0 <= k <= j,
        m.has(x, y),
        !m.has(ray(x, y, d, k).0, ray(x, y, d, k).1),
    ensures
        !m.has(ray(x, y, d, j).0, ray(x, y, d, j).1),
{
    let (dx, dy) = direction_vector(d);
    assert(j * dx == k * dx + (j - k) * dx) by (nonlinear_arith);
    assert(j * dy == k * dy + (j - k) * dy) by (nonlinear_arith);
    if dx == 1 {
        assert(k * dx == k && (j - k) * dx == j - k) by (nonlinear_arith) requires dx == 1;
    } else if dx == -1 {
        assert(k * dx == -k && (j - k) * dx == k - j) by (nonlinear_arith) requires dx == -1;
    } else {
        assert(k * dx == 0 && (j - k) * dx == 0) by (nonlinear_arith) requires dx == 0;
    }
    if dy == 1 {
        assert(k * dy == k && (j - k) * dy == j - k) by (nonlinear_arith) requires dy == 1;
    } else if dy == -1 {
        assert(k * dy == -k && (j - k) * dy == k - j) by (nonlinear_arith) requires dy == -1;
    } else {
        assert(k * dy == 0 && (j - k) * dy == 0) by (nonlinear_arith) requires dy == 0;
    }
}

impl GridRelatedData {
    /// A query window over `inclusive_rect`, holding a copy of its records.
    pub fn create_pathfinding_map_on(&self, target_grid: &Grid2D, inclusive_rect: IndexRect) -> (r: PathfindingMap)
        requires
            self.fits(target_grid),
            target_grid.wf(),
            inclusive_rect.is_proper(),
            target_grid.indexes_rect.covers(inclusive_rect),
        ensures
            r.wf(),
            r.area == inclusive_rect,
            r.grid_segment.parent_grid == target_grid.indexes_rect,
            forall|l: CellIndex2d|
                r.has(l.x as int, l.y as int) ==> #[trigger] r.record(l.x as int, l.y as int) == self.at(
                    r.grid_segment.to_global(l),
                ),
    {
        let grid_segment = target_grid.form_segment_for(inclusive_rect);
        let cells = self.get_segment_view_of(target_grid, inclusive_rect);
        let area_normalized = grid_segment.bounds;
        let r = PathfindingMap { grid_segment, cells, area: inclusive_rect, area_normalized };
        proof {
            let w = r.width();
            let h = r.height();
            assert(w * h <= u32::MAX + 1) by (nonlinear_arith)
                requires
                    1 <= w <= target_grid.column_number,
                    1 <= h <= target_grid.row_number,
                    target_grid.column_number * target_grid.row_number <= u32::MAX + 1,
            ;
            assert forall|l: CellIndex2d| r.has(l.x as int, l.y as int) implies #[trigger] r.record(
                l.x as int,
                l.y as int,
            ) == self.at(r.grid_segment.to_global(l)) by {
                let k = l.x + l.y * w;
                assert(0 <= k < w * h) by (nonlinear_arith)
                    requires
                        0 <= l.x < w,
                        0 <= l.y < h,
                        k == l.x + l.y * w,
                ;
                vstd::arithmetic::div_mod::lemma_fundamental_div_mod_converse(k, w, l.y as int, l.x as int);
                assert(area_cell(inclusive_rect, k) == r.grid_segment.to_global(l));
            }
        }
        r
    }
}

impl PathfindingMap {
    /// What `find_destination_in_direction` returns for the window-frame
    /// start `s`: the first occupied cell ahead, then the first free cell from
    /// there on, as the detour's end.
    pub open spec fn destination_result(&self, s: CellIndex2d, d: Direction, r: Option<Pathfinder>) -> bool {
        match r {
            None => self.scan_result(s, d, Occupation::Occupied, None) || self.obstacle_without_exit(s, d),
            Some(p) => p.start == s && self.exit_beyond_obstacle(s, d, p.end),
        }
    }

    /// An obstacle lies ahead of `s` along `d`, and `e` is the first free
    /// cell from it on.
    pub open spec fn exit_beyond_obstacle(&self, s: CellIndex2d, d: Direction, e: CellIndex2d) -> bool {
        exists|o: CellIndex2d|
            self.scan_result(s, d, Occupation::Occupied, Some(o)) && #[trigger] self.scan_result(
                o,
                d,
                Occupation::Free,
                Some(e),
            )
    }

    /// An obstacle lies ahead of `s` along `d`, and no free cell follows it
    /// in the window.
    pub open spec fn obstacle_without_exit(&self, s: CellIndex2d, d: Direction) -> bool {
        exists|o: CellIndex2d|
            self.scan_result(s, d, Occupation::Occupied, Some(o)) && #[trigger] self.scan_result(
                o,
                d,
                Occupation::Free,
                None,
            )
    }

    /// From the mover's cell `from` (parent frame), finds the detour around
    /// the nearest obstacle ahead: it starts at `from` and ends at the first
    /// free cell beyond that obstacle, both in the window's frame. `None` when
    /// no obstacle lies ahead in the window or no free cell follows it.
    pub fn find_destination_in_direction(&self, from: CellIndex2d, direction: Direction) -> (r: Option<Pathfinder>)
        requires
            self.wf(),
            self.grid_segment.localizable(from),
            self.has(self.grid_segment.to_local(from).x as int, self.grid_segment.to_local(from).y as int),
        ensures
            self.destination_result(self.grid_segment.to_local(from), direction, r),
    {
        let start = self.grid_segment.global_to_local_index(from);
        let closest_obstacle = self.find_closest_cell_in_direction_local(start, direction, Occupation::Occupied);
        match closest_obstacle {
            None => None,
            Some(obstacle) => {
                proof {
                    let k = choose|k: int| #[trigger] self.first_match_at(start.x as int, start.y as int, direction,
                        Occupation::Occupied, k) && obstacle.x == ray(start.x as int, start.y as int, direction, k).0
                        && obstacle.y == ray(start.x as int, start.y as int, direction, k).1;
                    assert(self.has(obstacle.x as int, obstacle.y as int));
                }
                let closest_empty_cell = self.find_closest_cell_in_direction_local(obstacle, direction, Occupation::Free);
                match closest_empty_cell {
                    None => {
                        assert(self.obstacle_without_exit(start, direction));
                        None
                    },
                    Some(end) => {
                        assert(self.exit_beyond_obstacle(start, direction, end));
                        Some(Pathfinder { start, end })
                    },
                }
            },
        }
    }

    /// `b` is one step from `a` along an axis, inside the window and free.
    pub open spec fn is_edge(&self, a: CellIndex2d, b: CellIndex2d) -> bool {
        &&& manhattan(a, b) == 1
        &&& self.has(b.x as int, b.y as int)
        &&& self.occupation(b.x as int, b.y as int) == Occupation::Free
    }

    /// Cost of stepping onto `b`: 1 in the uniform variant; otherwise
    /// `DETRACTION_UNIT` plus `b`'s detraction factor, so that 1.0 is one step.
    pub open spec fn step_cost(&self, b: CellIndex2d, weighted: bool) -> nat {
        if weighted {
            (DETRACTION_UNIT + self.record(b.x as int, b.y as int).detraction_factor) as nat
        } else {
            1
        }
    }

    /// Consecutive cells of `p` are joined by edges.
    pub open spec fn is_walk(&self, p: Seq<CellIndex2d>) -> bool {
        &&& p.len() >= 1
        &&& forall|i: int| 0 <= i < p.len() - 1 ==> #[trigger] self.is_edge(p[i], p[i + 1])
    }

    pub open spec fn walk_cost(&self, p: Seq<CellIndex2d>, weighted: bool) -> nat
        decreases p.len(),
    {
        if p.len() <= 1 {
            0
        } else {
            self.walk_cost(p.drop_last(), weighted) + self.step_cost(p.last(), weighted)
        }
    }

    /// `p` is a walk from `s` to `e`.
    pub open spec fn connects(&self, p: Seq<CellIndex2d>, s: CellIndex2d, e: CellIndex2d) -> bool {
        &&& self.is_walk(p)
        &&& p[0] == s
        &&& p.last() == e
    }

    /// `p` is a walk from `s` to `e` that no other such walk undercuts.
    pub open spec fn is_cheapest(&self, p: Seq<CellIndex2d>, s: CellIndex2d, e: CellIndex2d, weighted: bool) -> bool {
        &&& self.connects(p, s, e)
        &&& forall|w: Seq<CellIndex2d>| #[trigger] self.connects(w, s, e) ==> self.walk_cost(p, weighted) <= self.walk_cost(
            w,
            weighted,
        )
    }

    pub open spec fn reachable(&self, s: CellIndex2d, e: CellIndex2d) -> bool {
        exists|w: Seq<CellIndex2d>| #[trigger] self.connects(w, s, e)
    }

    /// The exit onto the window cell `(x, y)`: one entry with its step cost
    /// when the cell is in the window and free, none otherwise.
    pub open spec fn exit_entry(&self, x: int, y: int, weighted: bool) -> Seq<(CellIndex2d, u128)> {
        if self.has(x, y) && self.occupation(x, y) == Occupation::Free {
            let b = CellIndex2d { x: x as u32, y: y as u32 };
            seq![(b, self.step_cost(b, weighted) as u128)]
        } else {
            Seq::empty()
        }
    }

    /// The exits of `c`: its North, East, South and West neighbours, in that
    /// order, each kept only when it is in the window and free.
    pub open spec fn exits(&self, c: CellIndex2d, weighted: bool) -> Seq<(CellIndex2d, u128)> {
        self.exit_entry(c.x as int, c.y + 1, weighted) + self.exit_entry(c.x + 1, c.y as int, weighted)
            + self.exit_entry(c.x as int, c.y - 1, weighted) + self.exit_entry(c.x - 1, c.y as int, weighted)
    }

    fn push_if_open(&self, out: &mut Vec<(CellIndex2d, u128)>, x: i64, y: i64, weighted: bool)
        requires
            self.wf(),
        ensures
            final(out)@ == old(out)@ + self.exit_entry(x as int, y as int, weighted),
    {
        if self.area_normalized.contains_i64(x, y) {
            let cell = self.record_at(x, y);
            if cell.occupation_state == Occupation::Free {
                let cost: u128 = if weighted { DETRACTION_UNIT as u128 + cell.detraction_factor as u128 } else { 1 };
                out.push((CellIndex2d::new(x as u32, y as u32), cost));
                assert(out@ =~= old(out)@ + self.exit_entry(x as int, y as int, weighted));
                return;
            }
        }
        assert(out@ =~= old(out)@ + self.exit_entry(x as int, y as int, weighted));
    }

    /// The free window cells next to `cell` along an axis, North, East, South
    /// and West in that order, each once, with the cost of stepping onto it.
    pub fn successors(&self, cell: &CellIndex2d, weighted: bool) -> (r: Vec<(CellIndex2d, u128)>)
        requires
            self.wf(),
        ensures
            r@ == self.exits(*cell, weighted),
            r@.map_values(|p: (CellIndex2d, u128)| p.0).no_duplicates(),
            forall|i: int|
                0 <= i < r@.len() ==> self.is_edge(*cell, (#[trigger] r@[i]).0) && r@[i].1 == self.step_cost(
                    r@[i].0,
                    weighted,
                ),
            forall|b: CellIndex2d| #[trigger] self.is_edge(*cell, b) ==> exists|i: int| 0 <= i < r@.len() && (#[trigger] r@[i]).0 == b,
    {
        let mut out: Vec<(CellIndex2d, u128)> = Vec::new();
        let (x, y) = (cell.x as i64, cell.y as i64);
        self.push_if_open(&mut out, x, y + 1, weighted);
        self.push_if_open(&mut out, x + 1, y, weighted);
        self.push_if_open(&mut out, x, y - 1, weighted);
        self.push_if_open(&mut out, x - 1, y, weighted);
        proof {
            assert(out@ =~= self.exits(*cell, weighted));
            lemma_exits(self, *cell, weighted);
        }
        out
    }

    /// The free window cells next to `cell` along an axis, North, East, South
    /// and West in that order, each once, at cost 1.
    pub fn calculate_successors(&self, cell_index2d: &CellIndex2d) -> (r: Vec<(CellIndex2d, u128)>)
        requires
            self.wf(),
        ensures
            r@ == self.exits(*cell_index2d, false),
            r@.map_values(|p: (CellIndex2d, u128)| p.0).no_duplicates(),
            forall|i: int| 0 <= i < r@.len() ==> self.is_edge(*cell_index2d, (#[trigger] r@[i]).0) && r@[i].1 == 1,
            forall|b: CellIndex2d| #[trigger] self.is_edge(*cell_index2d, b) ==> exists|i: int|
                0 <= i < r@.len() && (#[trigger] r@[i]).0 == b,
    {
        self.successors(cell_index2d, false)
    }

    /// Lower bound of the cost from `cell` to `end`: the Manhattan distance,
    /// in the variant's unit of one step.
    pub fn heuristic(&self, cell: &CellIndex2d, end: &CellIndex2d, weighted: bool) -> (r: u128)
        ensures
            r == manhattan(*cell, *end) * (if weighted { DETRACTION_UNIT as nat } else { 1 }),
    {
        let d = cell.distance(end) as u128;
        assert(d <= 0x2_0000_0000);
        assert(d * 100 <= 0x2_0000_0000 * 100) by (nonlinear_arith)
            requires
                d <= 0x2_0000_0000,
        ;
        if weighted { d * DETRACTION_UNIT as u128 } else { d }
    }
}

/// Relies on pathfinding's `astar`: with non-negative step costs and a
/// heuristic that never overestimates the remaining cost, it returns a
/// cheapest path from `start` to a node on which `success` holds, start and
/// end included, with its total cost, and `None` when no path reaches one.
/// The graph is the window's free cells joined along the axes.
#[verifier::external_body]
fn astar_in_window(map: &PathfindingMap, pathfinder: Pathfinder, weighted: bool) -> (r: Option<(Vec<CellIndex2d>, u128)>)
    requires
        map.wf(),
    ensures
        match r {
            None => !map.reachable(pathfinder.start, pathfinder.end),
            Some((p, c)) => map.is_cheapest(p@, pathfinder.start, pathfinder.end, weighted) && c == map.walk_cost(
                p@,
                weighted,
            ),
        },
{
    astar(
        &pathfinder.start,
        |p| map.successors(p, weighted),
        |p| map.heuristic(p, &pathfinder.end, weighted),
        |p| pathfinder.is_end(p),
    )
}

impl PathfindingMap {
    /// A cheapest walk inside the window from `pathfinder.start` to
    /// `pathfinder.end` (window frame) with uniform step cost, and its cost.
    pub fn find_path_points(&self, pathfinder: Pathfinder) -> (r: Option<(Vec<CellIndex2d>, u128)>)
        requires
            self.wf(),
        ensures
            match r {
                None => !self.reachable(pathfinder.start, pathfinder.end),
                Some((p, c)) => self.is_cheapest(p@, pathfinder.start, pathfinder.end, false) && c == self.walk_cost(
                    p@,
                    false,
                ),
            },
    {
        astar_in_window(self, pathfinder, false)
    }

    /// As `find_path_points`, with each step costing `DETRACTION_UNIT` plus
    /// the detraction factor of the cell stepped onto.
    pub fn find_weighted_path_points(&self, pathfinder: Pathfinder) -> (r: Option<(Vec<CellIndex2d>, u128)>)
        requires
            self.wf(),
        ensures
            match r {
                None => !self.reachable(pathfinder.start, pathfinder.end),
                Some((p, c)) => self.is_cheapest(p@, pathfinder.start, pathfinder.end, true) && c == self.walk_cost(
                    p@,
                    true,
                ),
            },
    {
        astar_in_window(self, pathfinder, true)
    }

    /// The window cells of `path`, in the parent's frame.
    fn convert_normalized_2d_to_global_points(&self, path: &Vec<CellIndex2d>) -> (r: Vec<CellIndex2d>)
        requires
            self.wf(),
            forall|i: int| 0 <= i < path@.len() ==> self.has((#[trigger] path@[i]).x as int, path@[i].y as int),
        ensures
            r@ == path@.map_values(|c: CellIndex2d| self.grid_segment.to_global(c)),
    {
        let mut out: Vec<CellIndex2d> = Vec::new();
        let mut i: usize = 0;
        while i < path.len()
            invariant
                self.wf(),
                forall|j: int| 0 <= j < path@.len() ==> self.has((#[trigger] path@[j]).x as int, path@[j].y as int),
                i <= path@.len(),
                out@ == path@.take(i as int).map_values(|c: CellIndex2d| self.grid_segment.to_global(c)),
            decreases path@.len() - i,
        {
            let c = path[i];
            assert(self.has(c.x as int, c.y as int));
            let g = self.grid_segment.local_to_global_index(c);
            out.push(g);
            assert(path@.take(i as int + 1) =~= path@.take(i as int).push(c));
            i = i + 1;
        }
        assert(path@.take(path@.len() as int) =~= path@);
        out
    }

    /// What the global path queries return.
    pub open spec fn global_path_result(&self, pathfinder: Pathfinder, weighted: bool, r: Option<Vec<CellIndex2d>>) -> bool {
        match r {
            None => !self.reachable(pathfinder.start, pathfinder.end),
            Some(g) => exists|p: Seq<CellIndex2d>|
                #[trigger] self.is_cheapest(p, pathfinder.start, pathfinder.end, weighted) && g@ == p.map_values(
                    |c: CellIndex2d| self.grid_segment.to_global(c),
                ),
        }
    }

    fn path_coordinates_global(&self, pathfinder: Pathfinder, weighted: bool) -> (r: Option<Vec<CellIndex2d>>)
        requires
            self.wf(),
            self.has(pathfinder.start.x as int, pathfinder.start.y as int),
        ensures
            self.global_path_result(pathfinder, weighted, r),
    {
        match astar_in_window(self, pathfinder, weighted) {
            None => None,
            Some((path, _cost)) => {
                proof {
                    assert forall|i: int| 0 <= i < path@.len() implies self.has((#[trigger] path@[i]).x as int, path@[i].y as int) by {
                        if i > 0 {
                            assert(self.is_edge(path@[i - 1], path@[i - 1 + 1]));
                        }
                    }
                }
                let g = self.convert_normalized_2d_to_global_points(&path);
                Some(g)
            },
        }
    }

    /// A cheapest uniform-cost walk from `pathfinder.start` to
    /// `pathfinder.end` (window frame), in the parent's frame; `None` when the
    /// window holds no such walk.
    pub fn calculate_path_coordinates_global(&self, pathfinder: Pathfinder) -> (r: Option<Vec<CellIndex2d>>)
        requires
            self.wf(),
            self.has(pathfinder.start.x as int, pathfinder.start.y as int),
        ensures
            self.global_path_result(pathfinder, false, r),
    {
        self.path_coordinates_global(pathfinder, false)
    }

    /// As `calculate_path_coordinates_global`, with steps weighted by the
    /// detraction factor of the cell stepped onto.
    pub fn calculate_weighted_path_coordinates_global(&self, pathfinder: Pathfinder) -> (r: Option<Vec<CellIndex2d>>)
        requires
            self.wf(),
            self.has(pathfinder.start.x as int, pathfinder.start.y as int),
        ensures
            self.global_path_result(pathfinder, true, r),
    {
        self.path_coordinates_global(pathfinder, true)
    }

    /// Both ends of a window-frame detour, in the parent's frame.
    pub fn convert_to_global(&self, pathfinder: Pathfinder) -> (r: Pathfinder)
        requires
            self.wf(),
            self.has(pathfinder.start.x as int, pathfinder.start.y as int),
            self.has(pathfinder.end.x as int, pathfinder.end.y as int),
        ensures
            r.start == self.grid_segment.to_global(pathfinder.start),
            r.end == self.grid_segment.to_global(pathfinder.end),
    {
        Pathfinder {
            start: self.grid_segment.local_to_global_index(pathfinder.start),
            end: self.grid_segment.local_to_global_index(pathfinder.end),
        }
    }
}

/// One step from `s` towards `e`: along x first, then along y.
pub open spec fn step_toward(s: CellIndex2d, e: CellIndex2d) -> CellIndex2d {
    if s.x < e.x {
        CellIndex2d { x: (s.x + 1) as u32, y: s.y }
    } else if s.x > e.x {
        CellIndex2d { x: (s.x - 1) as u32, y: s.y }
    } else if s.y < e.y {
        CellIndex2d { x: s.x, y: (s.y + 1) as u32 }
    } else {
        CellIndex2d { x: s.x, y: (s.y - 1) as u32 }
    }
}

/// The walk from `s` to `e` that first lines up x, then y.
pub open spec fn straight_walk(s: CellIndex2d, e: CellIndex2d) -> Seq<CellIndex2d>
    decreases manhattan(s, e),
{
    if s == e {
        seq![s]
    } else {
        seq![s] + straight_walk(step_toward(s, e), e)
    }
}

impl PathfindingMap {
    /// Every cell of the window is free.
    pub open spec fn all_free(&self) -> bool {
        forall|x: int, y: int| #[trigger] self.has(x, y) ==> self.occupation(x, y) == Occupation::Free
    }
}

proof fn lemma_straight_walk(m: &PathfindingMap, s: CellIndex2d, e: CellIndex2d)
    requires
        m.all_free(),
        m.has(s.x as int, s.y as int),
        m.has(e.x as int, e.y as int),
    ensures
        m.connects(straight_walk(s, e), s, e),
        straight_walk(s, e).len() == manhattan(s, e) + 1,
    decreases manhattan(s, e),
{
    if s != e {
        let n = step_toward(s, e);
        assert(m.has(n.x as int, n.y as int));
        assert(manhattan(n, e) + 1 == manhattan(s, e));
        lemma_straight_walk(m, n, e);
        let rest = straight_walk(n, e);
        let w = seq![s] + rest;
        assert(w == straight_walk(s, e));
        assert(m.is_edge(s, n));
        assert forall|i: int| 0 <= i < w.len() - 1 implies #[trigger] m.is_edge(w[i], w[i + 1]) by {
            if i > 0 {
                assert(w[i] == rest[i - 1] && w[i + 1] == rest[i - 1 + 1]);
            }
        }
    }
}

/// Along a walk, each step costs 1 in the uniform variant and moves the
/// Manhattan distance from the start by at most 1.
proof fn lemma_walk_length(m: &PathfindingMap, p: Seq<CellIndex2d>)
    requires
        m.is_walk(p),
    ensures
        m.walk_cost(p, false) == p.len() - 1,
        manhattan(p[0], p.last()) <= p.len() - 1,
    decreases p.len(),
{
    if p.len() > 1 {
        let q = p.drop_last();
        assert forall|i: int| 0 <= i < q.len() - 1 implies #[trigger] m.is_edge(q[i], q[i + 1]) by {
            assert(m.is_edge(p[i], p[i + 1]));
        }
        lemma_walk_length(m, q);
        assert(m.is_edge(p[p.len() - 2], p[p.len() - 2 + 1]));
    }
}

/// In a window without obstacles, a cheapest uniform-cost walk between two
/// of its cells exists and visits exactly their Manhattan distance plus one
/// cells.
pub proof fn lemma_open_window_path_length(m: &PathfindingMap, s: CellIndex2d, e: CellIndex2d, p: Seq<CellIndex2d>)
    requires
        m.wf(),
        m.all_free(),
        m.has(s.x as int, s.y as int),
        m.has(e.x as int, e.y as int),
    ensures
        m.reachable(s, e),
        m.is_cheapest(p, s, e, false) ==> p.len() == manhattan(s, e) + 1,
{
    lemma_straight_walk(m, s, e);
    let w = straight_walk(s, e);
    assert(m.connects(w, s, e));
    lemma_walk_length(m, w);
    if m.is_cheapest(p, s, e, false) {
        lemma_walk_length(m, p);
    }
}

/// The coordinate of `c` across a wall: x for a column, y for a row.
pub open spec fn across(c: CellIndex2d, row_wall: bool) -> int {
    if row_wall { c.y as int } else { c.x as int }
}

/// Whether the window cell on line `w` at position `t` along the wall is
/// occupied: the column `x = w` or the row `y = w`.
pub open spec fn wall_cell_occupied(m: &PathfindingMap, w: int, t: int, row_wall: bool) -> bool {
    if row_wall {
        m.occupation(t, w) == Occupation::Occupied
    } else {
        m.occupation(w, t) == Occupation::Occupied
    }
}

/// A walk that starts on one side of line `w` and ends on it or beyond steps
/// onto that line at some step after the first.
proof fn lemma_walk_crosses(m: &PathfindingMap, p: Seq<CellIndex2d>, w: int, row_wall: bool) -> (i: int)
    requires
        m.is_walk(p),
        (across(p[0], row_wall) < w <= across(p.last(), row_wall)) || (across(p.last(), row_wall) <= w < across(
            p[0],
            row_wall,
        )),
    ensures
        1 <= i < p.len(),
        across(p[i], row_wall) == w,
    decreases p.len(),
{
    let q = p.drop_last();
    assert(p.len() > 1);
    assert(m.is_edge(p[p.len() - 2], p[p.len() - 2 + 1]));
    let before = across(q.last(), row_wall);
    let rising = across(p[0], row_wall) < w;
    if (rising && before >= w) || (!rising && before <= w) {
        assert forall|j: int| 0 <= j < q.len() - 1 implies #[trigger] m.is_edge(q[j], q[j + 1]) by {
            assert(m.is_edge(p[j], p[j + 1]));
        }
        lemma_walk_crosses(m, q, w, row_wall)
    } else {
        (p.len() - 1) as int
    }
}

/// A line of occupied cells spanning the window, a column `x = w` or a row
/// `y = w`, separates the cells on its two sides: no walk joins them, in
/// either direction and in either cost variant.
pub proof fn lemma_wall_blocks_path(m: &PathfindingMap, s: CellIndex2d, e: CellIndex2d, w: int, row_wall: bool)
    requires
        m.wf(),
        forall|t: int|
            0 <= t <= (if row_wall { m.area_normalized.max.x as int } else { m.area_normalized.max.y as int })
                ==> #[trigger] wall_cell_occupied(m, w, t, row_wall),
        (across(s, row_wall) < w < across(e, row_wall)) || (across(e, row_wall) < w < across(s, row_wall)),
    ensures
        !m.reachable(s, e),
{
    if m.reachable(s, e) {
        let p = choose|p: Seq<CellIndex2d>| #[trigger] m.connects(p, s, e);
        let i = lemma_walk_crosses(m, p, w, row_wall);
        assert(m.is_edge(p[i - 1], p[i - 1 + 1]));
        if row_wall {
            assert(wall_cell_occupied(m, w, p[i].x as int, row_wall));
        } else {
            assert(wall_cell_occupied(m, w, p[i].y as int, row_wall));
        }
    }
}

/// In a window without obstacles, a path query between two window cells
/// succeeds, and its path visits the cells' Manhattan distance plus one
/// cells.
pub proof fn lemma_open_window_global_path(m: &PathfindingMap, pathfinder: Pathfinder, r: Option<Vec<CellIndex2d>>)
    requires
        m.wf(),
        m.all_free(),
        m.has(pathfinder.start.x as int, pathfinder.start.y as int),
        m.has(pathfinder.end.x as int, pathfinder.end.y as int),
        m.global_path_result(pathfinder, false, r),
    ensures
        r is Some,
        r.unwrap()@.len() == manhattan(pathfinder.start, pathfinder.end) + 1,
{
    lemma_open_window_path_length(m, pathfinder.start, pathfinder.end, Seq::empty());
    let g = r.unwrap();
    let p = choose|p: Seq<CellIndex2d>|
        #[trigger] m.is_cheapest(p, pathfinder.start, pathfinder.end, false) && g@ == p.map_values(
            |c: CellIndex2d| m.grid_segment.to_global(c),
        );
    lemma_open_window_path_length(m, pathfinder.start, pathfinder.end, p);
}

/// A line of occupied cells spanning the window between the two ends of a
/// detour makes every path query for it, uniform or weighted, come back empty.
pub proof fn lemma_wall_blocks_global_path(
    m: &PathfindingMap,
    pathfinder: Pathfinder,
    w: int,
    row_wall: bool,
    weighted: bool,
    r: Option<Vec<CellIndex2d>>,
)
    requires
        m.wf(),
        forall|t: int|
            0 <= t <= (if row_wall { m.area_normalized.max.x as int } else { m.area_normalized.max.y as int })
                ==> #[trigger] wall_cell_occupied(m, w, t, row_wall),
        (across(pathfinder.start, row_wall) < w < across(pathfinder.end, row_wall)) || (across(pathfinder.end, row_wall)
            < w < across(pathfinder.start, row_wall)),
        m.global_path_result(pathfinder, weighted, r),
    ensures
        r is None,
{
    lemma_wall_blocks_path(m, pathfinder.start, pathfinder.end, w, row_wall);
    if r is Some {
        let g = r.unwrap();
        let p = choose|p: Seq<CellIndex2d>|
            #[trigger] m.is_cheapest(p, pathfinder.start, pathfinder.end, weighted) && g@ == p.map_values(
                |c: CellIndex2d| m.grid_segment.to_global(c),
            );
        assert(m.connects(p, pathfinder.start, pathfinder.end));
    }
}

/// A scan has exactly one outcome: the first matching cell, or none.
pub proof fn lemma_scan_result_unique(
    m: &PathfindingMap,
    from: CellIndex2d,
    d: Direction,
    occ: Occupation,
    r1: Option<CellIndex2d>,
    r2: Option<CellIndex2d>,
)
    requires
        m.scan_result(from, d, occ, r1),
        m.scan_result(from, d, occ, r2),
    ensures
        r1 == r2,
{
    let (x, y) = (from.x as int, from.y as int);
    match (r1, r2) {
        (Some(c1), Some(c2)) => {
            let k1 = choose|k: int| #[trigger] m.first_match_at(x, y, d, occ, k) && c1.x == ray(x, y, d, k).0 && c1.y
                == ray(x, y, d, k).1;
            let k2 = choose|k: int| #[trigger] m.first_match_at(x, y, d, occ, k) && c2.x == ray(x, y, d, k).0 && c2.y
                == ray(x, y, d, k).1;
            if k1 < k2 {
                assert(m.passes_at(x, y, d, occ, k1));
            } else if k2 < k1 {
                assert(m.passes_at(x, y, d, occ, k2));
            }
        },
        (Some(c1), None) => {
            let k1 = choose|k: int| #[trigger] m.first_match_at(x, y, d, occ, k) && c1.x == ray(x, y, d, k).0 && c1.y
                == ray(x, y, d, k).1;
            assert(m.misses_at(x, y, d, occ, k1));
        },
        (None, Some(c2)) => {
            let k2 = choose|k: int| #[trigger] m.first_match_at(x, y, d, occ, k) && c2.x == ray(x, y, d, k).0 && c2.y
                == ray(x, y, d, k).1;
            assert(m.misses_at(x, y, d, occ, k2));
        },
        (None, None) => {},
    }
}

} // verus!
