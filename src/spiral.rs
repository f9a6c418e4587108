use vstd::prelude::*;

use crate::geometry::{abs_diff, CellIndex2d, IndexRect};

verus! {

/// Counters of a spiral stay far below this; a walk that gets there ends.
pub const SPIRAL_COUNTER_LIMIT: i64 = 0x100_0000_0000;

/// Heading of the next spiral step, in the window's frame.
#[derive(Clone, Copy, Debug, PartialEq, Eq, Structural)]
pub enum RelativeDirection {
    Right,
    Down,
    Left,
    Up,
}

/// A cell and its Manhattan distance from the centre of the window.
#[derive(Clone, Copy, Debug, PartialEq, Eq, Structural)]
pub struct CellInDistance {
    pub cell_index: CellIndex2d,
    pub distance_from_center: u32,
}

impl CellInDistance {
    pub fn new(cell_index: CellIndex2d, distance_from_center: u32) -> (r: CellInDistance)
        ensures
            r.cell_index == cell_index,
            r.distance_from_center == distance_from_center,
    {
        CellInDistance { cell_index, distance_from_center }
    }
}

/// A square spiral through a window, in the window's frame, starting next to
/// its centre: it turns after runs whose lengths follow the counters below.
pub struct SpiralIter {
    pub cursor_x: i64,
    pub cursor_y: i64,
    pub parent_grid: IndexRect,
    pub bounds: IndexRect,
    pub direction: RelativeDirection,
    pub steps_in_current_direction: i64,
    pub steps_taken_in_current_direction: i64,
    pub steps_before_changing_direction: i64,
}

pub open spec fn heading(d: RelativeDirection) -> (int, int) {
    match d {
        RelativeDirection::Right => (1, 0),
        RelativeDirection::Down => (0, 1),
        RelativeDirection::Left => (-1, 0),
        RelativeDirection::Up => (0, -1),
    }
}

/// The counters after a step has been taken: when the run is complete the
/// heading turns clockwise and the next run length is set (growing after
/// each vertical run); a `steps_before_changing_direction` of 2 then
/// lengthens the run by one and starts that count again.
pub open spec fn after_step(s: SpiralIter, nx: int, ny: int) -> SpiralIter {
    let taken = s.steps_taken_in_current_direction + 1;
    let turned = if taken == s.steps_in_current_direction {
        match s.direction {
            RelativeDirection::Right => SpiralIter {
                direction: RelativeDirection::Down,
                steps_in_current_direction: s.steps_before_changing_direction,
                steps_taken_in_current_direction: 0,
                ..s
            },
            RelativeDirection::Down => SpiralIter {
                direction: RelativeDirection::Left,
                steps_before_changing_direction: (s.steps_before_changing_direction + 1) as i64,
                steps_in_current_direction: (s.steps_before_changing_direction + 1) as i64,
                steps_taken_in_current_direction: 0,
                ..s
            },
            RelativeDirection::Left => SpiralIter {
                direction: RelativeDirection::Up,
                steps_in_current_direction: s.steps_before_changing_direction,
                steps_taken_in_current_direction: 0,
                ..s
            },
            RelativeDirection::Up => SpiralIter {
                direction: RelativeDirection::Right,
                steps_before_changing_direction: (s.steps_before_changing_direction + 1) as i64,
                steps_in_current_direction: (s.steps_before_changing_direction + 1) as i64,
                steps_taken_in_current_direction: 0,
                ..s
            },
        }
    } else {
        SpiralIter { steps_taken_in_current_direction: taken as i64, ..s }
    };
    let settled = if turned.steps_before_changing_direction == 2 {
        SpiralIter {
            steps_in_current_direction: (turned.steps_in_current_direction + 1) as i64,
            steps_before_changing_direction: 0,
            ..turned
        }
    } else {
        turned
    };
    SpiralIter { cursor_x: nx as i64, cursor_y: ny as i64, ..settled }
}

impl SpiralIter {
    pub open spec fn width(&self) -> int {
        self.bounds.max.x - self.bounds.min.x
    }

    pub open spec fn height(&self) -> int {
        self.bounds.max.y - self.bounds.min.y
    }

    pub open spec fn counters_in_range(&self) -> bool {
        &&& -SPIRAL_COUNTER_LIMIT < self.steps_in_current_direction < SPIRAL_COUNTER_LIMIT
        &&& -SPIRAL_COUNTER_LIMIT < self.steps_taken_in_current_direction < SPIRAL_COUNTER_LIMIT
        &&& -SPIRAL_COUNTER_LIMIT < self.steps_before_changing_direction < SPIRAL_COUNTER_LIMIT
        &&& -SPIRAL_COUNTER_LIMIT < self.cursor_x < SPIRAL_COUNTER_LIMIT
        &&& -SPIRAL_COUNTER_LIMIT < self.cursor_y < SPIRAL_COUNTER_LIMIT
    }

    /// A spiral through `bounds`, a window of `parent_grid`, from its centre.
    pub fn new(parent_grid: IndexRect, bounds: IndexRect) -> (r: SpiralIter)
        requires
            bounds.is_proper(),
        ensures
            r.parent_grid == parent_grid,
            r.bounds == bounds,
            r.cursor_x == r.width() / 2,
            r.cursor_y == r.height() / 2,
            r.direction == RelativeDirection::Right,
            r.steps_in_current_direction == 1,
            r.steps_taken_in_current_direction == 0,
            r.steps_before_changing_direction == 2,
    {
        SpiralIter {
            cursor_x: (bounds.width() / 2) as i64,
            cursor_y: (bounds.height() / 2) as i64,
            parent_grid,
            bounds,
            direction: RelativeDirection::Right,
            steps_in_current_direction: 1,
            steps_taken_in_current_direction: 0,
            steps_before_changing_direction: 2,
        }
    }

    /// The next cell of the spiral with its distance from the centre; `None`
    /// once the next step would leave the window (the state then stays).
    pub fn next(&mut self) -> (r: Option<CellInDistance>)
        ensures
            ({
                let s = *old(self);
                let nx = s.cursor_x + heading(s.direction).0;
                let ny = s.cursor_y + heading(s.direction).1;
                if s.counters_in_range() && 0 <= nx < s.width() && 0 <= ny < s.height() {
                    &&& r == Some(
                        CellInDistance {
                            cell_index: CellIndex2d { x: nx as u32, y: ny as u32 },
                            distance_from_center: (abs_diff(nx, s.width() / 2) + abs_diff(ny, s.height() / 2)) as u32,
                        },
                    )
                    &&& *final(self) == after_step(s, nx, ny)
                } else {
                    r is None && *final(self) == s
                }
            }),
    {
        if !(-SPIRAL_COUNTER_LIMIT < self.steps_in_current_direction && self.steps_in_current_direction
            < SPIRAL_COUNTER_LIMIT && -SPIRAL_COUNTER_LIMIT < self.steps_taken_in_current_direction
            && self.steps_taken_in_current_direction < SPIRAL_COUNTER_LIMIT && -SPIRAL_COUNTER_LIMIT
            < self.steps_before_changing_direction && self.steps_before_changing_direction < SPIRAL_COUNTER_LIMIT
            && -SPIRAL_COUNTER_LIMIT < self.cursor_x && self.cursor_x < SPIRAL_COUNTER_LIMIT && -SPIRAL_COUNTER_LIMIT
            < self.cursor_y && self.cursor_y < SPIRAL_COUNTER_LIMIT) {
            return None;
        }
        let (next_x, next_y) = match self.direction {
            RelativeDirection::Right => (self.cursor_x + 1, self.cursor_y),
            RelativeDirection::Down => (self.cursor_x, self.cursor_y + 1),
            RelativeDirection::Left => (self.cursor_x - 1, self.cursor_y),
            RelativeDirection::Up => (self.cursor_x, self.cursor_y - 1),
        };
        let width = (self.bounds.max.x as i64) - (self.bounds.min.x as i64);
        let height = (self.bounds.max.y as i64) - (self.bounds.min.y as i64);
        if next_x >= width || next_y >= height || next_x < 0 || next_y < 0 {
            return None;
        }
        self.cursor_x = next_x;
        self.cursor_y = next_y;
        self.steps_taken_in_current_direction = self.steps_taken_in_current_direction + 1;
        if self.steps_taken_in_current_direction == self.steps_in_current_direction {
            self.steps_taken_in_current_direction = 0;
            self.direction = match self.direction {
                RelativeDirection::Right => {
                    self.steps_in_current_direction = self.steps_before_changing_direction;
                    RelativeDirection::Down
                },
                RelativeDirection::Down => {
                    self.steps_before_changing_direction = self.steps_before_changing_direction + 1;
                    self.steps_in_current_direction = self.steps_before_changing_direction;
                    RelativeDirection::Left
                },
                RelativeDirection::Left => {
                    self.steps_in_current_direction = self.steps_before_changing_direction;
                    RelativeDirection::Up
                },
                RelativeDirection::Up => {
                    self.steps_before_changing_direction = self.steps_before_changing_direction + 1;
                    self.steps_in_current_direction = self.steps_before_changing_direction;
                    RelativeDirection::Right
                },
            };
        }
        if self.steps_before_changing_direction == 2 {
            self.steps_in_current_direction = self.steps_in_current_direction + 1;
            self.steps_before_changing_direction = 0;
        }
        let center_x = width / 2;
        let center_y = height / 2;
        let dx = if next_x >= center_x { next_x - center_x } else { center_x - next_x };
        let dy = if next_y >= center_y { next_y - center_y } else { center_y - next_y };
        Some(CellInDistance::new(CellIndex2d::new(next_x as u32, next_y as u32), (dx + dy) as u32))
    }
}

} // verus!
