use vstd::prelude::*;

verus! {

/// Scale of fixed-point penalties: a value of `DETRACTION_UNIT` stands for 1.0.
pub const DETRACTION_UNIT: u32 = 100;

/// A discrete grid coordinate: column `x`, row `y`.
#[derive(Clone, Copy, Debug, PartialEq, Eq, Structural, Hash)]
pub struct CellIndex2d {
    pub x: u32,
    pub y: u32,
}

/// A signed step between cells, such as a compass direction.
#[derive(Clone, Copy, Debug, PartialEq, Eq, Structural, Hash)]
pub struct IndexOffset {
    pub x: i32,
    pub y: i32,
}

/// An inclusive rectangle of cells; it holds no cell when `min` exceeds `max`
/// on either axis.
#[derive(Clone, Copy, Debug, PartialEq, Eq, Structural, Hash)]
pub struct IndexRect {
    pub min: CellIndex2d,
    pub max: CellIndex2d,
}

/// The eight compass directions, in clockwise order from north.
#[derive(Clone, Copy, Debug, PartialEq, Eq, Structural, Hash)]
pub enum Direction {
    North,
    NorthEast,
    East,
    SouthEast,
    South,
    SouthWest,
    West,
    NorthWest,
}

/// |a - b| over integers.
pub open spec fn abs_diff(a: int, b: int) -> nat {
    if a >= b { (a - b) as nat } else { (b - a) as nat }
}

/// Manhattan distance between two cells.
pub open spec fn manhattan(a: CellIndex2d, b: CellIndex2d) -> nat {
    abs_diff(a.x as int, b.x as int) + abs_diff(a.y as int, b.y as int)
}

/// Chebyshev distance between two cells.
pub open spec fn chebyshev(a: CellIndex2d, b: CellIndex2d) -> nat {
    let dx = abs_diff(a.x as int, b.x as int);
    let dy = abs_diff(a.y as int, b.y as int);
    if dx >= dy { dx } else { dy }
}

/// The cell `c + (dx, dy)`, when both coordinates stay in range of `u32`.
pub open spec fn shifted_fits(c: CellIndex2d, dx: int, dy: int) -> bool {
    0 <= c.x + dx <= u32::MAX && 0 <= c.y + dy <= u32::MAX
}

pub open spec fn shifted(c: CellIndex2d, dx: int, dy: int) -> CellIndex2d {
    CellIndex2d { x: (c.x + dx) as u32, y: (c.y + dy) as u32 }
}

/// Largest `r` with `r * r <= n`.
pub open spec fn is_floor_sqrt(r: nat, n: nat) -> bool {
    r * r <= n && n < (r + 1) * (r + 1)
}

impl CellIndex2d {
    pub fn new(x: u32, y: u32) -> (r: CellIndex2d)
        ensures
            r.x == x,
            r.y == y,
    {
        CellIndex2d { x, y }
    }

    /// Manhattan distance.
    pub fn distance(&self, other: &CellIndex2d) -> (r: u64)
        ensures
            r == manhattan(*self, *other),
    {
        let dx: u32 = if self.x >= other.x { self.x - other.x } else { other.x - self.x };
        let dy: u32 = if self.y >= other.y { self.y - other.y } else { other.y - self.y };
        dx as u64 + dy as u64
    }

    /// Chebyshev distance.
    pub fn chebyshev_distance(&self, other: &CellIndex2d) -> (r: u32)
        ensures
            r == chebyshev(*self, *other),
    {
        let dx: u32 = if self.x >= other.x { self.x - other.x } else { other.x - self.x };
        let dy: u32 = if self.y >= other.y { self.y - other.y } else { other.y - self.y };
        if dx >= dy { dx } else { dy }
    }

    /// Falloff `1 / chebyshev` in units of `DETRACTION_UNIT`, rounded down;
    /// 0 when both cells coincide.
    pub fn inverse_chebyshev_distance(&self, other: &CellIndex2d) -> (r: u32)
        ensures
            chebyshev(*self, *other) == 0 ==> r == 0,
            chebyshev(*self, *other) > 0 ==> r == DETRACTION_UNIT as nat / chebyshev(*self, *other),
    {
        let d = self.chebyshev_distance(other);
        if d == 0 { 0 } else { DETRACTION_UNIT / d }
    }

    /// Divides each component by the integer length `floor(sqrt(x² + y²))`;
    /// a component shorter than that length becomes 0.
    pub fn normalize(&self) -> (r: CellIndex2d)
        requires
            self.x > 0 || self.y > 0,
        ensures
            exists|len: nat|
                #![trigger is_floor_sqrt(len, (self.x * self.x + self.y * self.y) as nat)]
                is_floor_sqrt(len, (self.x * self.x + self.y * self.y) as nat) && len > 0
                    && r.x as nat == self.x as nat / len && r.y as nat == self.y as nat / len,
    {
        let x = self.x as u128;
        let y = self.y as u128;
        proof {
            assert(x * x <= 0xFFFF_FFFFu128 * 0xFFFF_FFFFu128 && y * y <= 0xFFFF_FFFFu128 * 0xFFFF_FFFFu128)
                by (nonlinear_arith)
                requires
                    x <= 0xFFFF_FFFFu128,
                    y <= 0xFFFF_FFFFu128,
            ;
            assert(x * x + y * y >= 1) by (nonlinear_arith)
                requires
                    x > 0 || y > 0,
            ;
        }
        let n: u128 = x * x + y * y;
        let len = floor_sqrt(n);
        proof {
            assert(len > 0) by (nonlinear_arith)
                requires
                    is_floor_sqrt(len as nat, n as nat),
                    n >= 1,
            ;
        }
        let r = CellIndex2d { x: (x / len) as u32, y: (y / len) as u32 };
        assert(is_floor_sqrt(len as nat, (self.x * self.x + self.y * self.y) as nat));
        r
    }

    /// `self + d`; the caller keeps the result inside the grid.
    pub fn offset_by(&self, d: IndexOffset) -> (r: CellIndex2d)
        requires
            shifted_fits(*self, d.x as int, d.y as int),
        ensures
            r == shifted(*self, d.x as int, d.y as int),
    {
        CellIndex2d { x: (self.x as i64 + d.x as i64) as u32, y: (self.y as i64 + d.y as i64) as u32 }
    }

    /// `self - d`; the caller keeps the result inside the grid.
    pub fn offset_back_by(&self, d: IndexOffset) -> (r: CellIndex2d)
        requires
            shifted_fits(*self, -d.x, -d.y),
        ensures
            r == shifted(*self, -d.x, -d.y),
    {
        CellIndex2d { x: (self.x as i64 - d.x as i64) as u32, y: (self.y as i64 - d.y as i64) as u32 }
    }
}

/// Integer square root, rounded down, by bisection.
fn floor_sqrt(n: u128) -> (r: u128)
    requires
        n < 0x4_0000_0000_0000_0000u128,
    ensures
        is_floor_sqrt(r as nat, n as nat),
{
    let mut lo: u128 = 0;
    let mut hi: u128 = 0x2_0000_0000;
    proof {
        assert(0x2_0000_0000u128 * 0x2_0000_0000u128 == 0x4_0000_0000_0000_0000u128) by (nonlinear_arith);
    }
    while hi - lo > 1
        invariant
            lo < hi <= 0x2_0000_0000,
            lo * lo <= n,
            n < hi * hi,
        decreases hi - lo,
    {
        let mid = lo + (hi - lo) / 2;
        assert(mid * mid <= 0x2_0000_0000u128 * 0x2_0000_0000u128) by (nonlinear_arith)
            requires
                mid < 0x2_0000_0000,
        ;
        if mid * mid <= n {
            lo = mid;
        } else {
            hi = mid;
        }
    }
    assert(hi == lo + 1);
    lo
}

impl IndexOffset {
    pub fn new(x: i32, y: i32) -> (r: IndexOffset)
        ensures
            r.x == x,
            r.y == y,
    {
        IndexOffset { x, y }
    }
}

/// Unit step of a direction.
pub open spec fn direction_vector(d: Direction) -> (int, int) {
    match d {
        Direction::North => (0, 1),
        Direction::NorthEast => (1, 1),
        Direction::East => (1, 0),
        Direction::SouthEast => (1, -1),
        Direction::South => (0, -1),
        Direction::SouthWest => (-1, -1),
        Direction::West => (-1, 0),
        Direction::NorthWest => (-1, 1),
    }
}

pub open spec fn direction_ordinal(d: Direction) -> nat {
    match d {
        Direction::North => 0,
        Direction::NorthEast => 1,
        Direction::East => 2,
        Direction::SouthEast => 3,
        Direction::South => 4,
        Direction::SouthWest => 5,
        Direction::West => 6,
        Direction::NorthWest => 7,
    }
}

/// The four directions that move along one axis only.
pub open spec fn is_cardinal(d: Direction) -> bool {
    d == Direction::North || d == Direction::East || d == Direction::South || d == Direction::West
}

impl Direction {
    /// The unit step of this direction; north is +y, east is +x.
    pub fn as_vector(&self) -> (r: IndexOffset)
        ensures
            (r.x as int, r.y as int) == direction_vector(*self),
            -1 <= r.x <= 1,
            -1 <= r.y <= 1,
    {
        match self {
            Direction::North => IndexOffset { x: 0, y: 1 },
            Direction::NorthEast => IndexOffset { x: 1, y: 1 },
            Direction::East => IndexOffset { x: 1, y: 0 },
            Direction::SouthEast => IndexOffset { x: 1, y: -1 },
            Direction::South => IndexOffset { x: 0, y: -1 },
            Direction::SouthWest => IndexOffset { x: -1, y: -1 },
            Direction::West => IndexOffset { x: -1, y: 0 },
            Direction::NorthWest => IndexOffset { x: -1, y: 1 },
        }
    }

    /// Position of this direction in clockwise order from north.
    pub fn ordinal(&self) -> (r: usize)
        ensures
            r == direction_ordinal(*self),
    {
        match self {
            Direction::North => 0,
            Direction::NorthEast => 1,
            Direction::East => 2,
            Direction::SouthEast => 3,
            Direction::South => 4,
            Direction::SouthWest => 5,
            Direction::West => 6,
            Direction::NorthWest => 7,
        }
    }

    /// The next direction clockwise.
    pub fn next_clockwise(&self) -> (r: Direction)
        ensures
            direction_ordinal(r) == (direction_ordinal(*self) + 1) % 8,
    {
        match self {
            Direction::North => Direction::NorthEast,
            Direction::NorthEast => Direction::East,
            Direction::East => Direction::SouthEast,
            Direction::SouthEast => Direction::South,
            Direction::South => Direction::SouthWest,
            Direction::SouthWest => Direction::West,
            Direction::West => Direction::NorthWest,
            Direction::NorthWest => Direction::North,
        }
    }
}

impl IndexRect {
    pub open spec fn contains_spec(self, p: CellIndex2d) -> bool {
        self.min.x <= p.x <= self.max.x && self.min.y <= p.y <= self.max.y
    }

    /// The rectangle holds at least one cell.
    pub open spec fn is_proper(self) -> bool {
        self.min.x <= self.max.x && self.min.y <= self.max.y
    }

    /// Every cell of `other` is in `self`.
    pub open spec fn covers(self, other: IndexRect) -> bool {
        self.min.x <= other.min.x && other.max.x <= self.max.x && self.min.y <= other.min.y
            && other.max.y <= self.max.y
    }

    pub fn new(min_x: u32, min_y: u32, max_x: u32, max_y: u32) -> (r: IndexRect)
        ensures
            r.min == (CellIndex2d { x: min_x, y: min_y }),
            r.max == (CellIndex2d { x: max_x, y: max_y }),
    {
        IndexRect { min: CellIndex2d { x: min_x, y: min_y }, max: CellIndex2d { x: max_x, y: max_y } }
    }

    /// The smallest rectangle holding both corners.
    pub fn from_corners(a: CellIndex2d, b: CellIndex2d) -> (r: IndexRect)
        ensures
            r.is_proper(),
            r.min.x == if a.x <= b.x { a.x } else { b.x },
            r.min.y == if a.y <= b.y { a.y } else { b.y },
            r.max.x == if a.x <= b.x { b.x } else { a.x },
            r.max.y == if a.y <= b.y { b.y } else { a.y },
    {
        let min_x = if a.x <= b.x { a.x } else { b.x };
        let max_x = if a.x <= b.x { b.x } else { a.x };
        let min_y = if a.y <= b.y { a.y } else { b.y };
        let max_y = if a.y <= b.y { b.y } else { a.y };
        IndexRect { min: CellIndex2d { x: min_x, y: min_y }, max: CellIndex2d { x: max_x, y: max_y } }
    }

    /// Inclusive containment.
    pub fn contains(&self, p: CellIndex2d) -> (r: bool)
        ensures
            r == self.contains_spec(p),
    {
        self.min.x <= p.x && p.x <= self.max.x && self.min.y <= p.y && p.y <= self.max.y
    }

    /// Difference of the x bounds (one less than the number of columns).
    pub fn width(&self) -> (r: u32)
        requires
            self.is_proper(),
        ensures
            r == self.max.x - self.min.x,
    {
        self.max.x - self.min.x
    }

    /// Difference of the y bounds (one less than the number of rows).
    pub fn height(&self) -> (r: u32)
        requires
            self.is_proper(),
        ensures
            r == self.max.y - self.min.y,
    {
        self.max.y - self.min.y
    }
}

} // verus!
