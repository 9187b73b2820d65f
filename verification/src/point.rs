//! Grid coordinates and the rectangle that bounds the play field.

use vstd::prelude::*;

verus! {

/// A cell of the grid, or a step between two cells.
#[derive(Clone, Copy, Debug, PartialEq, Eq, Structural)]
pub struct Point {
    pub x: i16,
    pub y: i16,
}

impl Point {
    pub fn new(x: i16, y: i16) -> (p: Point)
        ensures
            p.x == x,
            p.y == y,
    {
        Point { x, y }
    }

    /// The dot product of two points read as vectors.
    pub open spec fn dot(self, other: Point) -> int {
        self.x * other.x + self.y * other.y
    }

    /// The zero vector or one of the four unit steps along an axis.
    pub open spec fn is_step(self) -> bool {
        ||| (self.x == 0 && -1 <= self.y <= 1)
        ||| (self.y == 0 && -1 <= self.x <= 1)
    }

    /// The vector pointing the opposite way.
    pub open spec fn reversed(self) -> Point
        recommends
            self.x > i16::MIN,
            self.y > i16::MIN,
    {
        Point { x: (-self.x) as i16, y: (-self.y) as i16 }
    }
}

/// The rectangle of the play field. Its edges are walls.
#[derive(Clone, Copy, Debug, PartialEq, Eq, Structural)]
pub struct Boundaries {
    pub min_x: i16,
    pub min_y: i16,
    pub max_x: i16,
    pub max_y: i16,
}

impl Boundaries {
    pub fn new(min_x: i16, min_y: i16, max_x: i16, max_y: i16) -> (b: Boundaries)
        ensures
            b.min_x == min_x,
            b.min_y == min_y,
            b.max_x == max_x,
            b.max_y == max_y,
    {
        Boundaries { min_x, min_y, max_x, max_y }
    }

    /// The rectangle has room on both axes.
    pub open spec fn wf(self) -> bool {
        self.min_x < self.max_x && self.min_y < self.max_y
    }

    /// `p` lies where food may be placed: each coordinate at or above the
    /// lower edge and below the upper edge.
    pub open spec fn spawn_area(self, p: Point) -> bool {
        self.min_x <= p.x < self.max_x && self.min_y <= p.y < self.max_y
    }

    /// `p` touches no wall: each coordinate is strictly between the edges.
    pub open spec fn strictly_inside(self, p: Point) -> bool {
        self.min_x < p.x < self.max_x && self.min_y < p.y < self.max_y
    }
}

/// A cell of the spawn area touches no wall unless it lies on the lower
/// edge of an axis, which the spawn area includes and the walls occupy.
pub proof fn lemma_spawn_area_off_lower_edges_is_inside(boundaries: Boundaries, p: Point)
    requires
        boundaries.spawn_area(p),
        p.x != boundaries.min_x,
        p.y != boundaries.min_y,
    ensures
        boundaries.strictly_inside(p),
{
}

} // verus!
