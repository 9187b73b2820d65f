//! The single edible item on the board.

use vstd::prelude::*;
use crate::point::{Boundaries, Point};
use crate::random::{random_in_range, random_ratio};

verus! {

/// What a food item is. The kind fixes how much the snake grows on it.
#[derive(Clone, Copy, Debug, PartialEq, Eq, Structural)]
pub enum FoodKind {
    Berry,
    Fruit,
}

impl FoodKind {
    /// The growth that this kind grants: one segment for a berry, two for
    /// a fruit.
    pub open spec fn spec_nutrition(self) -> u8 {
        match self {
            FoodKind::Berry => 1,
            FoodKind::Fruit => 2,
        }
    }

    /// The kind that a coin toss selects: a berry on `true`.
    pub open spec fn spec_from_draw(choice: bool) -> FoodKind {
        if choice {
            FoodKind::Berry
        } else {
            FoodKind::Fruit
        }
    }

    pub fn nutrition(&self) -> (n: u8)
        ensures
            n == self.spec_nutrition(),
    {
        match self {
            FoodKind::Berry => 1,
            FoodKind::Fruit => 2,
        }
    }

    pub fn name(&self) -> (s: &'static str)
        ensures
            s@ == (match *self {
                FoodKind::Berry => "berry"@,
                FoodKind::Fruit => "fruit"@,
            }),
    {
        match self {
            FoodKind::Berry => "berry",
            FoodKind::Fruit => "fruit",
        }
    }
}

/// A food item: its kind and the cell it lies on.
#[derive(Clone, Copy, Debug, PartialEq, Eq, Structural)]
pub struct Food {
    pub kind: FoodKind,
    pub position: Point,
}

impl Food {
    /// Places a new item at random: a berry or a fruit with even odds, on a
    /// cell drawn from the spawn area of `boundaries`. The cell may be one
    /// that the snake occupies.
    pub fn new(boundaries: &Boundaries) -> (food: Food)
        requires
            boundaries.wf(),
        ensures
            boundaries.spawn_area(food.position),
    {
        let choice = random_ratio(1, 2);
        let position = Food::rand_position(boundaries);
        Food::from_draw(choice, position)
    }

    /// An item of the given kind on the given cell.
    pub fn _new(kind: FoodKind, position: Point) -> (food: Food)
        ensures
            food.kind == kind,
            food.position == position,
    {
        Food { kind, position }
    }

    /// The item that a coin toss and a drawn cell determine.
    pub fn from_draw(choice: bool, position: Point) -> (food: Food)
        ensures
            food.kind == FoodKind::spec_from_draw(choice),
            food.position == position,
    {
        if choice {
            Food::_new(FoodKind::Berry, position)
        } else {
            Food::_new(FoodKind::Fruit, position)
        }
    }

    /// A berry on a cell drawn from the spawn area of `boundaries`.
    pub fn berry(boundaries: &Boundaries) -> (food: Food)
        requires
            boundaries.wf(),
        ensures
            food.kind == FoodKind::Berry,
            boundaries.spawn_area(food.position),
    {
        Food::_new(FoodKind::Berry, Food::rand_position(boundaries))
    }

    /// A fruit on a cell drawn from the spawn area of `boundaries`.
    pub fn fruit(boundaries: &Boundaries) -> (food: Food)
        requires
            boundaries.wf(),
        ensures
            food.kind == FoodKind::Fruit,
            boundaries.spawn_area(food.position),
    {
        Food::_new(FoodKind::Fruit, Food::rand_position(boundaries))
    }

    /// The growth that eating this item grants.
    pub fn nutrition(&self) -> (n: u8)
        ensures
            n == self.kind.spec_nutrition(),
    {
        self.kind.nutrition()
    }

    fn rand_position(boundaries: &Boundaries) -> (p: Point)
        requires
            boundaries.wf(),
        ensures
            boundaries.spawn_area(p),
    {
        let x: i16 = random_in_range(boundaries.min_x, boundaries.max_x);
        let y: i16 = random_in_range(boundaries.min_y, boundaries.max_y);
        Point::new(x, y)
    }
}

} // verus!
