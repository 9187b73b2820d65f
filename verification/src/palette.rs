//! The colour pairs and glyphs by which the session is drawn.

use vstd::prelude::*;
use crate::food::{Food, FoodKind};

verus! {

pub const SNAKE_COLOR_PAIR: i16 = 1;

pub const BERRY_COLOR_PAIR: i16 = 2;

pub const FRUIT_COLOR_PAIR: i16 = 3;

/// The colour pair that a kind of food is drawn in.
pub open spec fn food_color(kind: FoodKind) -> i16 {
    match kind {
        FoodKind::Berry => BERRY_COLOR_PAIR,
        FoodKind::Fruit => FRUIT_COLOR_PAIR,
    }
}

pub fn get_food_color_code(food: &Food) -> (pair: i16)
    ensures
        pair == food_color(food.kind),
{
    match food.kind {
        FoodKind::Berry => BERRY_COLOR_PAIR,
        FoodKind::Fruit => FRUIT_COLOR_PAIR,
    }
}

} // verus!
