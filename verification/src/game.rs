//! One tick of the game: turn, move, then see what the move ran into.

use vstd::prelude::*;
use crate::food::Food;
use crate::point::{Boundaries, Point};
use crate::snake::{
    accelerated, can_advance, collides_with_body, grown, head_collides_with_tail, stepped,
    turned, turned_between_steps, Snake,
};

verus! {

/// What a tick ended in.
#[derive(Clone, Copy, Debug, PartialEq, Eq, Structural)]
pub enum TickOutcome {
    /// The snake ran into a wall or into itself: the session is over.
    Crashed,
    /// The snake ate the food: a new food item is owed.
    Fed,
    /// The snake moved on.
    Moved,
}

/// A body whose head touches a wall or collides with a later segment.
pub open spec fn crashed(body: Seq<Point>, direction: Point, boundaries: Boundaries) -> bool
    recommends
        body.len() >= 1,
{
    !boundaries.strictly_inside(body[0]) || (body.len() > 4 && head_collides_with_tail(
        body,
        direction,
    ))
}

/// The delay before the next tick, in milliseconds, at a speed given in
/// tenths: 125 ms at the base speed, shrinking in proportion to the speed.
pub open spec fn tick_millis(speed: u16) -> int
    recommends
        speed > 0,
{
    1250int / (speed as int)
}

/// Runs one tick: applies the requested turn, moves the snake, and then
/// checks the walls and the snake's own body before the food. A snake
/// that crashed does not eat.
pub fn tick(snake: &mut Snake, requested: &Point, food: &Food, boundaries: &Boundaries) -> (outcome:
    TickOutcome)
    requires
        old(snake).wf(),
        requested.dot(*requested) <= i16::MAX,
        can_advance(old(snake).body@[0], turned(old(snake).direction, *requested)),
    ensures
        final(snake).wf(),
        final(snake).direction == turned(old(snake).direction, *requested),
        requested.is_step() ==> final(snake).direction == turned_between_steps(
            old(snake).direction,
            *requested,
        ),
        ({
            let direction = turned(old(snake).direction, *requested);
            let moved = stepped(old(snake).body@, direction);
            let fed = !crashed(moved, direction, *boundaries) && collides_with_body(
                moved,
                food.position,
                direction,
            );
            &&& outcome == if crashed(moved, direction, *boundaries) {
                TickOutcome::Crashed
            } else if fed {
                TickOutcome::Fed
            } else {
                TickOutcome::Moved
            }
            &&& final(snake).body@ == if fed {
                grown(moved, food.kind.spec_nutrition() as nat)
            } else {
                moved
            }
            &&& final(snake).speed == if fed {
                accelerated(old(snake).speed)
            } else {
                old(snake).speed
            }
        }),
{
    snake.set_direction(requested);
    snake.step();
    if snake.try_hit_walls(boundaries) || snake.try_eat_self() {
        return TickOutcome::Crashed;
    }
    if snake.try_eat_food(food) {
        TickOutcome::Fed
    } else {
        TickOutcome::Moved
    }
}

/// The delay that the session keeps before the next tick, in milliseconds.
pub fn frame_delay_millis(snake: &Snake) -> (millis: u64)
    requires
        snake.wf(),
    ensures
        millis == tick_millis(snake.speed),
{
    1250 / (snake.speed as u64)
}

} // verus!
