//! The snake: its body, heading and speed, and the rules that move it.

use vstd::prelude::*;
use crate::food::Food;
use crate::point::{Boundaries, Point};
use crate::vector::{dot_fits, quotient, scaled_down, vector_div, vector_dot};

verus! {

/// The length at which the snake stops growing.
pub const MAX_SNAKE_LENGTH: usize = 100;

/// Speed is counted in tenths: a new snake moves at 10 tenths.
pub const BASE_SNAKE_SPEED: u16 = 10;

/// The speed, in tenths, at which the snake stops accelerating.
pub const MAX_SNAKE_SPEED: u16 = 100;

/// The gain of one acceleration, in tenths.
pub const SNAKE_SPEED_STEP: u16 = 1;

/// Two cells collide when they share a row and either share a column or
/// `b` lies one `direction` step behind `a` along the row.
pub open spec fn collision(a: Point, b: Point, direction: Point) -> bool {
    a.y == b.y && (a.x == b.x || a.x - direction.x == b.x)
}

/// Whether `a` and `b` collide while the snake is heading in `direction`.
pub fn is_collision(a: &Point, b: &Point, direction: &Point) -> (hit: bool)
    ensures
        hit == collision(*a, *b, *direction),
{
    a.y == b.y && (a.x == b.x || a.x as i32 - direction.x as i32 == b.x as i32)
}

/// Some segment of `body` collides with `point`.
pub open spec fn collides_with_body(body: Seq<Point>, point: Point, direction: Point) -> bool {
    exists|i: int| 0 <= i < body.len() && collision(#[trigger] body[i], point, direction)
}

/// The head collides with some later segment of `body`.
pub open spec fn head_collides_with_tail(body: Seq<Point>, direction: Point) -> bool {
    exists|i: int| 1 <= i < body.len() && collision(body[0], #[trigger] body[i], direction)
}

/// The heading after a turn is requested: the request wins, scaled down by
/// its squared length, when it is non-zero and perpendicular to the current
/// heading; otherwise the heading stays.
pub open spec fn turned(current: Point, requested: Point) -> Point {
    if requested.dot(current) == 0 && requested.dot(requested) != 0 {
        scaled_down(requested, requested.dot(requested))
    } else {
        current
    }
}

/// The same rule for a request that is itself zero or a unit step along an
/// axis, and a heading that is one too: the request wins when it is not
/// zero and the heading has no part along the request's axis.
pub open spec fn turned_between_steps(current: Point, requested: Point) -> Point {
    if requested != (Point { x: 0, y: 0 }) && (requested.x != 0 ==> current.x == 0) && (requested.y
        != 0 ==> current.y == 0) {
        requested
    } else {
        current
    }
}

/// The head after one tick: two columns along the heading's x, one row
/// along its y.
pub open spec fn advanced(head: Point, direction: Point) -> Point {
    Point { x: (head.x + 2 * direction.x) as i16, y: (head.y + direction.y) as i16 }
}

/// The head can advance without leaving the range of the coordinates.
pub open spec fn can_advance(head: Point, direction: Point) -> bool {
    &&& i16::MIN <= head.x + 2 * direction.x <= i16::MAX
    &&& i16::MIN <= head.y + direction.y <= i16::MAX
}

/// The body after one tick: every segment takes the place of the one before
/// it, and the head advances.
pub open spec fn stepped(body: Seq<Point>, direction: Point) -> Seq<Point>
    recommends
        body.len() >= 1,
{
    Seq::new(
        body.len(),
        |i: int|
            if i == 0 {
                advanced(body[0], direction)
            } else {
                body[i - 1]
            },
    )
}

/// The body after growing: `nutrition` copies of the tail are appended,
/// unless the body has reached the maximum length already.
pub open spec fn grown(body: Seq<Point>, nutrition: nat) -> Seq<Point>
    recommends
        body.len() >= 1,
{
    if body.len() >= MAX_SNAKE_LENGTH {
        body
    } else {
        body + Seq::new(nutrition, |i: int| body.last())
    }
}

/// The speed after one acceleration: one step more, unless the maximum is
/// reached.
pub open spec fn accelerated(speed: u16) -> u16 {
    if speed < MAX_SNAKE_SPEED {
        (speed + SNAKE_SPEED_STEP) as u16
    } else {
        speed
    }
}

/// The snake of one session.
pub struct Snake {
    /// The segments, head first.
    pub body: Vec<Point>,
    /// The step taken on each tick; zero until the first turn.
    pub direction: Point,
    /// The speed in tenths of the base unit.
    pub speed: u16,
}

impl Snake {
    /// The body is not empty, the heading is zero or a unit step along one
    /// axis, and the speed is between the base and the maximum.
    pub open spec fn wf(&self) -> bool {
        &&& self.body@.len() >= 1
        &&& self.direction.is_step()
        &&& BASE_SNAKE_SPEED <= self.speed <= MAX_SNAKE_SPEED
    }

    /// A snake of one segment at (1, 1), at rest, at the base speed.
    pub fn new() -> (snake: Snake)
        ensures
            snake.wf(),
            snake.body@ == seq![Point { x: 1, y: 1 }],
            snake.direction == (Point { x: 0, y: 0 }),
            snake.speed == BASE_SNAKE_SPEED,
    {
        let mut body: Vec<Point> = Vec::new();
        body.push(Point::new(1, 1));
        assert(body@ =~= seq![Point { x: 1, y: 1 }]);
        Snake { body, direction: Point::new(0, 0), speed: BASE_SNAKE_SPEED }
    }

    /// Moves the snake by one tick.
    pub fn step(&mut self)
        requires
            old(self).wf(),
            can_advance(old(self).body@[0], old(self).direction),
        ensures
            final(self).wf(),
            final(self).body@ == stepped(old(self).body@, old(self).direction),
            final(self).direction == old(self).direction,
            final(self).speed == old(self).speed,
    {
        let n: usize = self.body.len();
        let mut i: usize = n - 1;
        while i > 0
            invariant
                self.body@.len() == n,
                n == old(self).body@.len(),
                i < n,
                self.direction == old(self).direction,
                self.speed == old(self).speed,
                forall|j: int| 0 <= j <= i ==> self.body@[j] == old(self).body@[j],
                forall|j: int| i < j < n ==> self.body@[j] == old(self).body@[j - 1],
            decreases i,
        {
            let previous: Point = self.body[i - 1];
            self.body.set(i, previous);
            i -= 1;
        }
        let head: Point = self.body[0];
        let x: i16 = head.x + self.direction.x * 2;
        let y: i16 = head.y + self.direction.y;
        self.body.set(0, Point::new(x, y));
        assert(self.body@ =~= stepped(old(self).body@, old(self).direction));
    }

    /// Lengthens the snake by `nutrition` segments, all on the tail's cell.
    /// A snake of the maximum length or longer stays as it is.
    pub fn grow(&mut self, nutrition: u8)
        requires
            old(self).wf(),
        ensures
            final(self).wf(),
            final(self).body@ == grown(old(self).body@, nutrition as nat),
            final(self).direction == old(self).direction,
            final(self).speed == old(self).speed,
    {
        if self.body.len() >= MAX_SNAKE_LENGTH {
            return ;
        }
        let mut added: u8 = 0;
        while added < nutrition
            invariant
                added <= nutrition,
                old(self).body@.len() >= 1,
                self.direction == old(self).direction,
                self.speed == old(self).speed,
                self.body@ =~= old(self).body@ + Seq::new(
                    added as nat,
                    |i: int| old(self).body@.last(),
                ),
            decreases nutrition - added,
        {
            let tail: Point = self.body[self.body.len() - 1];
            self.body.push(tail);
            added += 1;
        }
    }

    /// Requests a turn. The heading changes only to a non-zero vector
    /// perpendicular to the current one, so a reversal and a zero request
    /// are both ignored.
    pub fn set_direction(&mut self, direction: &Point)
        requires
            old(self).wf(),
            direction.dot(*direction) <= i16::MAX,
        ensures
            final(self).wf(),
            final(self).direction == turned(old(self).direction, *direction),
            direction.is_step() ==> final(self).direction == turned_between_steps(
                old(self).direction,
                *direction,
            ),
            final(self).body@ == old(self).body@,
            final(self).speed == old(self).speed,
    {
        proof {
            lemma_squares_bound(direction.x as int, direction.y as int);
            lemma_dot_with_step_fits(*direction, self.direction);
            if direction.dot(*direction) != 0 {
                lemma_scaled_down_is_step(*direction);
            }
            if direction.is_step() {
                lemma_turn_between_steps(self.direction, *direction);
            }
        }
        let dir_len: i16 = vector_dot(direction, direction);
        let dp: i16 = vector_dot(direction, &self.direction);
        if dp == 0 && dir_len != 0 {
            self.direction = vector_div(direction, dir_len);
        }
    }

    /// Raises the speed by one step, unless it has reached the maximum.
    pub fn speed_up(&mut self)
        requires
            old(self).wf(),
        ensures
            final(self).wf(),
            final(self).speed == accelerated(old(self).speed),
            old(self).speed <= final(self).speed <= MAX_SNAKE_SPEED,
            final(self).body@ == old(self).body@,
            final(self).direction == old(self).direction,
    {
        if self.speed < MAX_SNAKE_SPEED {
            self.speed += SNAKE_SPEED_STEP;
        }
    }

    /// Whether `point` collides with any segment of the body.
    pub fn test_collision(&self, point: &Point) -> (hit: bool)
        ensures
            hit == collides_with_body(self.body@, *point, self.direction),
    {
        let mut i: usize = 0;
        while i < self.body.len()
            invariant
                i <= self.body@.len(),
                forall|j: int| 0 <= j < i ==> !collision(self.body@[j], *point, self.direction),
            decreases self.body@.len() - i,
        {
            if is_collision(&self.body[i], point, &self.direction) {
                return true;
            }
            i += 1;
        }
        false
    }

    /// Eats `food` if some segment collides with it: the snake then grows by
    /// the food's nutrition and accelerates, and the caller is owed a new
    /// food item. Otherwise nothing changes.
    pub fn try_eat_food(&mut self, food: &Food) -> (eaten: bool)
        requires
            old(self).wf(),
        ensures
            final(self).wf(),
            eaten == collides_with_body(old(self).body@, food.position, old(self).direction),
            final(self).direction == old(self).direction,
            eaten ==> final(self).body@ == grown(
                old(self).body@,
                food.kind.spec_nutrition() as nat,
            ) && final(self).speed == accelerated(old(self).speed),
            !eaten ==> final(self).body@ == old(self).body@ && final(self).speed == old(
                self,
            ).speed,
    {
        if self.test_collision(&food.position) {
            self.grow(food.nutrition());
            self.speed_up();
            return true;
        }
        false
    }

    /// Whether the snake has run into itself. A snake of four segments or
    /// fewer never has.
    pub fn try_eat_self(&self) -> (hit: bool)
        requires
            self.wf(),
        ensures
            hit == (self.body@.len() > 4 && head_collides_with_tail(self.body@, self.direction)),
    {
        if self.body.len() > 4 {
            let mut i: usize = 1;
            while i < self.body.len()
                invariant
                    self.body@.len() > 4,
                    1 <= i <= self.body@.len(),
                    forall|j: int|
                        1 <= j < i ==> !collision(self.body@[0], self.body@[j], self.direction),
                decreases self.body@.len() - i,
            {
                if is_collision(&self.body[0], &self.body[i], &self.direction) {
                    return true;
                }
                i += 1;
            }
        }
        false
    }

    /// Whether the head touches or has crossed an edge of `boundaries`.
    pub fn try_hit_walls(&self, boundaries: &Boundaries) -> (hit: bool)
        requires
            self.wf(),
        ensures
            hit == !boundaries.strictly_inside(self.body@[0]),
    {
        self.body[0].x <= boundaries.min_x || self.body[0].x >= boundaries.max_x
            || self.body[0].y <= boundaries.min_y || self.body[0].y >= boundaries.max_y
    }
}

impl Default for Snake {
    fn default() -> (snake: Snake)
        ensures
            snake.wf(),
            snake.body@ == seq![Point { x: 1, y: 1 }],
            snake.direction == (Point { x: 0, y: 0 }),
            snake.speed == BASE_SNAKE_SPEED,
    {
        Snake::new()
    }
}

/// The body after growing once for each entry of `nutritions`, in order.
pub open spec fn grown_repeatedly(body: Seq<Point>, nutritions: Seq<u8>) -> Seq<Point>
    decreases nutritions.len(),
{
    if nutritions.len() == 0 {
        body
    } else {
        grown_repeatedly(grown(body, nutritions[0] as nat), nutritions.drop_first())
    }
}

/// The speed after `times` accelerations.
pub open spec fn accelerated_repeatedly(speed: u16, times: nat) -> u16
    decreases times,
{
    if times == 0 {
        speed
    } else {
        accelerated_repeatedly(accelerated(speed), (times - 1) as nat)
    }
}

/// Growing never shortens the body, so it never empties it. And a body
/// that grows by at most `most` segments at a time never gets longer than
/// the maximum length by `most - 1`: growing one segment at a time, it
/// never exceeds the maximum length.
pub proof fn lemma_growth_is_bounded(body: Seq<Point>, nutritions: Seq<u8>, most: nat)
    requires
        1 <= body.len() <= MAX_SNAKE_LENGTH - 1 + most,
        most >= 1,
        forall|i: int| 0 <= i < nutritions.len() ==> nutritions[i] <= most,
    ensures
        body.len() <= grown_repeatedly(body, nutritions).len() <= MAX_SNAKE_LENGTH - 1 + most,
    decreases nutritions.len(),
{
    if nutritions.len() > 0 {
        let rest = nutritions.drop_first();
        assert forall|i: int| 0 <= i < rest.len() implies rest[i] <= most by {
            assert(rest[i] == nutritions[i + 1]);
        }
        lemma_growth_is_bounded(grown(body, nutritions[0] as nat), rest, most);
    }
}

/// For a request that is zero or a unit step along an axis, the turn rule
/// comes to this: the request becomes the heading when it is not zero and
/// the heading has no part along the request's axis.
pub proof fn lemma_turn_between_steps(current: Point, requested: Point)
    requires
        current.is_step(),
        requested.is_step(),
    ensures
        turned(current, requested) == turned_between_steps(current, requested),
{
    let (x, y) = (requested.x as int, requested.y as int);
    let (cx, cy) = (current.x as int, current.y as int);
    assert(x * x + y * y == (if x == 0 && y == 0 { 0int } else { 1int })) by (nonlinear_arith)
        requires
            (x == 0 && -1 <= y <= 1) || (y == 0 && -1 <= x <= 1),
    ;
    assert(x * cx + y * cy == 0 <==> (x != 0 ==> cx == 0) && (y != 0 ==> cy == 0))
        by (nonlinear_arith)
        requires
            (x == 0 && -1 <= y <= 1) || (y == 0 && -1 <= x <= 1),
            (cx == 0 && -1 <= cy <= 1) || (cy == 0 && -1 <= cx <= 1),
    ;
}

/// While the snake is heading somewhere, a request to reverse, to keep
/// the heading, or to stop leaves the heading as it is.
pub proof fn lemma_turn_ignores_parallel_and_zero(current: Point)
    requires
        current.is_step(),
        current != (Point { x: 0, y: 0 }),
    ensures
        turned(current, current.reversed()) == current,
        turned(current, current) == current,
        turned(current, Point { x: 0, y: 0 }) == current,
{
    let x = current.x as int;
    let y = current.y as int;
    assert((-x) * x + (-y) * y == -1 && x * x + y * y == 1) by (nonlinear_arith)
        requires
            (x == 0 && (y == 1 || y == -1)) || (y == 0 && (x == 1 || x == -1)),
    ;
}

/// While the snake is heading somewhere, a request for a unit step
/// perpendicular to the heading becomes the heading, exactly.
pub proof fn lemma_turn_takes_perpendicular_step(current: Point, requested: Point)
    requires
        current.is_step(),
        current != (Point { x: 0, y: 0 }),
        requested.is_step(),
        requested != (Point { x: 0, y: 0 }),
        requested.dot(current) == 0,
    ensures
        turned(current, requested) == requested,
{
    assert(requested.dot(requested) == 1) by (nonlinear_arith)
        requires
            requested.is_step(),
            requested != (Point { x: 0, y: 0 }),
    ;
}

/// Repeated acceleration adds one step per call until the maximum speed
/// is reached and stays there: the speed never falls, never exceeds the
/// maximum, and equals it after enough calls.
pub proof fn lemma_acceleration_converges(speed: u16, times: nat)
    requires
        speed <= MAX_SNAKE_SPEED,
    ensures
        accelerated_repeatedly(speed, times) == if speed + times <= MAX_SNAKE_SPEED {
            speed + times
        } else {
            MAX_SNAKE_SPEED as int
        },
        speed <= accelerated_repeatedly(speed, times) <= MAX_SNAKE_SPEED,
        accelerated_repeatedly(speed, times) <= accelerated_repeatedly(speed, times + 1),
    decreases times,
{
    if times > 0 {
        lemma_acceleration_converges(accelerated(speed), (times - 1) as nat);
    }
    lemma_acceleration_converges_step(speed, times);
}

proof fn lemma_acceleration_converges_step(speed: u16, times: nat)
    requires
        speed <= MAX_SNAKE_SPEED,
    ensures
        accelerated_repeatedly(speed, times + 1) == accelerated(
            accelerated_repeatedly(speed, times),
        ),
    decreases times,
{
    if times > 0 {
        lemma_acceleration_converges_step(accelerated(speed), (times - 1) as nat);
    } else {
        assert(accelerated_repeatedly(speed, 1) == accelerated_repeatedly(
            accelerated(speed),
            0,
        ));
    }
}

/// A coordinate is no larger in magnitude than the squared length of its
/// vector.
proof fn lemma_squares_bound(x: int, y: int)
    ensures
        x * x >= 0,
        y * y >= 0,
        -(x * x + y * y) <= x <= x * x + y * y,
        -(x * x + y * y) <= y <= x * x + y * y,
        (x == x * x + y * y || -x == x * x + y * y) && x != 0 ==> y == 0,
        (y == x * x + y * y || -y == x * x + y * y) && y != 0 ==> x == 0,
{
    assert(x * x >= 0 && (x != 0 ==> x * x >= x && x * x >= -x)) by (nonlinear_arith);
    assert(y * y >= 0 && (y != 0 ==> y * y >= y && y * y >= -y)) by (nonlinear_arith);
    assert(y != 0 ==> y * y > 0) by (nonlinear_arith);
    assert(x != 0 ==> x * x > 0) by (nonlinear_arith);
}

/// The dot product with a unit step or zero is a coordinate, its negation,
/// or zero.
proof fn lemma_dot_with_step_fits(v: Point, step: Point)
    requires
        step.is_step(),
        v.dot(v) <= i16::MAX,
    ensures
        dot_fits(v, v),
        dot_fits(v, step),
{
    lemma_squares_bound(v.x as int, v.y as int);
    assert(v.x * step.x == 0 || v.x * step.x == v.x || v.x * step.x == -v.x) by (nonlinear_arith)
        requires
            -1 <= step.x <= 1,
    ;
    assert(v.y * step.y == 0 || v.y * step.y == v.y || v.y * step.y == -v.y) by (nonlinear_arith)
        requires
            -1 <= step.y <= 1,
    ;
    assert(step.x == 0 ==> v.x * step.x == 0) by (nonlinear_arith);
    assert(step.y == 0 ==> v.y * step.y == 0) by (nonlinear_arith);
}

/// A non-zero vector scaled down by its squared length is a unit step along
/// an axis or zero.
pub proof fn lemma_scaled_down_is_step(v: Point)
    requires
        v.dot(v) != 0,
        v.dot(v) <= i16::MAX,
    ensures
        scaled_down(v, v.dot(v)).is_step(),
{
    let d = v.dot(v);
    lemma_squares_bound(v.x as int, v.y as int);
    lemma_quotient_by_bound(v.x as int, d);
    lemma_quotient_by_bound(v.y as int, d);
}

/// A number no larger in magnitude than the divisor has quotient -1, 0 or
/// 1, and a non-zero quotient only when the magnitudes are equal.
proof fn lemma_quotient_by_bound(a: int, d: int)
    requires
        d > 0,
        -d <= a <= d,
    ensures
        -1 <= quotient(a, d) <= 1,
        quotient(a, d) != 0 ==> a == d || a == -d,
        a == d ==> quotient(a, d) == 1,
        a == -d ==> quotient(a, d) == -1,
{
    let m = if a >= 0 { a } else { -a };
    if m < d {
        vstd::arithmetic::div_mod::lemma_basic_div(m, d);
    } else {
        vstd::arithmetic::div_mod::lemma_div_basics(d);
    }
}

} // verus!
