use snake_rust::palette::{
    get_food_color_code, BERRY_COLOR_PAIR, FRUIT_COLOR_PAIR, SNAKE_COLOR_PAIR,
};
use snake_rust::{
    frame_delay_millis, tick, Boundaries, Food, FoodKind, Point, Snake, TickOutcome,
};

#[test]
fn kinds_fix_nutrition_and_name() {
    assert_eq!(FoodKind::Berry.nutrition(), 1);
    assert_eq!(FoodKind::Fruit.nutrition(), 2);
    assert_eq!(FoodKind::Berry.name(), "berry");
    assert_eq!(FoodKind::Fruit.name(), "fruit");
    assert_eq!(Food::_new(FoodKind::Fruit, Point::new(4, 5)).nutrition(), 2);
    assert_eq!(Food::_new(FoodKind::Berry, Point::new(4, 5)).nutrition(), 1);
}

#[test]
fn a_draw_determines_the_food() {
    let berry = Food::from_draw(true, Point::new(4, 5));
    assert_eq!(berry.kind, FoodKind::Berry);
    assert_eq!(berry.position, Point::new(4, 5));
    let fruit = Food::from_draw(false, Point::new(-2, 7));
    assert_eq!(fruit.kind, FoodKind::Fruit);
    assert_eq!(fruit.position, Point::new(-2, 7));
}

#[test]
fn spawned_food_lies_in_the_spawn_area() {
    let boundaries = Boundaries::new(-3, 2, 4, 5);
    for _ in 0..500 {
        let food = Food::new(&boundaries);
        assert!(-3 <= food.position.x && food.position.x < 4);
        assert!(2 <= food.position.y && food.position.y < 5);
        assert!(food.kind == FoodKind::Berry || food.kind == FoodKind::Fruit);
    }
}

#[test]
fn spawn_area_of_one_cell_fixes_the_position() {
    let boundaries = Boundaries::new(5, 7, 6, 8);
    for _ in 0..20 {
        assert_eq!(Food::new(&boundaries).position, Point::new(5, 7));
        assert_eq!(Food::berry(&boundaries).position, Point::new(5, 7));
        assert_eq!(Food::fruit(&boundaries).position, Point::new(5, 7));
    }
}

#[test]
fn berry_and_fruit_spawn_their_kind() {
    let boundaries = Boundaries::new(0, 0, 80, 24);
    for _ in 0..100 {
        let berry = Food::berry(&boundaries);
        assert_eq!(berry.kind, FoodKind::Berry);
        assert!(0 <= berry.position.x && berry.position.x < 80);
        assert!(0 <= berry.position.y && berry.position.y < 24);
        let fruit = Food::fruit(&boundaries);
        assert_eq!(fruit.kind, FoodKind::Fruit);
        assert!(0 <= fruit.position.x && fruit.position.x < 80);
        assert!(0 <= fruit.position.y && fruit.position.y < 24);
    }
}

#[test]
fn spawn_draws_both_kinds() {
    let boundaries = Boundaries::new(0, 0, 80, 24);
    let mut berries = 0;
    let mut fruits = 0;
    for _ in 0..400 {
        match Food::new(&boundaries).kind {
            FoodKind::Berry => berries += 1,
            FoodKind::Fruit => fruits += 1,
        }
    }
    assert!(berries > 0);
    assert!(fruits > 0);
}

#[test]
fn tick_moves_the_snake() {
    let boundaries = Boundaries::new(0, 0, 80, 24);
    let food = Food::_new(FoodKind::Berry, Point::new(40, 12));
    let mut snake = Snake::new();
    let outcome = tick(&mut snake, &Point::new(1, 0), &food, &boundaries);
    assert_eq!(outcome, TickOutcome::Moved);
    assert_eq!(snake.body, vec![Point::new(3, 1)]);
    assert_eq!(snake.direction, Point::new(1, 0));
    assert_eq!(snake.speed, 10);
}

#[test]
fn tick_feeds_the_snake() {
    let boundaries = Boundaries::new(0, 0, 80, 24);
    let food = Food::_new(FoodKind::Fruit, Point::new(3, 1));
    let mut snake = Snake::new();
    let outcome = tick(&mut snake, &Point::new(1, 0), &food, &boundaries);
    assert_eq!(outcome, TickOutcome::Fed);
    assert_eq!(snake.body, vec![Point::new(3, 1), Point::new(3, 1), Point::new(3, 1)]);
    assert_eq!(snake.speed, 11);
}

#[test]
fn tick_ends_at_a_wall_before_eating() {
    let boundaries = Boundaries::new(0, 0, 3, 24);
    let food = Food::_new(FoodKind::Fruit, Point::new(3, 1));
    let mut snake = Snake::new();
    let outcome = tick(&mut snake, &Point::new(1, 0), &food, &boundaries);
    assert_eq!(outcome, TickOutcome::Crashed);
    assert_eq!(snake.body, vec![Point::new(3, 1)]);
    assert_eq!(snake.speed, 10);
}

#[test]
fn tick_ends_when_the_snake_runs_into_itself() {
    let boundaries = Boundaries::new(0, 0, 80, 24);
    let food = Food::_new(FoodKind::Berry, Point::new(40, 12));
    let mut snake = Snake {
        body: vec![
            Point::new(5, 3),
            Point::new(5, 4),
            Point::new(7, 4),
            Point::new(7, 3),
            Point::new(7, 2),
            Point::new(5, 2),
            Point::new(3, 2),
        ],
        direction: Point::new(0, -1),
        speed: 15,
    };
    let outcome = tick(&mut snake, &Point::new(0, -1), &food, &boundaries);
    assert_eq!(outcome, TickOutcome::Crashed);
    assert_eq!(snake.body[0], Point::new(5, 2));
    assert_eq!(snake.body[6], Point::new(5, 2));
    assert_eq!(snake.body.len(), 7);
    assert_eq!(snake.speed, 15);
}

#[test]
fn frame_delay_shrinks_with_speed() {
    let mut snake = Snake::new();
    assert_eq!(frame_delay_millis(&snake), 125);
    snake.speed_up();
    assert_eq!(frame_delay_millis(&snake), 113);
    snake.speed = 100;
    assert_eq!(frame_delay_millis(&snake), 12);
}

#[test]
fn each_kind_has_its_colour_pair() {
    assert_eq!(SNAKE_COLOR_PAIR, 1);
    assert_eq!(BERRY_COLOR_PAIR, 2);
    assert_eq!(FRUIT_COLOR_PAIR, 3);
    assert_eq!(get_food_color_code(&Food::_new(FoodKind::Berry, Point::new(1, 1))), 2);
    assert_eq!(get_food_color_code(&Food::_new(FoodKind::Fruit, Point::new(1, 1))), 3);
}
