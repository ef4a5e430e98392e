use snake_game::components::{Color, Food, FoodEatenEvent, FoodType, Segment};
use snake_game::constants::{
    SEGMENT_SPACING, SPAWN_LIMIT_X, SPAWN_LIMIT_Y, UNITS_PER_PIXEL,
};
use snake_game::geometry::{clamp_to, hypot_floor, step_behind, step_toward, Direction, Vector2};
use snake_game::setup::{random_spawn_position, setup};
use snake_game::spawner::{
    food_type_for_roll, spawn_food, spawn_food_at_random_position, trailing_position,
};
use snake_game::world::World;

const U: i64 = UNITS_PER_PIXEL;

fn at(x: i64, y: i64) -> Vector2 {
    Vector2 { x, y }
}

fn fresh() -> World {
    let mut world = setup();
    world.foods.clear();
    world
}

fn in_spawn_area(p: Vector2) -> bool {
    -SPAWN_LIMIT_X <= p.x && p.x < SPAWN_LIMIT_X && -SPAWN_LIMIT_Y <= p.y && p.y < SPAWN_LIMIT_Y
}

fn is_standard_tier(tier: FoodType) -> bool {
    tier == FoodType::regular() || tier == FoodType::special() || tier == FoodType::rare()
}

#[test]
fn the_tiers_have_their_points_and_colours() {
    assert_eq!(
        FoodType::regular(),
        FoodType::Regular { score: 1, color: Color { red: 0, green: 255, blue: 0 } }
    );
    assert_eq!(
        FoodType::special(),
        FoodType::Special { score: 5, color: Color { red: 0, green: 0, blue: 255 } }
    );
    assert_eq!(
        FoodType::rare(),
        FoodType::Rare { score: 10, color: Color { red: 255, green: 0, blue: 0 } }
    );
    assert_eq!(FoodType::regular().points(), 1);
    assert_eq!(FoodType::special().points(), 5);
    assert_eq!(FoodType::rare().points(), 10);
    assert_eq!(FoodType::special().color(), Color { red: 0, green: 0, blue: 255 });
}

#[test]
fn rolls_give_tiers_by_their_ranges() {
    assert_eq!(food_type_for_roll(0), FoodType::regular());
    assert_eq!(food_type_for_roll(35), FoodType::regular());
    assert_eq!(food_type_for_roll(70), FoodType::regular());
    assert_eq!(food_type_for_roll(71), FoodType::special());
    assert_eq!(food_type_for_roll(90), FoodType::special());
    assert_eq!(food_type_for_roll(91), FoodType::rare());
    assert_eq!(food_type_for_roll(99), FoodType::rare());
}

#[test]
fn the_hundred_rolls_split_into_71_and_20_and_9() {
    let mut regular = 0;
    let mut special = 0;
    let mut rare = 0;
    for roll in 0..100 {
        match food_type_for_roll(roll) {
            FoodType::Regular { .. } => regular += 1,
            FoodType::Special { .. } => special += 1,
            FoodType::Rare { .. } => rare += 1,
        }
    }
    assert_eq!((regular, special, rare), (71, 20, 9));
}

#[test]
fn rolls_outside_the_hundred_give_the_rare_tier() {
    assert_eq!(food_type_for_roll(100), FoodType::rare());
    assert_eq!(food_type_for_roll(-1), FoodType::rare());
    assert_eq!(food_type_for_roll(i64::MAX), FoodType::rare());
    assert_eq!(food_type_for_roll(i64::MIN), FoodType::rare());
}

#[test]
fn tier_frequencies_follow_the_weights() {
    let mut world = fresh();
    let draws = 100_000;
    for _ in 0..draws {
        spawn_food_at_random_position(&mut world);
    }
    assert_eq!(world.foods.len(), draws);
    let mut regular = 0;
    let mut special = 0;
    let mut rare = 0;
    for food in &world.foods {
        assert!(in_spawn_area(food.position));
        assert!(is_standard_tier(food.food_type));
        match food.food_type {
            FoodType::Regular { .. } => regular += 1,
            FoodType::Special { .. } => special += 1,
            FoodType::Rare { .. } => rare += 1,
        }
    }
    // One percent of tolerance, more than six standard deviations.
    assert!((70_000..=72_000).contains(&regular), "regular: {}", regular);
    assert!((19_000..=21_000).contains(&special), "special: {}", special);
    assert!((8_000..=10_000).contains(&rare), "rare: {}", rare);
}

#[test]
fn random_places_lie_in_the_spawn_area_and_differ() {
    let first = random_spawn_position();
    let mut differs_in_x = false;
    let mut differs_in_y = false;
    let mut left_half = false;
    let mut right_half = false;
    let mut lower_half = false;
    let mut upper_half = false;
    for _ in 0..2_000 {
        let p = random_spawn_position();
        assert!(in_spawn_area(p));
        differs_in_x |= p.x != first.x;
        differs_in_y |= p.y != first.y;
        left_half |= p.x < 0;
        right_half |= p.x >= 0;
        lower_half |= p.y < 0;
        upper_half |= p.y >= 0;
    }
    assert!(differs_in_x && differs_in_y);
    assert!(left_half && right_half && lower_half && upper_half);
}

#[test]
fn a_spawned_food_item_joins_the_others_at_the_end() {
    let mut world = fresh();
    let first = Food { position: at(1, 2), food_type: FoodType::rare() };
    world.foods = vec![first];
    let before = world.clone();
    spawn_food_at_random_position(&mut world);
    assert_eq!(world.foods.len(), 2);
    assert_eq!(world.foods[0], first);
    assert!(in_spawn_area(world.foods[1].position));
    assert!(is_standard_tier(world.foods[1].food_type));
    world.foods.pop();
    assert_eq!(world, before);
}

#[test]
fn the_first_segment_trails_the_head() {
    let mut world = fresh();
    world.player.position = at(250 * U, 0);
    assert_eq!(SEGMENT_SPACING, 30 * U);
    assert_eq!(trailing_position(&world.player), at(220 * U, 0));
    world.player.direction = Direction::Up;
    assert_eq!(trailing_position(&world.player), at(250 * U, -30 * U));
    world.player.direction = Direction::Left;
    assert_eq!(trailing_position(&world.player), at(280 * U, 0));
    world.player.direction = Direction::Down;
    assert_eq!(trailing_position(&world.player), at(250 * U, 30 * U));
}

#[test]
fn the_second_segment_trails_the_first_against_the_heading() {
    let mut world = fresh();
    world.player.position = at(250 * U, 0);
    world.player.direction = Direction::Up;
    world.player.segments = vec![Segment { position: at(100 * U, 100 * U) }];
    assert_eq!(trailing_position(&world.player), at(100 * U, 70 * U));
}

#[test]
fn a_later_segment_is_put_one_spacing_from_the_last_toward_the_one_before() {
    let mut world = fresh();
    world.player.segments =
        vec![Segment { position: at(30 * U, 40 * U) }, Segment { position: at(0, 0) }];
    assert_eq!(trailing_position(&world.player), at(18 * U, 24 * U));
    world.player.segments = vec![
        Segment { position: at(7, 7) },
        Segment { position: at(0, 5 * U) },
        Segment { position: at(25 * U, 0) },
    ];
    assert_eq!(trailing_position(&world.player), at(25 * U - 29_417_420, 5_883_484));
}

#[test]
fn steps_along_a_line_round_toward_zero() {
    assert_eq!(step_toward(at(3, 4), at(0, 0), 7), at(-1, -1));
    assert_eq!(step_toward(at(-3, 4), at(0, 0), 7), at(1, -1));
    assert_eq!(step_toward(at(1, 1), at(0, 0), 10), at(-9, -9));
    assert_eq!(step_toward(at(10, 10), at(7, 14), -5), at(13, 6));
    assert_eq!(step_toward(at(5, 5), at(5, 5), 30), at(5, 5));
    assert_eq!(step_toward(at(5, 5), at(5, 9), 0), at(5, 5));
}

#[test]
fn steps_stop_at_the_ends_of_the_coordinates() {
    let far = i64::MAX;
    let low = i64::MIN;
    assert_eq!(step_toward(at(far, 0), at(low, 0), far), at(0, 0));
    assert_eq!(step_toward(at(far, far), at(low, low), low), at(far, far));
    assert_eq!(step_toward(at(low, low), at(far, far), low), at(low, low));
    assert_eq!(step_toward(at(0, 0), at(1, 0), low), at(low, 0));
    assert_eq!(step_behind(at(low + 5, 0), Direction::Right, 30), at(low, 0));
    assert_eq!(step_behind(at(far - 5, 0), Direction::Left, 30), at(far, 0));
    assert_eq!(step_behind(at(0, far), Direction::Down, far), at(0, far));
    assert_eq!(step_behind(at(0, low), Direction::Up, far), at(0, low));
    assert_eq!(step_behind(at(0, 0), Direction::Right, low), at(far, 0));
    assert_eq!(step_behind(at(-1, 0), Direction::Left, low), at(low, 0));
}

#[test]
fn lengths_are_rounded_down() {
    assert_eq!(hypot_floor(0, 0), 0);
    assert_eq!(hypot_floor(3, 4), 5);
    assert_eq!(hypot_floor(4, 3), 5);
    assert_eq!(hypot_floor(1, 1), 1);
    assert_eq!(hypot_floor(0, 9), 9);
    assert_eq!(hypot_floor(2, 2), 2);
    assert_eq!(hypot_floor(5, 12), 13);
    assert_eq!(hypot_floor(5, 11), 12);
    assert_eq!(hypot_floor(25_000_000, 5_000_000), 25_495_097);
    assert_eq!(hypot_floor(u64::MAX, 0), u64::MAX as u128);
    assert_eq!(hypot_floor(u64::MAX, 1), u64::MAX as u128);
    assert_eq!(hypot_floor(u64::MAX, u64::MAX), 26_087_635_650_665_564_423);
}

#[test]
fn values_are_limited_to_their_range() {
    assert_eq!(clamp_to(5, 0, 10), 5);
    assert_eq!(clamp_to(-5, 0, 10), 0);
    assert_eq!(clamp_to(15, 0, 10), 10);
    assert_eq!(clamp_to(0, 0, 10), 0);
    assert_eq!(clamp_to(10, 0, 10), 10);
    assert_eq!(clamp_to(i128::MAX, i64::MIN, i64::MAX), i64::MAX);
    assert_eq!(clamp_to(i128::MIN, i64::MIN, i64::MAX), i64::MIN);
    assert_eq!(clamp_to(7, 7, 7), 7);
}

#[test]
fn the_spawner_rests_without_a_notice() {
    let mut world = setup();
    let before = world.clone();
    spawn_food(&mut world);
    assert_eq!(world, before);
}

#[test]
fn each_notice_is_answered_with_one_food_item_and_one_segment() {
    let mut world = fresh();
    world.player.position = at(250 * U, 0);
    world.food_eaten_events = vec![FoodEatenEvent];
    spawn_food(&mut world);
    assert!(world.food_eaten_events.is_empty());
    assert_eq!(world.foods.len(), 1);
    assert!(in_spawn_area(world.foods[0].position));
    assert!(is_standard_tier(world.foods[0].food_type));
    assert_eq!(world.player.segments, vec![Segment { position: at(220 * U, 0) }]);
    assert_eq!(world.player.position, at(250 * U, 0));
}

#[test]
fn several_notices_grow_the_chain_segment_by_segment() {
    let mut world = fresh();
    world.player.position = at(100 * U, 50 * U);
    world.player.direction = Direction::Up;
    let kept = Food { position: at(9, 9), food_type: FoodType::rare() };
    world.foods = vec![kept];
    world.score.value = 11;
    world.food_eaten_events = vec![FoodEatenEvent, FoodEatenEvent, FoodEatenEvent];
    spawn_food(&mut world);
    assert!(world.food_eaten_events.is_empty());
    assert_eq!(world.foods.len(), 4);
    assert_eq!(world.foods[0], kept);
    for food in &world.foods[1..] {
        assert!(in_spawn_area(food.position));
        assert!(is_standard_tier(food.food_type));
    }
    // The first lies behind the head, the second behind the first, and the
    // third one spacing from the second toward the first.
    assert_eq!(
        world.player.segments,
        vec![
            Segment { position: at(100 * U, 20 * U) },
            Segment { position: at(100 * U, -10 * U) },
            Segment { position: at(100 * U, 20 * U) },
        ]
    );
    assert_eq!(world.score.value, 11);
    assert_eq!(world.walls.len(), 4);
    assert!(world.game_state.running);
}
