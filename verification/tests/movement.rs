use snake_game::components::Segment;
use snake_game::constants::{HEAD_LIMIT_X, HEAD_LIMIT_Y, NUDGE, UNITS_PER_PIXEL};
use snake_game::controls::{
    bind_controls, check_boundary_collision, move_player, select_command,
};
use snake_game::geometry::{Direction, Vector2};
use snake_game::setup::setup;
use snake_game::world::World;

const U: i64 = UNITS_PER_PIXEL;

fn at(x: i64, y: i64) -> Vector2 {
    Vector2 { x, y }
}

fn fresh() -> World {
    let mut world = setup();
    world.foods.clear();
    world
}

#[test]
fn head_moves_by_speed_times_elapsed_time() {
    let mut world = fresh();
    move_player(&mut world, 1_000_000);
    assert_eq!(world.player.position, at(250 * U, 0));
    assert_eq!(world.player.direction, Direction::Right);
    assert!(world.player.segments.is_empty());
}

#[test]
fn head_moves_by_a_fraction_of_a_second() {
    let mut world = fresh();
    move_player(&mut world, 16_667);
    assert_eq!(world.player.position, at(4_166_750, 0));
    move_player(&mut world, 16_667);
    assert_eq!(world.player.position, at(8_333_500, 0));
}

#[test]
fn head_moves_along_each_heading() {
    for (direction, expected) in [
        (Direction::Left, at(-100 * U, 0)),
        (Direction::Right, at(100 * U, 0)),
        (Direction::Up, at(0, 100 * U)),
        (Direction::Down, at(0, -100 * U)),
    ] {
        let mut world = fresh();
        world.player.direction = direction;
        move_player(&mut world, 400_000);
        assert_eq!(world.player.position, expected);
    }
}

#[test]
fn head_stops_at_each_limit() {
    for (direction, expected) in [
        (Direction::Left, at(-HEAD_LIMIT_X, 0)),
        (Direction::Right, at(HEAD_LIMIT_X, 0)),
        (Direction::Up, at(0, HEAD_LIMIT_Y)),
        (Direction::Down, at(0, -HEAD_LIMIT_Y)),
    ] {
        let mut world = fresh();
        world.player.direction = direction;
        move_player(&mut world, 2_000_000);
        assert_eq!(world.player.position, expected);
    }
    assert_eq!(HEAD_LIMIT_X, 350 * U);
    assert_eq!(HEAD_LIMIT_Y, 250 * U);
}

#[test]
fn zero_elapsed_time_keeps_the_head_and_shifts_the_chain() {
    let mut world = fresh();
    world.player.position = at(10 * U, 20 * U);
    world.player.segments = vec![Segment { position: at(1, 2) }, Segment { position: at(3, 4) }];
    move_player(&mut world, 0);
    assert_eq!(world.player.position, at(10 * U, 20 * U));
    assert_eq!(
        world.player.segments,
        vec![Segment { position: at(10 * U, 20 * U) }, Segment { position: at(1, 2) }]
    );
}

#[test]
fn the_largest_step_does_not_overflow() {
    let mut world = fresh();
    world.player.speed = i64::MAX;
    move_player(&mut world, u64::MAX);
    assert_eq!(world.player.position, at(HEAD_LIMIT_X, 0));

    let mut world = fresh();
    world.player.speed = i64::MIN;
    world.player.position = at(i64::MIN, i64::MAX);
    move_player(&mut world, u64::MAX);
    assert_eq!(world.player.position, at(-HEAD_LIMIT_X, HEAD_LIMIT_Y));

    let mut world = fresh();
    world.player.speed = i64::MIN;
    world.player.direction = Direction::Left;
    world.player.position = at(i64::MAX, 0);
    move_player(&mut world, u64::MAX);
    assert_eq!(world.player.position, at(HEAD_LIMIT_X, 0));
}

#[test]
fn a_negative_speed_moves_the_head_backwards() {
    let mut world = fresh();
    world.player.speed = -100;
    move_player(&mut world, 500_000);
    assert_eq!(world.player.position, at(-50 * U, 0));
}

#[test]
fn each_segment_takes_the_place_of_the_one_before_it() {
    let mut world = fresh();
    world.player.position = at(0, 0);
    world.player.segments = vec![
        Segment { position: at(-30 * U, 0) },
        Segment { position: at(-60 * U, 7) },
        Segment { position: at(-90 * U, 9) },
    ];
    move_player(&mut world, 100_000);
    assert_eq!(world.player.position, at(25 * U, 0));
    assert_eq!(
        world.player.segments,
        vec![
            Segment { position: at(0, 0) },
            Segment { position: at(-30 * U, 0) },
            Segment { position: at(-60 * U, 7) },
        ]
    );
}

#[test]
fn the_chain_follows_the_head_with_one_tick_of_delay() {
    let mut world = fresh();
    let start = vec![
        Segment { position: at(-1, -1) },
        Segment { position: at(-2, -2) },
        Segment { position: at(-3, -3) },
        Segment { position: at(-4, -4) },
    ];
    world.player.segments = start.clone();
    let ticks: [u64; 3] = [100_000, 40_000, 1_000_000];
    let mut heads = vec![world.player.position];
    for elapsed in ticks {
        let before = world.player.clone();
        move_player(&mut world, elapsed);
        heads.push(world.player.position);
        assert_eq!(world.player.segments.len(), before.segments.len());
        assert_eq!(world.player.segments[0].position, before.position);
        for i in 1..before.segments.len() {
            assert_eq!(world.player.segments[i], before.segments[i - 1]);
        }
    }
    assert_eq!(heads, vec![at(0, 0), at(25 * U, 0), at(35 * U, 0), at(285 * U, 0)]);
    // After three ticks the first three segments hold the head's places of
    // two, one and no ticks before the last, and the fourth holds what the
    // first held at the start.
    assert_eq!(world.player.segments[0].position, heads[2]);
    assert_eq!(world.player.segments[1].position, heads[1]);
    assert_eq!(world.player.segments[2].position, heads[0]);
    assert_eq!(world.player.segments[3], start[0]);
}

#[test]
fn a_game_that_is_over_keeps_the_snake_still() {
    let mut world = fresh();
    world.player.position = at(12 * U, -7 * U);
    world.player.segments = vec![Segment { position: at(5, 6) }, Segment { position: at(7, 8) }];
    world.game_state.running = false;
    let before = world.clone();
    move_player(&mut world, 1_000_000);
    assert_eq!(world, before);
    bind_controls(&mut world, Some(Direction::Up));
    assert_eq!(world, before);
    move_player(&mut world, 5_000_000);
    assert_eq!(world, before);
}

#[test]
fn a_game_that_is_over_still_keeps_the_head_in_bounds() {
    let mut world = fresh();
    world.player.position = at(400 * U, -300 * U);
    world.player.segments = vec![Segment { position: at(5, 6) }];
    world.game_state.running = false;
    move_player(&mut world, 1_000_000);
    assert_eq!(world.player.position, at(350 * U, -250 * U));
    assert_eq!(world.player.segments, vec![Segment { position: at(5, 6) }]);
    assert!(!world.game_state.running);
}

#[test]
fn the_reverse_command_is_rejected() {
    let mut world = fresh();
    assert_eq!(world.player.direction, Direction::Right);
    bind_controls(&mut world, Some(Direction::Left));
    assert_eq!(world.player.direction, Direction::Right);
    assert_eq!(world.player.position, at(0, 0));
}

#[test]
fn an_accepted_command_turns_and_nudges_the_head() {
    let mut world = fresh();
    bind_controls(&mut world, Some(Direction::Up));
    assert_eq!(world.player.direction, Direction::Up);
    assert_eq!(world.player.position, at(0, 5 * U));
    assert_eq!(NUDGE, 5 * U);
}

#[test]
fn every_heading_rejects_only_its_reverse() {
    let all = [Direction::Left, Direction::Right, Direction::Up, Direction::Down];
    for heading in all {
        for command in all {
            let mut world = fresh();
            world.player.direction = heading;
            bind_controls(&mut world, Some(command));
            if command == heading.reverse() {
                assert_eq!(world.player.direction, heading);
                assert_eq!(world.player.position, at(0, 0));
            } else {
                assert_eq!(world.player.direction, command);
                let step = command.unit();
                assert_eq!(world.player.position, at(step.x * NUDGE, step.y * NUDGE));
            }
        }
    }
}

#[test]
fn directions_reverse_and_have_unit_vectors() {
    assert_eq!(Direction::Left.reverse(), Direction::Right);
    assert_eq!(Direction::Right.reverse(), Direction::Left);
    assert_eq!(Direction::Up.reverse(), Direction::Down);
    assert_eq!(Direction::Down.reverse(), Direction::Up);
    assert_eq!(Direction::Left.unit(), at(-1, 0));
    assert_eq!(Direction::Right.unit(), at(1, 0));
    assert_eq!(Direction::Up.unit(), at(0, 1));
    assert_eq!(Direction::Down.unit(), at(0, -1));
}

#[test]
fn the_heading_itself_is_accepted_and_nudges_again() {
    let mut world = fresh();
    bind_controls(&mut world, Some(Direction::Right));
    bind_controls(&mut world, Some(Direction::Right));
    assert_eq!(world.player.direction, Direction::Right);
    assert_eq!(world.player.position, at(10 * U, 0));
}

#[test]
fn without_a_command_only_the_bounds_are_kept() {
    let mut world = fresh();
    world.player.position = at(3 * U, 4 * U);
    bind_controls(&mut world, None);
    assert_eq!(world.player.position, at(3 * U, 4 * U));
    assert_eq!(world.player.direction, Direction::Right);
    world.player.position = at(-900 * U, 900 * U);
    bind_controls(&mut world, None);
    assert_eq!(world.player.position, at(-350 * U, 250 * U));
}

#[test]
fn a_nudge_stops_at_the_limit() {
    let mut world = fresh();
    world.player.position = at(348 * U, 0);
    bind_controls(&mut world, Some(Direction::Right));
    assert_eq!(world.player.position, at(350 * U, 0));
    world.player.position = at(i64::MAX, i64::MIN);
    bind_controls(&mut world, Some(Direction::Down));
    assert_eq!(world.player.position, at(350 * U, -250 * U));
    assert_eq!(world.player.direction, Direction::Down);
}

#[test]
fn commands_are_ignored_when_the_game_is_over() {
    let mut world = fresh();
    world.game_state.running = false;
    world.player.position = at(900 * U, 0);
    bind_controls(&mut world, Some(Direction::Up));
    assert_eq!(world.player.direction, Direction::Right);
    assert_eq!(world.player.position, at(900 * U, 0));
}

#[test]
fn the_boundary_check_limits_each_coordinate() {
    let mut p = at(351 * U, -251 * U);
    check_boundary_collision(&mut p);
    assert_eq!(p, at(350 * U, -250 * U));
    let mut p = at(-350 * U, 250 * U);
    check_boundary_collision(&mut p);
    assert_eq!(p, at(-350 * U, 250 * U));
    let mut p = at(i64::MIN, i64::MAX);
    check_boundary_collision(&mut p);
    assert_eq!(p, at(-350 * U, 250 * U));
    let mut p = at(17, -19);
    check_boundary_collision(&mut p);
    assert_eq!(p, at(17, -19));
}

#[test]
fn the_first_pressed_key_that_is_obeyed_gives_the_command() {
    let r = Direction::Right;
    assert_eq!(select_command(false, false, false, false, r), None);
    assert_eq!(select_command(true, false, false, false, r), None);
    assert_eq!(select_command(true, true, false, false, r), Some(Direction::Right));
    assert_eq!(select_command(true, false, true, true, r), Some(Direction::Up));
    assert_eq!(select_command(false, false, true, true, r), Some(Direction::Up));
    assert_eq!(select_command(false, false, false, true, r), Some(Direction::Down));
    assert_eq!(select_command(true, true, true, true, Direction::Up), Some(Direction::Left));
    assert_eq!(select_command(false, true, true, true, Direction::Left), Some(Direction::Up));
    assert_eq!(select_command(false, false, true, true, Direction::Down), Some(Direction::Down));
    assert_eq!(select_command(false, false, false, true, Direction::Up), None);
}
