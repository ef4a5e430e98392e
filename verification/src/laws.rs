//! Laws of the game, proved of the steps' mathematical descriptions.

use vstd::prelude::*;
use vstd::set_lib::{lemma_int_range, set_int_range};
use crate::collisions::{
    eaten, head_size, hits_any_wall, hits_wall, lemma_eaten_push, lemma_total_points_nonnegative,
    total_points, uneaten,
};
use crate::components::{Food, FoodType, PlayerView};
use crate::constants::{
    EAT_DISTANCE, FOOD_SIDE, HEAD_LIMIT_X, HEAD_LIMIT_Y, NUDGE, PLAYER_SIDE, ROLL_BOUND,
    SEGMENT_SPACING, SPAWN_LIMIT_X, SPAWN_LIMIT_Y, UNITS_PER_PIXEL, WALL_THICKNESS,
    WINDOW_BOUND_X, WINDOW_BOUND_Y, WINDOW_HEIGHT, WINDOW_WIDTH,
};
use crate::controls::head_in_bounds;
use crate::frame::TickInput;
use crate::geometry::{Direction, Vector2};
use crate::setup::{arena_walls, initial_player, initial_world};
use crate::spawner::{lemma_after_spawns, tier_for_roll};
use crate::world::WorldView;

verus! {

impl PlayerView {
    /// The snake after one movement step for each item of `ticks`, the
    /// items being the elapsed microseconds, with nothing eaten between.
    pub open spec fn moved_through(self, ticks: Seq<u64>) -> PlayerView
        decreases ticks.len(),
    {
        if ticks.len() == 0 {
            self
        } else {
            self.moved_through(ticks.drop_last()).moved(ticks.last())
        }
    }
}

/// The rolls below the roll bound that give `tier`.
pub open spec fn rolls_giving(tier: FoodType) -> Set<int> {
    Set::new(|roll: int| 0 <= roll < ROLL_BOUND && tier_for_roll(roll as i64) == tier)
}

/// While the game is over, input and movement leave the world as it is,
/// the snake's head and every segment in their places, whatever the command
/// and however long the tick. The head is taken to lie in bounds, where
/// every step leaves it.
pub proof fn law_game_over_freezes_snake(
    world: WorldView,
    command: Option<Direction>,
    elapsed_micros: u64,
)
    requires
        !world.game_state.running,
        head_in_bounds(world.player.position),
    ensures
        world.after_input(command).after_move(elapsed_micros) == world,
{
}

/// A whole tick of a game that is over, without a restart, leaves the game
/// over, the head in its place and heading as before, and every segment in
/// its place; segments are at most added behind them.
pub proof fn law_game_over_tick_keeps_snake(
    world: WorldView,
    input: TickInput,
    elapsed_micros: u64,
    new_foods: Seq<Food>,
    restart_food: Vector2,
)
    requires
        !world.game_state.running,
        head_in_bounds(world.player.position),
        !input.restart,
    ensures
        ({
            let after = world.after_tick(input, elapsed_micros, new_foods, restart_food);
            let count = world.player.segments.len() as int;
            &&& !after.game_state.running
            &&& after.player.position == world.player.position
            &&& after.player.direction == world.player.direction
            &&& after.player.segments.len() == count + new_foods.len()
            &&& after.player.segments.subrange(0, count) == world.player.segments
        }),
{
    law_game_over_freezes_snake(world, input.command, elapsed_micros);
    lemma_after_spawns(world.after_food_check(), new_foods);
}

/// Every food item is either eaten or left.
pub proof fn lemma_eaten_or_left(foods: Seq<Food>, head: Vector2)
    ensures
        eaten(foods, head).len() + uneaten(foods, head).len() == foods.len(),
    decreases foods.len(),
{
    reveal(Seq::filter);
    if foods.len() > 0 {
        lemma_eaten_or_left(foods.drop_last(), head);
        lemma_eaten_push(foods.drop_last(), foods.last(), head);
    }
}

/// The food check and the spawner together answer each eaten food item
/// with exactly one new food item and exactly one new segment, and so they
/// answer each notice that was pending before: the food items left are
/// followed by the new ones, there are as many food items afterwards as
/// there were food items and pending notices before, the chain is longer by
/// the number of items eaten and of notices pending, no notice is left, and
/// a score that could take the points of the items eaten has gained them.
pub proof fn law_one_food_and_one_segment_per_meal(world: WorldView, new_foods: Seq<Food>)
    requires
        new_foods.len() == world.after_food_check().food_eaten_events.len(),
    ensures
        ({
            let after = world.after_food_check().after_spawns(new_foods);
            let meals = eaten(world.foods, world.player.position);
            let pending = world.food_eaten_events.len();
            &&& new_foods.len() == pending + meals.len()
            &&& after.foods == uneaten(world.foods, world.player.position) + new_foods
            &&& after.foods.len() == world.foods.len() + pending
            &&& after.player.segments.len() == world.player.segments.len() + pending
                + meals.len()
            &&& after.food_eaten_events.len() == 0
            &&& world.score_fits() ==> after.score.value == world.score.value + total_points(
                meals,
            )
        }),
{
    lemma_eaten_or_left(world.foods, world.player.position);
    lemma_total_points_nonnegative(eaten(world.foods, world.player.position));
    lemma_after_spawns(world.after_food_check(), new_foods);
}

/// A world with one food item and no pending notice has one food item and
/// no pending notice after every tick.
pub proof fn law_one_food_outstanding(
    world: WorldView,
    input: TickInput,
    elapsed_micros: u64,
    new_foods: Seq<Food>,
    restart_food: Vector2,
    after: WorldView,
)
    requires
        world.foods.len() == 1,
        world.food_eaten_events.len() == 0,
        world.ticks_to(input, elapsed_micros, new_foods, restart_food, after),
    ensures
        after.foods.len() == 1,
        after.food_eaten_events.len() == 0,
{
    let moved = world.after_input(input.command).after_move(elapsed_micros);
    lemma_eaten_or_left(moved.foods, moved.player.position);
    lemma_after_spawns(moved.after_food_check(), new_foods);
}

/// A game that was just set up is at rest.
pub proof fn law_new_game_is_at_rest(food_position: Vector2)
    ensures
        initial_world(food_position).at_rest(),
{
}

/// Every tick leaves a world that was at rest at rest: one food item, no
/// pending notice, the head in bounds, the score line showing the score,
/// the banner shown exactly when the game is over.
pub proof fn law_ticks_keep_the_world_at_rest(
    world: WorldView,
    input: TickInput,
    elapsed_micros: u64,
    new_foods: Seq<Food>,
    restart_food: Vector2,
    after: WorldView,
)
    requires
        world.at_rest(),
        world.ticks_to(input, elapsed_micros, new_foods, restart_food, after),
    ensures
        after.at_rest(),
{
    let moved = world.after_input(input.command).after_move(elapsed_micros);
    lemma_eaten_or_left(moved.foods, moved.player.position);
    lemma_after_spawns(moved.after_food_check(), new_foods);
}

/// After every tick the head lies in bounds.
pub proof fn law_head_stays_in_bounds(
    world: WorldView,
    input: TickInput,
    elapsed_micros: u64,
    new_foods: Seq<Food>,
    restart_food: Vector2,
)
    ensures
        head_in_bounds(
            world.after_tick(input, elapsed_micros, new_foods, restart_food).player.position,
        ),
{
    let moved = world.after_input(input.command).after_move(elapsed_micros);
    lemma_after_spawns(moved.after_food_check(), new_foods);
}

/// Movement is a pure shift of the chain: after one step of a running
/// snake the chain is as long as before, its first segment lies where the
/// head was, and every other segment lies where the one before it was.
pub proof fn law_segments_shift(player: PlayerView, elapsed_micros: u64, i: int)
    requires
        0 <= i < player.segments.len(),
    ensures
        player.moved(elapsed_micros).segments.len() == player.segments.len(),
        i == 0 ==> player.moved(elapsed_micros).segments[i].position == player.position,
        i > 0 ==> player.moved(elapsed_micros).segments[i] == player.segments[i - 1],
{
}

/// After any number of steps with nothing eaten, a segment that is further
/// down the chain than steps were made lies where the segment that many
/// places before it was at first; any other segment lies where the head was
/// as many steps ago as the segment has segments before it, and one more.
pub proof fn law_segments_shift_through(player: PlayerView, ticks: Seq<u64>, i: int)
    requires
        0 <= i < player.segments.len(),
    ensures
        player.moved_through(ticks).segments.len() == player.segments.len(),
        i >= ticks.len() ==> player.moved_through(ticks).segments[i] == player.segments[i
            - ticks.len()],
        i < ticks.len() ==> player.moved_through(ticks).segments[i].position
            == player.moved_through(ticks.take(ticks.len() - 1 - i)).position,
    decreases ticks.len(),
{
    let steps = ticks.len() as int;
    if steps > 0 {
        let earlier = ticks.drop_last();
        law_segments_shift_through(player, earlier, i);
        if i > 0 {
            law_segments_shift_through(player, earlier, i - 1);
            if i < steps {
                assert(ticks.take(steps - 1 - i) == earlier.take(steps - 1 - i));
            }
        }
    }
}

/// Of the hundred rolls, seventy-one give a regular food item, twenty a
/// special one and nine a rare one.
pub proof fn law_tier_shares()
    ensures
        rolls_giving(FoodType::regular()).finite(),
        rolls_giving(FoodType::special()).finite(),
        rolls_giving(FoodType::rare()).finite(),
        rolls_giving(FoodType::regular()).len() == 71,
        rolls_giving(FoodType::special()).len() == 20,
        rolls_giving(FoodType::rare()).len() == 9,
{
    lemma_int_range(0, 71);
    lemma_int_range(71, 91);
    lemma_int_range(91, 100);
    assert(rolls_giving(FoodType::regular()) =~= set_int_range(0, 71));
    assert(rolls_giving(FoodType::special()) =~= set_int_range(71, 91));
    assert(rolls_giving(FoodType::rare()) =~= set_int_range(91, 100));
}

/// A restart of a game that is over gives, whatever the game was like: a
/// running game, a score of zero, the initial snake without a segment, and
/// one regular food item. The walls stay as they were.
pub proof fn law_restart_resets(world: WorldView, food_position: Vector2)
    requires
        !world.game_state.running,
    ensures
        ({
            let after = world.after_restart(true, food_position);
            &&& after.game_state.running
            &&& after.score.value == 0
            &&& after.player == initial_player()
            &&& after.player.segments.len() == 0
            &&& after.foods.len() == 1
            &&& after.foods[0].position == food_position
            &&& after.foods[0].food_type == FoodType::regular()
            &&& !after.game_over_banner
            &&& after.walls == world.walls
        }),
{
}

/// A restart asked for while the game is running changes nothing.
pub proof fn law_restart_ignored_while_running(world: WorldView, food_position: Vector2)
    requires
        world.game_state.running,
    ensures
        world.after_restart(true, food_position) == world,
{
}

/// A tick of a running game in which the moved head overlaps a wall, and
/// no restart is asked for, ends with the game over and the banner shown.
pub proof fn law_wall_hit_ends_game(
    world: WorldView,
    input: TickInput,
    elapsed_micros: u64,
    new_foods: Seq<Food>,
    restart_food: Vector2,
)
    requires
        world.game_state.running,
        !input.restart,
        hits_any_wall(
            world.after_input(input.command).after_move(elapsed_micros).player,
            world.walls,
        ),
    ensures
        !world.after_tick(input, elapsed_micros, new_foods, restart_food).game_state.running,
        world.after_tick(input, elapsed_micros, new_foods, restart_food).game_over_banner,
{
    let moved = world.after_input(input.command).after_move(elapsed_micros);
    let fed = moved.after_food_check();
    lemma_after_spawns(fed, new_foods);
    let grown = fed.after_spawns(new_foods);
    let i = choose|i: int|
        0 <= i < world.walls.len() && hits_wall(moved.player, #[trigger] world.walls[i]);
    assert(hits_wall(grown.player, grown.walls[i]));
}

/// A head of the player side that lies in bounds overlaps a wall of the
/// arena exactly when it lies at one of its limits: there its edge touches
/// the wall's edge, and nowhere short of the limit does it reach a wall.
pub proof fn law_walls_are_met_at_the_limits(player: PlayerView)
    requires
        head_in_bounds(player.position),
        head_size(player) == (Vector2 { x: PLAYER_SIDE, y: PLAYER_SIDE }),
    ensures
        hits_any_wall(player, arena_walls()) <==> (player.position.x == -HEAD_LIMIT_X
            || player.position.x == HEAD_LIMIT_X || player.position.y == -HEAD_LIMIT_Y
            || player.position.y == HEAD_LIMIT_Y),
{
    let walls = arena_walls();
    assert(hits_wall(player, walls[0]) <==> player.position.x == -HEAD_LIMIT_X);
    assert(hits_wall(player, walls[1]) <==> player.position.x == HEAD_LIMIT_X);
    assert(hits_wall(player, walls[2]) <==> player.position.y == HEAD_LIMIT_Y);
    assert(hits_wall(player, walls[3]) <==> player.position.y == -HEAD_LIMIT_Y);
}

/// The sizes are whole pixels, and the limits follow from the arena's size
/// and the wall thickness: the head stays half the arena less one wall
/// thickness from the centre, and food is placed in the arena less one wall
/// thickness on each side.
pub proof fn law_limits_follow_from_the_arena()
    ensures
        WINDOW_WIDTH == 800 * UNITS_PER_PIXEL,
        WINDOW_HEIGHT == 600 * UNITS_PER_PIXEL,
        WALL_THICKNESS == 50 * UNITS_PER_PIXEL,
        PLAYER_SIDE == 50 * UNITS_PER_PIXEL,
        FOOD_SIDE == 50 * UNITS_PER_PIXEL,
        SEGMENT_SPACING == 30 * UNITS_PER_PIXEL,
        NUDGE == 5 * UNITS_PER_PIXEL,
        EAT_DISTANCE == 35 * UNITS_PER_PIXEL,
        HEAD_LIMIT_X == WINDOW_BOUND_X / 2 - WALL_THICKNESS,
        HEAD_LIMIT_Y == WINDOW_BOUND_Y / 2 - WALL_THICKNESS,
        SPAWN_LIMIT_X == (WINDOW_WIDTH - 2 * WALL_THICKNESS) / 2,
        SPAWN_LIMIT_Y == (WINDOW_HEIGHT - 2 * WALL_THICKNESS) / 2,
{
}

} // verus!
