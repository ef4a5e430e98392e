//! The food spawner: reward tiers by weighted chance, and the growth of the
//! snake that answers each eaten food item.

use vstd::prelude::*;
use crate::components::{Food, FoodType, Player, PlayerView, Segment};
use crate::constants::{REGULAR_MAX_ROLL, ROLL_BOUND, SPECIAL_MAX_ROLL};
use crate::geometry::{behind, step_behind, step_toward, toward, Vector2};
use crate::random::random_in_range;
use crate::setup::{in_spawn_area, random_spawn_position, spawn_food_item};
use crate::world::{World, WorldView};

verus! {

/// The reward tier that a roll gives: regular up to 70, special from 71 to
/// 90, rare for every other roll.
pub open spec fn tier_for_roll(roll: i64) -> FoodType {
    if 0 <= roll <= REGULAR_MAX_ROLL {
        FoodType::regular()
    } else if REGULAR_MAX_ROLL < roll <= SPECIAL_MAX_ROLL {
        FoodType::special()
    } else {
        FoodType::rare()
    }
}

/// Whether `food` is one that the spawner makes: inside the spawn area and
/// of one of the three tiers, each with its own points and colour.
pub open spec fn is_spawned_food(food: Food) -> bool {
    &&& in_spawn_area(food.position)
    &&& (food.food_type == FoodType::regular() || food.food_type == FoodType::special()
        || food.food_type == FoodType::rare())
}

impl PlayerView {
    /// Where the next segment is put. A snake without segments gets it one
    /// spacing behind the head, against the heading; a snake with one
    /// segment, one spacing behind that segment, against the heading; a
    /// longer one, one spacing away from the last segment toward the one
    /// before it.
    pub open spec fn trailing_position(self) -> Vector2 {
        let count = self.segments.len() as int;
        if count == 0 {
            behind(self.position, self.direction, self.segment_spacing)
        } else if count == 1 {
            behind(self.segments[0].position, self.direction, self.segment_spacing)
        } else {
            toward(
                self.segments[count - 1].position,
                self.segments[count - 2].position,
                self.segment_spacing,
            )
        }
    }

    /// The snake with one more segment at its trailing position.
    pub open spec fn grown(self) -> PlayerView {
        PlayerView {
            segments: self.segments.push(Segment { position: self.trailing_position() }),
            ..self
        }
    }
}

impl WorldView {
    /// The answer to one eaten food item: `food` is added, and the snake
    /// grows by one segment.
    pub open spec fn fed(self, food: Food) -> WorldView {
        WorldView { foods: self.foods.push(food), player: self.player.grown(), ..self }
    }

    /// The world once the spawner has answered one notice for each item of
    /// `new_foods`, in order, and has emptied the queue of notices.
    pub open spec fn after_spawns(self, new_foods: Seq<Food>) -> WorldView
        decreases new_foods.len(),
    {
        if new_foods.len() == 0 {
            WorldView { food_eaten_events: Seq::empty(), ..self }
        } else {
            self.after_spawns(new_foods.drop_last()).fed(new_foods.last())
        }
    }
}

/// What answering notices changes and what it keeps: the new food items
/// follow the old ones, the queue is empty, the chain keeps its segments
/// and gets one more for each new food item, and nothing else changes.
pub proof fn lemma_after_spawns(world: WorldView, new_foods: Seq<Food>)
    ensures
        world.after_spawns(new_foods).foods == world.foods + new_foods,
        world.after_spawns(new_foods).food_eaten_events.len() == 0,
        world.after_spawns(new_foods).player.segments.len() == world.player.segments.len()
            + new_foods.len(),
        world.after_spawns(new_foods).player.segments.subrange(
            0,
            world.player.segments.len() as int,
        ) == world.player.segments,
        world.after_spawns(new_foods) == (WorldView {
            foods: world.after_spawns(new_foods).foods,
            food_eaten_events: Seq::empty(),
            player: PlayerView {
                segments: world.after_spawns(new_foods).player.segments,
                ..world.player
            },
            ..world
        }),
    decreases new_foods.len(),
{
    if new_foods.len() > 0 {
        lemma_after_spawns(world, new_foods.drop_last());
    }
}

/// Chooses the reward tier for a roll.
pub fn food_type_for_roll(roll: i64) -> (tier: FoodType)
    ensures
        tier == tier_for_roll(roll),
{
    if 0 <= roll && roll <= REGULAR_MAX_ROLL {
        FoodType::regular()
    } else if REGULAR_MAX_ROLL < roll && roll <= SPECIAL_MAX_ROLL {
        FoodType::special()
    } else {
        FoodType::rare()
    }
}

/// Computes where the next segment of `player` is put.
pub fn trailing_position(player: &Player) -> (position: Vector2)
    ensures
        position == player@.trailing_position(),
{
    let count = player.segments.len();
    if count == 0 {
        step_behind(player.position, player.direction, player.segment_spacing)
    } else if count == 1 {
        step_behind(player.segments[0].position, player.direction, player.segment_spacing)
    } else {
        step_toward(
            player.segments[count - 1].position,
            player.segments[count - 2].position,
            player.segment_spacing,
        )
    }
}

/// Adds one food item at a random place in the spawn area, of a tier that a
/// roll below 100 decides.
pub fn spawn_food_at_random_position(world: &mut World)
    ensures
        final(world)@.foods.len() == old(world)@.foods.len() + 1,
        is_spawned_food(final(world)@.foods.last()),
        final(world)@ == old(world)@.with_food(final(world)@.foods.last()),
{
    let roll: i64 = random_in_range(0, ROLL_BOUND);
    let food_type = food_type_for_roll(roll);
    let position = random_spawn_position();
    spawn_food_item(world, Food { position, food_type });
}

/// Answers every pending notice of eaten food with one new food item and
/// one new segment, and empties the queue.
pub fn spawn_food(world: &mut World)
    ensures
        final(world)@.foods.len() == old(world)@.foods.len() + old(
            world,
        )@.food_eaten_events.len(),
        final(world)@.player.segments.len() == old(world)@.player.segments.len() + old(
            world,
        )@.food_eaten_events.len(),
        final(world)@ == (WorldView {
            foods: final(world)@.foods,
            food_eaten_events: Seq::empty(),
            player: PlayerView { segments: final(world)@.player.segments, ..old(world)@.player },
            ..old(world)@
        }),
        forall|i: int|
            old(world)@.foods.len() <= i < final(world)@.foods.len() ==> is_spawned_food(
                #[trigger] final(world)@.foods[i],
            ),
        final(world)@ == old(world)@.after_spawns(
            final(world)@.foods.subrange(
                old(world)@.foods.len() as int,
                final(world)@.foods.len() as int,
            ),
        ),
{
    let pending = world.food_eaten_events.len();
    let ghost before = world.foods@.len() as int;
    let mut answered: usize = 0;
    while answered < pending
        invariant
            answered <= pending,
            pending == old(world)@.food_eaten_events.len(),
            before == old(world)@.foods.len(),
            world@.food_eaten_events == old(world)@.food_eaten_events,
            world@.foods.len() == before + answered,
            forall|i: int|
                before <= i < world@.foods.len() ==> is_spawned_food(#[trigger] world@.foods[i]),
            (WorldView { food_eaten_events: Seq::empty(), ..world@ }) == old(world)@.after_spawns(
                world@.foods.subrange(before, before + answered),
            ),
        decreases pending - answered,
    {
        let ghost earlier = world@;
        spawn_food_at_random_position(world);
        let position = trailing_position(&world.player);
        world.player.segments.push(Segment { position });
        answered = answered + 1;
        proof {
            let new_foods = world@.foods.subrange(before, before + answered);
            assert(new_foods.drop_last() == earlier.foods.subrange(before, before + answered - 1));
        }
    }
    world.food_eaten_events.clear();
    proof {
        lemma_after_spawns(
            old(world)@,
            world@.foods.subrange(before, before + answered),
        );
    }
}

} // verus!
