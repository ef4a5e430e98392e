//! One tick of the game: the systems in their fixed order.

use vstd::prelude::*;
use crate::collisions::{check_collisions, check_food_collision, score_can_take};
use crate::components::{Food, ScoreText};
use crate::controls::{bind_controls, handle_restart, head_in_bounds, move_player};
use crate::geometry::{Direction, Vector2};
use crate::laws::law_ticks_keep_the_world_at_rest;
use crate::setup::in_spawn_area;
use crate::spawner::{is_spawned_food, spawn_food};
use crate::world::{World, WorldView};

verus! {

/// What the player asks for in one tick.
#[derive(Clone, Copy, Debug, PartialEq, Eq)]
pub struct TickInput {
    /// The direction command, if any.
    pub command: Option<Direction>,
    /// Whether a restart is asked for.
    pub restart: bool,
}

impl WorldView {
    /// The world with the score line showing the score.
    pub open spec fn after_score_text(self) -> WorldView {
        WorldView { score_text: ScoreText { value: self.score.value }, ..self }
    }

    /// The world after the first steps of a tick: input, movement and the
    /// food check.
    pub open spec fn before_spawns(
        self,
        command: Option<Direction>,
        elapsed_micros: u64,
    ) -> WorldView {
        self.after_input(command).after_move(elapsed_micros).after_food_check()
    }

    /// The world after one tick in which the spawner made `new_foods` and a
    /// restart, if there was one, put the first food item at `restart_food`.
    /// The steps come in this order: input, movement, food check, spawning
    /// and growth, wall check, restart, score line.
    pub open spec fn after_tick(
        self,
        input: TickInput,
        elapsed_micros: u64,
        new_foods: Seq<Food>,
        restart_food: Vector2,
    ) -> WorldView {
        self.before_spawns(input.command, elapsed_micros).after_spawns(
            new_foods,
        ).after_wall_check().after_restart(input.restart, restart_food).after_score_text()
    }

    /// Whether the world is as every tick leaves a game that was set up:
    /// one food item in the arena, no notice pending, the head in bounds,
    /// the score line showing the score, and the banner shown exactly when
    /// the game is over.
    pub open spec fn at_rest(self) -> bool {
        &&& self.foods.len() == 1
        &&& self.food_eaten_events.len() == 0
        &&& head_in_bounds(self.player.position)
        &&& self.score_text.value == self.score.value
        &&& self.game_over_banner == !self.game_state.running
    }

    /// Whether `after` can follow from this world by one tick: the spawner
    /// answered each pending notice with a food item of its own making, a
    /// restart put its food item in the spawn area, and the rest went by
    /// the rules.
    pub open spec fn ticks_to(
        self,
        input: TickInput,
        elapsed_micros: u64,
        new_foods: Seq<Food>,
        restart_food: Vector2,
        after: WorldView,
    ) -> bool {
        &&& new_foods.len() == self.before_spawns(
            input.command,
            elapsed_micros,
        ).food_eaten_events.len()
        &&& forall|i: int| 0 <= i < new_foods.len() ==> is_spawned_food(#[trigger] new_foods[i])
        &&& in_spawn_area(restart_food)
        &&& after == self.after_tick(input, elapsed_micros, new_foods, restart_food)
    }
}

/// Makes the score line show the score.
pub fn update_score_text(world: &mut World)
    ensures
        final(world)@ == old(world)@.after_score_text(),
{
    world.score_text.value = world.score.value;
}

/// Runs one tick of `elapsed_micros` microseconds, if the score can take
/// the points of the food that the moved head reaches: input, movement,
/// food check, spawning and growth, wall check, restart, score line. Where
/// the score cannot take the points, the tick stops after the movement and
/// the result is `false`.
pub fn try_tick(world: &mut World, input: TickInput, elapsed_micros: u64) -> (done: bool)
    ensures
        done == old(world)@.after_input(input.command).after_move(elapsed_micros).score_fits(),
        done ==> exists|new_foods: Seq<Food>, restart_food: Vector2| #[trigger]
            old(world)@.ticks_to(input, elapsed_micros, new_foods, restart_food, final(world)@),
        !done ==> final(world)@ == old(world)@.after_input(input.command).after_move(
            elapsed_micros,
        ),
        done && old(world)@.at_rest() ==> final(world)@.at_rest(),
{
    bind_controls(world, input.command);
    move_player(world, elapsed_micros);
    if !score_can_take(world) {
        return false;
    }
    check_food_collision(world);
    let ghost fed = world@;
    spawn_food(world);
    let ghost new_foods = world@.foods.subrange(fed.foods.len() as int, world@.foods.len() as int);
    check_collisions(world);
    let ghost checked = world@;
    handle_restart(world, input.restart);
    let ghost restart_food = if !checked.game_state.running && input.restart {
        world@.foods.last().position
    } else {
        Vector2 { x: 0, y: 0 }
    };
    update_score_text(world);
    assert(old(world)@.ticks_to(input, elapsed_micros, new_foods, restart_food, world@));
    proof {
        if old(world)@.at_rest() {
            law_ticks_keep_the_world_at_rest(
                old(world)@,
                input,
                elapsed_micros,
                new_foods,
                restart_food,
                world@,
            );
        }
    }
    true
}

/// Runs one tick of `elapsed_micros` microseconds: input, movement, food
/// check, spawning and growth, wall check, restart, score line. The score
/// must be able to take the points of the food that the moved head reaches.
pub fn tick(world: &mut World, input: TickInput, elapsed_micros: u64)
    requires
        old(world)@.after_input(input.command).after_move(elapsed_micros).score_fits(),
    ensures
        exists|new_foods: Seq<Food>, restart_food: Vector2| #[trigger]
            old(world)@.ticks_to(input, elapsed_micros, new_foods, restart_food, final(world)@),
        old(world)@.at_rest() ==> final(world)@.at_rest(),
{
    let _ = try_tick(world, input, elapsed_micros);
}

} // verus!
