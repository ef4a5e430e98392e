//! Building the first state of a game.

use vstd::prelude::*;
use crate::components::{Food, FoodType, GameState, Player, PlayerView, Score, ScoreText, Wall};
use crate::constants::{
    PLAYER_SIDE, PLAYER_SPEED, SEGMENT_SPACING, SPAWN_LIMIT_X, SPAWN_LIMIT_Y, WALL_THICKNESS,
    WINDOW_BOUND_X, WINDOW_BOUND_Y, WINDOW_HEIGHT, WINDOW_WIDTH,
};
use crate::geometry::{Direction, Vector2};
use crate::random::random_in_range;
use crate::world::{World, WorldView};

verus! {

/// The four walls, each centred on an edge of the arena: left, right, top,
/// bottom. The vertical ones are as high as the arena, the horizontal ones
/// as wide, and all are one wall thickness thick.
pub open spec fn arena_walls() -> Seq<Wall> {
    seq![
        Wall {
            position: Vector2 { x: (0 - WINDOW_BOUND_X / 2) as i64, y: 0 },
            custom_size: Some(Vector2 { x: WALL_THICKNESS, y: WINDOW_HEIGHT }),
        },
        Wall {
            position: Vector2 { x: (WINDOW_BOUND_X / 2) as i64, y: 0 },
            custom_size: Some(Vector2 { x: WALL_THICKNESS, y: WINDOW_HEIGHT }),
        },
        Wall {
            position: Vector2 { x: 0, y: (WINDOW_BOUND_Y / 2) as i64 },
            custom_size: Some(Vector2 { x: WINDOW_WIDTH, y: WALL_THICKNESS }),
        },
        Wall {
            position: Vector2 { x: 0, y: (0 - WINDOW_BOUND_Y / 2) as i64 },
            custom_size: Some(Vector2 { x: WINDOW_WIDTH, y: WALL_THICKNESS }),
        },
    ]
}

/// The snake as every game starts with it: at the centre, heading right,
/// without segments.
pub open spec fn initial_player() -> PlayerView {
    PlayerView {
        position: Vector2 { x: 0, y: 0 },
        custom_size: Some(Vector2 { x: PLAYER_SIDE, y: PLAYER_SIDE }),
        direction: Direction::Right,
        speed: PLAYER_SPEED,
        segments: Seq::empty(),
        segment_spacing: SEGMENT_SPACING,
    }
}

/// Whether a food item may be placed at `position`: inside the arena, one
/// wall thickness away from each edge.
pub open spec fn in_spawn_area(position: Vector2) -> bool {
    &&& -SPAWN_LIMIT_X <= position.x < SPAWN_LIMIT_X
    &&& -SPAWN_LIMIT_Y <= position.y < SPAWN_LIMIT_Y
}

impl WorldView {
    /// The world with one more food item, placed last.
    pub open spec fn with_food(self, food: Food) -> WorldView {
        WorldView { foods: self.foods.push(food), ..self }
    }

    /// The world with the four arena walls added after the walls it has.
    pub open spec fn with_arena_walls(self) -> WorldView {
        WorldView { walls: self.walls + arena_walls(), ..self }
    }

    /// The world with a score line of zero and the initial snake in place
    /// of its own, and with one more regular food item at `food_position`.
    pub open spec fn with_actors(self, food_position: Vector2) -> WorldView {
        WorldView {
            score_text: ScoreText { value: 0 },
            player: initial_player(),
            foods: self.foods.push(
                Food { position: food_position, food_type: FoodType::regular() },
            ),
            ..self
        }
    }
}

/// Draws a place for a food item, each coordinate on its own.
pub fn random_spawn_position() -> (position: Vector2)
    ensures
        in_spawn_area(position),
{
    let x: i64 = random_in_range(-SPAWN_LIMIT_X, SPAWN_LIMIT_X);
    let y: i64 = random_in_range(-SPAWN_LIMIT_Y, SPAWN_LIMIT_Y);
    Vector2 { x, y }
}

/// Adds `food` to the arena.
pub fn spawn_food_item(world: &mut World, food: Food)
    ensures
        final(world)@ == old(world)@.with_food(food),
{
    world.foods.push(food);
}

/// Adds the four arena walls.
pub fn spawn_walls(world: &mut World)
    ensures
        final(world)@ == old(world)@.with_arena_walls(),
{
    world.walls.push(
        Wall {
            position: Vector2 { x: -WINDOW_BOUND_X / 2, y: 0 },
            custom_size: Some(Vector2 { x: WALL_THICKNESS, y: WINDOW_HEIGHT }),
        },
    );
    world.walls.push(
        Wall {
            position: Vector2 { x: WINDOW_BOUND_X / 2, y: 0 },
            custom_size: Some(Vector2 { x: WALL_THICKNESS, y: WINDOW_HEIGHT }),
        },
    );
    world.walls.push(
        Wall {
            position: Vector2 { x: 0, y: WINDOW_BOUND_Y / 2 },
            custom_size: Some(Vector2 { x: WINDOW_WIDTH, y: WALL_THICKNESS }),
        },
    );
    world.walls.push(
        Wall {
            position: Vector2 { x: 0, y: -WINDOW_BOUND_Y / 2 },
            custom_size: Some(Vector2 { x: WINDOW_WIDTH, y: WALL_THICKNESS }),
        },
    );
}

/// Adds the first food item of a game: regular, at a random place.
pub fn spawn_initial_food(world: &mut World)
    ensures
        final(world)@.foods.len() == old(world)@.foods.len() + 1,
        in_spawn_area(final(world)@.foods.last().position),
        final(world)@ == old(world)@.with_food(
            Food {
                position: final(world)@.foods.last().position,
                food_type: FoodType::regular(),
            },
        ),
{
    let position = random_spawn_position();
    spawn_food_item(world, Food { position, food_type: FoodType::regular() });
}

/// Makes the snake that every game starts with.
pub fn new_player() -> (player: Player)
    ensures
        player@ == initial_player(),
{
    Player {
        position: Vector2 { x: 0, y: 0 },
        custom_size: Some(Vector2 { x: PLAYER_SIDE, y: PLAYER_SIDE }),
        direction: Direction::Right,
        speed: PLAYER_SPEED,
        segments: Vec::new(),
        segment_spacing: SEGMENT_SPACING,
    }
}

/// Puts the score line at zero, replaces the snake by the initial one and
/// adds the first food item.
pub fn spawn_actors(world: &mut World)
    ensures
        final(world)@.foods.len() == old(world)@.foods.len() + 1,
        in_spawn_area(final(world)@.foods.last().position),
        final(world)@ == old(world)@.with_actors(final(world)@.foods.last().position),
{
    world.score_text = ScoreText { value: 0 };
    world.player = new_player();
    spawn_initial_food(world);
}

/// Fills the world for a new game: score line, snake, first food item and
/// the four walls.
pub fn setup_spawns(world: &mut World)
    ensures
        final(world)@.foods.len() == old(world)@.foods.len() + 1,
        in_spawn_area(final(world)@.foods.last().position),
        final(world)@ == old(world)@.with_actors(
            final(world)@.foods.last().position,
        ).with_arena_walls(),
{
    spawn_actors(world);
    spawn_walls(world);
}

/// The world at the start of a game whose first food item lies at
/// `food_position`: running, no points, the initial snake, that one regular
/// food item, the four walls, no pending notice and no banner.
pub open spec fn initial_world(food_position: Vector2) -> WorldView {
    WorldView {
        game_state: GameState { running: true },
        score: Score { value: 0 },
        player: initial_player(),
        foods: seq![Food { position: food_position, food_type: FoodType::regular() }],
        walls: arena_walls(),
        food_eaten_events: Seq::empty(),
        score_text: ScoreText { value: 0 },
        game_over_banner: false,
    }
}

/// Starts a game.
pub fn setup() -> (world: World)
    ensures
        world@.foods.len() == 1,
        in_spawn_area(world@.foods[0].position),
        world@ == initial_world(world@.foods[0].position),
        world@.at_rest(),
{
    let mut world = World {
        game_state: GameState { running: true },
        score: Score::default(),
        player: new_player(),
        foods: Vec::new(),
        walls: Vec::new(),
        food_eaten_events: Vec::new(),
        score_text: ScoreText { value: 0 },
        game_over_banner: false,
    };
    setup_spawns(&mut world);
    world
}

} // verus!
