//! The snake's controls: turning, moving, keeping the head in the arena,
//! and restarting a game that is over.

use vstd::prelude::*;
use crate::components::{Food, FoodType, GameState, PlayerView, Score, ScoreText, Segment};
use crate::constants::{HEAD_LIMIT_X, HEAD_LIMIT_Y, NUDGE};
use crate::geometry::{clamp, clamp_to, Direction, Vector2};
use crate::setup::{in_spawn_area, initial_player, spawn_actors};
use crate::world::{World, WorldView};

verus! {

/// The point `(x, y)` moved, along each axis, to the nearest place where
/// the head's centre may be: no further from the arena's centre than half
/// the arena less one wall thickness.
pub open spec fn bounded(x: int, y: int) -> Vector2 {
    Vector2 {
        x: clamp(x, -HEAD_LIMIT_X as int, HEAD_LIMIT_X as int) as i64,
        y: clamp(y, -HEAD_LIMIT_Y as int, HEAD_LIMIT_Y as int) as i64,
    }
}

/// Whether `position` is a place where the head's centre may be.
pub open spec fn head_in_bounds(position: Vector2) -> bool {
    &&& -HEAD_LIMIT_X <= position.x <= HEAD_LIMIT_X
    &&& -HEAD_LIMIT_Y <= position.y <= HEAD_LIMIT_Y
}

/// Whether a snake heading in `current` obeys `command`: it obeys every
/// command but the one to turn right round.
pub open spec fn accepts(current: Direction, command: Direction) -> bool {
    command != current.reverse()
}

/// The command that the pressed keys give to a snake heading in `current`:
/// the first of left, right, up, down that is pressed and that the snake
/// obeys.
pub open spec fn chosen_command(
    left: bool,
    right: bool,
    up: bool,
    down: bool,
    current: Direction,
) -> Option<Direction> {
    if left && accepts(current, Direction::Left) {
        Some(Direction::Left)
    } else if right && accepts(current, Direction::Right) {
        Some(Direction::Right)
    } else if up && accepts(current, Direction::Up) {
        Some(Direction::Up)
    } else if down && accepts(current, Direction::Down) {
        Some(Direction::Down)
    } else {
        None
    }
}

/// The chain after one tick: each segment takes the place that the one
/// before it had, and the first takes the place that the head had.
pub open spec fn shifted(segments: Seq<Segment>, head: Vector2) -> Seq<Segment> {
    Seq::new(
        segments.len(),
        |i: int|
            if i == 0 {
                Segment { position: head }
            } else {
                segments[i - 1]
            },
    )
}

impl PlayerView {
    /// The snake with its head at `position`.
    pub open spec fn with_position(self, position: Vector2) -> PlayerView {
        PlayerView { position, ..self }
    }

    /// The snake after a command that it obeys: the head has moved one
    /// nudge in the commanded direction and is kept in bounds, and the
    /// snake heads that way.
    pub open spec fn turned(self, command: Direction) -> PlayerView {
        PlayerView {
            position: bounded(
                self.position.x + command.dx() * NUDGE,
                self.position.y + command.dy() * NUDGE,
            ),
            direction: command,
            ..self
        }
    }

    /// The snake after `elapsed_micros` microseconds of travel: the head
    /// has moved by heading times speed times elapsed time and is kept in
    /// bounds, and the chain has shifted by one place.
    pub open spec fn moved(self, elapsed_micros: u64) -> PlayerView {
        PlayerView {
            position: bounded(
                self.position.x + self.direction.dx() * (self.speed * elapsed_micros),
                self.position.y + self.direction.dy() * (self.speed * elapsed_micros),
            ),
            segments: shifted(self.segments, self.position),
            ..self
        }
    }
}

impl WorldView {
    /// The world after the input step. A game that is over ignores the
    /// command. A running game turns the snake if there is a command that
    /// the snake obeys, and keeps the head in bounds in any case.
    pub open spec fn after_input(self, command: Option<Direction>) -> WorldView {
        if !self.game_state.running {
            self
        } else if command is Some && accepts(self.player.direction, command->0) {
            WorldView { player: self.player.turned(command->0), ..self }
        } else {
            WorldView {
                player: self.player.with_position(
                    bounded(self.player.position.x as int, self.player.position.y as int),
                ),
                ..self
            }
        }
    }

    /// The world after the movement step. In a running game the snake
    /// moves; in a game that is over the head is only kept in bounds.
    pub open spec fn after_move(self, elapsed_micros: u64) -> WorldView {
        if self.game_state.running {
            WorldView { player: self.player.moved(elapsed_micros), ..self }
        } else {
            WorldView {
                player: self.player.with_position(
                    bounded(self.player.position.x as int, self.player.position.y as int),
                ),
                ..self
            }
        }
    }

    /// The world after a restart whose first food item lies at
    /// `food_position`: running, no points, the initial snake without
    /// segments, that one regular food item, a score line of zero and no
    /// banner. The walls and the pending notices stay.
    pub open spec fn restarted(self, food_position: Vector2) -> WorldView {
        WorldView {
            game_state: GameState { running: true },
            score: Score { value: 0 },
            player: initial_player(),
            foods: seq![Food { position: food_position, food_type: FoodType::regular() }],
            score_text: ScoreText { value: 0 },
            game_over_banner: false,
            ..self
        }
    }

    /// The world after the restart step: restarted if the game is over and
    /// a restart is asked for, unchanged otherwise.
    pub open spec fn after_restart(
        self,
        restart_pressed: bool,
        food_position: Vector2,
    ) -> WorldView {
        if !self.game_state.running && restart_pressed {
            self.restarted(food_position)
        } else {
            self
        }
    }
}

/// Picks the command that the pressed keys give to a snake heading in
/// `current`.
pub fn select_command(
    left: bool,
    right: bool,
    up: bool,
    down: bool,
    current: Direction,
) -> (command: Option<Direction>)
    ensures
        command == chosen_command(left, right, up, down, current),
{
    let reverse = current.reverse();
    if left && Direction::Left != reverse {
        Some(Direction::Left)
    } else if right && Direction::Right != reverse {
        Some(Direction::Right)
    } else if up && Direction::Up != reverse {
        Some(Direction::Up)
    } else if down && Direction::Down != reverse {
        Some(Direction::Down)
    } else {
        None
    }
}

/// Keeps the head in the arena: each coordinate is limited to its bound.
pub fn check_boundary_collision(position: &mut Vector2)
    ensures
        *final(position) == bounded(old(position).x as int, old(position).y as int),
{
    position.x = clamp_to(position.x as i128, -HEAD_LIMIT_X, HEAD_LIMIT_X);
    position.y = clamp_to(position.y as i128, -HEAD_LIMIT_Y, HEAD_LIMIT_Y);
}

/// Applies the player's command to the snake of a running game.
pub fn bind_controls(world: &mut World, command: Option<Direction>)
    ensures
        final(world)@ == old(world)@.after_input(command),
{
    if !world.game_state.running {
        return ;
    }
    match command {
        Some(direction) => {
            if direction != world.player.direction.reverse() {
                let x: i128 = world.player.position.x as i128;
                let y: i128 = world.player.position.y as i128;
                let step: i128 = NUDGE as i128;
                let (x, y) = match direction {
                    Direction::Left => (x - step, y),
                    Direction::Right => (x + step, y),
                    Direction::Up => (x, y + step),
                    Direction::Down => (x, y - step),
                };
                world.player.position = Vector2 {
                    x: clamp_to(x, i64::MIN, i64::MAX),
                    y: clamp_to(y, i64::MIN, i64::MAX),
                };
                world.player.direction = direction;
            }
        },
        None => {},
    }
    check_boundary_collision(&mut world.player.position);
}

/// Moves the snake of a running game by one tick of `elapsed_micros`
/// microseconds, and keeps the head in the arena.
pub fn move_player(world: &mut World, elapsed_micros: u64)
    ensures
        final(world)@ == old(world)@.after_move(elapsed_micros),
{
    if world.game_state.running {
        let current_pos = world.player.position;
        let speed: i128 = world.player.speed as i128;
        let elapsed: i128 = elapsed_micros as i128;
        assert(-0x8000_0000_0000_0000 * 0xFFFF_FFFF_FFFF_FFFF <= speed * elapsed
            <= 0x7FFF_FFFF_FFFF_FFFF * 0xFFFF_FFFF_FFFF_FFFF) by (nonlinear_arith)
            requires
                -0x8000_0000_0000_0000 <= speed <= 0x7FFF_FFFF_FFFF_FFFF,
                0 <= elapsed <= 0xFFFF_FFFF_FFFF_FFFF,
        ;
        let travel: i128 = speed * elapsed;
        let x: i128 = current_pos.x as i128;
        let y: i128 = current_pos.y as i128;
        let (x, y) = match world.player.direction {
            Direction::Left => (x - travel, y),
            Direction::Right => (x + travel, y),
            Direction::Up => (x, y + travel),
            Direction::Down => (x, y - travel),
        };
        world.player.position = Vector2 {
            x: clamp_to(x, i64::MIN, i64::MAX),
            y: clamp_to(y, i64::MIN, i64::MAX),
        };
        let mut previous_pos = current_pos;
        let mut i: usize = 0;
        while i < world.player.segments.len()
            invariant
                i <= world@.player.segments.len(),
                world@.player.segments.len() == old(world)@.player.segments.len(),
                world@ == (WorldView {
                    player: PlayerView {
                        position: world@.player.position,
                        segments: world@.player.segments,
                        ..old(world)@.player
                    },
                    ..old(world)@
                }),
                world@.player.position.x == clamp(x as int, i64::MIN as int, i64::MAX as int),
                world@.player.position.y == clamp(y as int, i64::MIN as int, i64::MAX as int),
                previous_pos == if i == 0 {
                    old(world)@.player.position
                } else {
                    old(world)@.player.segments[i - 1].position
                },
                forall|j: int|
                    0 <= j < i ==> world@.player.segments[j] == shifted(
                        old(world)@.player.segments,
                        old(world)@.player.position,
                    )[j],
                forall|j: int|
                    i <= j < world@.player.segments.len() ==> world@.player.segments[j] == old(
                        world,
                    )@.player.segments[j],
            decreases world@.player.segments.len() - i,
        {
            let temp_pos = world.player.segments[i].position;
            world.player.segments.set(i, Segment { position: previous_pos });
            previous_pos = temp_pos;
            i = i + 1;
        }
    }
    check_boundary_collision(&mut world.player.position);
}

/// Restarts a game that is over when a restart is asked for: the snake, its
/// segments, the food and the banner go, the score returns to zero, and a
/// new snake and a first food item take their places. The walls stay.
pub fn handle_restart(world: &mut World, restart_pressed: bool)
    ensures
        final(world)@ == old(world)@.after_restart(
            restart_pressed,
            final(world)@.foods.last().position,
        ),
        !old(world)@.game_state.running && restart_pressed ==> final(world)@.foods.len() == 1
            && in_spawn_area(final(world)@.foods.last().position),
{
    if !world.game_state.running && restart_pressed {
        world.foods.clear();
        world.game_over_banner = false;
        world.game_state.running = true;
        world.score.value = 0;
        spawn_actors(world);
    }
}

} // verus!
