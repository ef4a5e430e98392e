//! The collision engine: the head against the walls, and the head against
//! the food.

use vstd::prelude::*;
use crate::components::{Food, FoodEatenEvent, GameState, PlayerView, Score, Wall};
use crate::constants::{EAT_DISTANCE, PLAYER_SIDE, WALL_THICKNESS};
use crate::geometry::Vector2;
use crate::world::{World, WorldView};

verus! {

/// Whether two axis-aligned rectangles, each given by its centre and its
/// size, overlap. They do unless one lies wholly to one side of the other
/// along an axis; rectangles that only touch overlap. Both sides of each
/// comparison are doubled, so that the half sizes stay whole numbers.
pub open spec fn overlapping(
    pos_a: Vector2,
    size_a: Vector2,
    pos_b: Vector2,
    size_b: Vector2,
) -> bool {
    !(2 * pos_a.x + size_a.x < 2 * pos_b.x - size_b.x
        || 2 * pos_a.x - size_a.x > 2 * pos_b.x + size_b.x
        || 2 * pos_a.y + size_a.y < 2 * pos_b.y - size_b.y
        || 2 * pos_a.y - size_a.y > 2 * pos_b.y + size_b.y)
}

/// Whether a target is close enough to the head to be eaten: nearer than
/// the eating distance, by the straight line.
pub open spec fn within_reach(head: Vector2, target: Vector2) -> bool {
    (head.x - target.x) * (head.x - target.x) + (head.y - target.y) * (head.y - target.y)
        < EAT_DISTANCE * EAT_DISTANCE
}

/// The size of the head's rectangle.
pub open spec fn head_size(player: PlayerView) -> Vector2 {
    match player.custom_size {
        Some(size) => size,
        None => Vector2 { x: PLAYER_SIDE, y: PLAYER_SIDE },
    }
}

/// The size of a wall's rectangle.
pub open spec fn wall_size(wall: Wall) -> Vector2 {
    match wall.custom_size {
        Some(size) => size,
        None => Vector2 { x: WALL_THICKNESS, y: WALL_THICKNESS },
    }
}

/// Whether the head's rectangle overlaps the wall's.
pub open spec fn hits_wall(player: PlayerView, wall: Wall) -> bool {
    overlapping(player.position, head_size(player), wall.position, wall_size(wall))
}

/// Whether the head's rectangle overlaps that of any wall.
pub open spec fn hits_any_wall(player: PlayerView, walls: Seq<Wall>) -> bool {
    exists|i: int| 0 <= i < walls.len() && hits_wall(player, #[trigger] walls[i])
}

/// The food items that the head eats.
pub open spec fn eaten(foods: Seq<Food>, head: Vector2) -> Seq<Food> {
    foods.filter(|food: Food| within_reach(head, food.position))
}

/// The food items that the head leaves, in their order.
pub open spec fn uneaten(foods: Seq<Food>, head: Vector2) -> Seq<Food> {
    foods.filter(|food: Food| !within_reach(head, food.position))
}

/// The points of all the food items together.
pub open spec fn total_points(foods: Seq<Food>) -> int
    decreases foods.len(),
{
    if foods.len() == 0 {
        0
    } else {
        total_points(foods.drop_last()) + foods.last().food_type.points()
    }
}

/// One notice for each of `count` eaten food items.
pub open spec fn notices(count: nat) -> Seq<FoodEatenEvent> {
    Seq::new(count, |i: int| FoodEatenEvent)
}

impl WorldView {
    /// The world once the game is over: not running, the banner shown.
    pub open spec fn ended(self) -> WorldView {
        WorldView { game_state: GameState { running: false }, game_over_banner: true, ..self }
    }

    /// The world after the wall check: a running game is over if the head
    /// overlaps a wall, and nothing changes otherwise.
    pub open spec fn after_wall_check(self) -> WorldView {
        if self.game_state.running && hits_any_wall(self.player, self.walls) {
            self.ended()
        } else {
            self
        }
    }

    /// Whether the score can take the points of the food within reach.
    pub open spec fn score_fits(self) -> bool {
        self.score.value + total_points(eaten(self.foods, self.player.position)) <= u32::MAX
    }

    /// The world after the food check: every food item within reach of the
    /// head is gone, its points are on the score, and one notice for each
    /// has joined the queue.
    pub open spec fn after_food_check(self) -> WorldView {
        let gone = eaten(self.foods, self.player.position);
        WorldView {
            score: Score { value: (self.score.value + total_points(gone)) as u32 },
            foods: uneaten(self.foods, self.player.position),
            food_eaten_events: self.food_eaten_events + notices(gone.len()),
            ..self
        }
    }
}

/// Tests two axis-aligned rectangles for overlap.
pub fn collide_aabb(pos_a: Vector2, size_a: Vector2, pos_b: Vector2, size_b: Vector2) -> (hit:
    Option<()>)
    ensures
        hit.is_some() == overlapping(pos_a, size_a, pos_b, size_b),
{
    let ax: i128 = 2 * (pos_a.x as i128);
    let ay: i128 = 2 * (pos_a.y as i128);
    let bx: i128 = 2 * (pos_b.x as i128);
    let by: i128 = 2 * (pos_b.y as i128);
    if ax + (size_a.x as i128) < bx - (size_b.x as i128)
        || ax - (size_a.x as i128) > bx + (size_b.x as i128)
        || ay + (size_a.y as i128) < by - (size_b.y as i128)
        || ay - (size_a.y as i128) > by + (size_b.y as i128) {
        None
    } else {
        Some(())
    }
}

/// Tests whether a target is close enough to the head to be eaten.
pub fn is_within_reach(head: Vector2, target: Vector2) -> (near: bool)
    ensures
        near == within_reach(head, target),
{
    let dx: i128 = head.x as i128 - target.x as i128;
    let dy: i128 = head.y as i128 - target.y as i128;
    let reach: i128 = EAT_DISTANCE as i128;
    if dx >= reach || dx <= -reach || dy >= reach || dy <= -reach {
        assert(dx * dx + dy * dy >= reach * reach) by (nonlinear_arith)
            requires
                dx >= reach || dx <= -reach || dy >= reach || dy <= -reach,
                reach > 0,
        ;
        false
    } else {
        assert(0 <= dx * dx <= reach * reach && 0 <= dy * dy <= reach * reach)
            by (nonlinear_arith)
            requires
                -reach < dx < reach,
                -reach < dy < reach,
        ;
        dx * dx + dy * dy < reach * reach
    }
}

/// Ends the game: it stops running, and the banner is shown.
pub fn game_over(world: &mut World)
    ensures
        final(world)@ == old(world)@.ended(),
{
    world.game_state.running = false;
    world.game_over_banner = true;
}

/// Ends a running game if the head's rectangle overlaps that of a wall.
pub fn check_collisions(world: &mut World)
    ensures
        final(world)@ == old(world)@.after_wall_check(),
{
    if !world.game_state.running {
        return ;
    }
    let player_size = match world.player.custom_size {
        Some(size) => size,
        None => Vector2 { x: PLAYER_SIDE, y: PLAYER_SIDE },
    };
    let mut i: usize = 0;
    while i < world.walls.len()
        invariant
            world@ == old(world)@,
            world@.game_state.running,
            player_size == head_size(world@.player),
            i <= world@.walls.len(),
            forall|j: int| 0 <= j < i ==> !hits_wall(world@.player, #[trigger] world@.walls[j]),
        decreases world@.walls.len() - i,
    {
        let wall = world.walls[i];
        let size = match wall.custom_size {
            Some(size) => size,
            None => Vector2 { x: WALL_THICKNESS, y: WALL_THICKNESS },
        };
        let collision = collide_aabb(world.player.position, player_size, wall.position, size);
        if collision.is_some() {
            game_over(world);
            return ;
        }
        i = i + 1;
    }
}

/// Adding a food item at the end adds it to the eaten ones if it is within
/// reach, and to the others if it is not.
pub proof fn lemma_eaten_push(foods: Seq<Food>, food: Food, head: Vector2)
    ensures
        eaten(foods.push(food), head) == if within_reach(head, food.position) {
            eaten(foods, head).push(food)
        } else {
            eaten(foods, head)
        },
        uneaten(foods.push(food), head) == if within_reach(head, food.position) {
            uneaten(foods, head)
        } else {
            uneaten(foods, head).push(food)
        },
{
    reveal(Seq::filter);
    assert(foods.push(food).drop_last() == foods);
}

/// The points of a sequence with one more food item.
pub proof fn lemma_total_points_push(foods: Seq<Food>, food: Food)
    ensures
        total_points(foods.push(food)) == total_points(foods) + food.food_type.points(),
{
    assert(foods.push(food).drop_last() == foods);
}

/// The first food items give no more points than all of them.
pub proof fn lemma_eaten_points_prefix(foods: Seq<Food>, head: Vector2, count: int)
    requires
        0 <= count <= foods.len(),
    ensures
        0 <= total_points(eaten(foods.subrange(0, count), head)) <= total_points(
            eaten(foods, head),
        ),
    decreases foods.len() - count,
{
    if count < foods.len() {
        lemma_eaten_points_prefix(foods, head, count + 1);
        let first = foods.subrange(0, count);
        assert(foods.subrange(0, count + 1) == first.push(foods[count]));
        lemma_eaten_push(first, foods[count], head);
        lemma_total_points_push(eaten(first, head), foods[count]);
        lemma_total_points_nonnegative(eaten(first, head));
    } else {
        assert(foods.subrange(0, count) == foods);
        lemma_total_points_nonnegative(eaten(foods, head));
    }
}

/// Points never sum to less than nothing.
pub proof fn lemma_total_points_nonnegative(foods: Seq<Food>)
    ensures
        0 <= total_points(foods),
    decreases foods.len(),
{
    if foods.len() > 0 {
        lemma_total_points_nonnegative(foods.drop_last());
    }
}

/// Tests whether the score can take the points of the food within reach of
/// the head.
pub fn score_can_take(world: &World) -> (fits: bool)
    ensures
        fits == world@.score_fits(),
{
    let head = world.player.position;
    let mut total: u64 = world.score.value as u64;
    let mut i: usize = 0;
    while i < world.foods.len()
        invariant
            i <= world@.foods.len(),
            head == world@.player.position,
            total <= u32::MAX,
            total == world@.score.value + total_points(
                eaten(world@.foods.subrange(0, i as int), head),
            ),
        decreases world@.foods.len() - i,
    {
        let food = world.foods[i];
        proof {
            let first = world@.foods.subrange(0, i as int);
            assert(world@.foods.subrange(0, i + 1) == first.push(food));
            lemma_eaten_push(first, food, head);
            lemma_total_points_push(eaten(first, head), food);
            lemma_eaten_points_prefix(world@.foods, head, i + 1);
        }
        if is_within_reach(head, food.position) {
            total = total + food.food_type.points() as u64;
            if total > u32::MAX as u64 {
                return false;
            }
        }
        i = i + 1;
    }
    proof {
        assert(world@.foods.subrange(0, i as int) == world@.foods);
    }
    true
}

/// Lets the head eat: every food item within reach of the head is removed,
/// its points are added to the score, and one notice for each joins the
/// queue.
pub fn check_food_collision(world: &mut World)
    requires
        old(world)@.score_fits(),
    ensures
        final(world)@ == old(world)@.after_food_check(),
{
    let head = world.player.position;
    let mut kept: Vec<Food> = Vec::new();
    let mut i: usize = 0;
    while i < world.foods.len()
        invariant
            i <= world@.foods.len(),
            head == old(world)@.player.position,
            old(world)@.score_fits(),
            world@ == (WorldView {
                score: world@.score,
                food_eaten_events: world@.food_eaten_events,
                ..old(world)@
            }),
            kept@ == uneaten(world@.foods.subrange(0, i as int), head),
            world@.score.value == old(world)@.score.value + total_points(
                eaten(world@.foods.subrange(0, i as int), head),
            ),
            world@.food_eaten_events == old(world)@.food_eaten_events + notices(
                eaten(world@.foods.subrange(0, i as int), head).len(),
            ),
        decreases world@.foods.len() - i,
    {
        let food = world.foods[i];
        proof {
            let first = world@.foods.subrange(0, i as int);
            assert(world@.foods.subrange(0, i + 1) == first.push(food));
            lemma_eaten_push(first, food, head);
            lemma_total_points_push(eaten(first, head), food);
            lemma_eaten_points_prefix(world@.foods, head, i + 1);
        }
        if is_within_reach(head, food.position) {
            let points = food.food_type.points();
            world.score.value = world.score.value + points;
            world.food_eaten_events.push(FoodEatenEvent);
        } else {
            kept.push(food);
        }
        i = i + 1;
    }
    proof {
        assert(world@.foods.subrange(0, i as int) == world@.foods);
    }
    world.foods = kept;
}

} // verus!
