//! The game world: every record of a game in one value that each system
//! takes and changes.

use vstd::prelude::*;
use crate::components::{
    Food, FoodEatenEvent, GameState, Player, PlayerView, Score, ScoreText, Wall,
};

verus! {

/// The whole state of a game.
#[derive(Clone, Debug, PartialEq, Eq)]
pub struct World {
    pub game_state: GameState,
    pub score: Score,
    pub player: Player,
    /// The food items in the arena, oldest first.
    pub foods: Vec<Food>,
    pub walls: Vec<Wall>,
    /// Notices of eaten food that the spawner has not answered yet.
    pub food_eaten_events: Vec<FoodEatenEvent>,
    pub score_text: ScoreText,
    /// Whether the game-over banner is shown.
    pub game_over_banner: bool,
}

/// A game world as a mathematical value.
#[verifier::ext_equal]
pub struct WorldView {
    pub game_state: GameState,
    pub score: Score,
    pub player: PlayerView,
    pub foods: Seq<Food>,
    pub walls: Seq<Wall>,
    pub food_eaten_events: Seq<FoodEatenEvent>,
    pub score_text: ScoreText,
    pub game_over_banner: bool,
}

impl View for World {
    type V = WorldView;

    open spec fn view(&self) -> WorldView {
        WorldView {
            game_state: self.game_state,
            score: self.score,
            player: self.player@,
            foods: self.foods@,
            walls: self.walls@,
            food_eaten_events: self.food_eaten_events@,
            score_text: self.score_text,
            game_over_banner: self.game_over_banner,
        }
    }
}

} // verus!
