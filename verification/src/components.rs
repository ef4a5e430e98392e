//! The records that make up the game world.

use vstd::prelude::*;
use crate::constants::{RARE_SCORE, REGULAR_SCORE, SPECIAL_SCORE};
use crate::geometry::{Direction, Vector2};

verus! {

/// A display colour, by its red, green and blue channels.
#[derive(Clone, Copy, Debug, PartialEq, Eq, Structural)]
pub struct Color {
    pub red: u8,
    pub green: u8,
    pub blue: u8,
}

/// Whether the game is running or over.
#[derive(Clone, Copy, Debug, PartialEq, Eq, Structural)]
pub struct GameState {
    pub running: bool,
}

/// One trailing body unit of the snake.
#[derive(Clone, Copy, Debug, PartialEq, Eq, Structural)]
pub struct Segment {
    pub position: Vector2,
}

/// The points collected since the game was started or restarted.
#[derive(Clone, Copy, Debug, PartialEq, Eq, Structural)]
pub struct Score {
    pub value: u32,
}

impl Default for Score {
    fn default() -> (score: Score)
        ensures
            score.value == 0,
    {
        Score { value: 0 }
    }
}

/// The reward tier of a food item, with its points and its display colour.
#[derive(Clone, Copy, Debug, PartialEq, Eq, Structural)]
pub enum FoodType {
    Regular { score: u32, color: Color },
    Special { score: u32, color: Color },
    Rare { score: u32, color: Color },
}

impl FoodType {
    /// The points that eating food of this tier gives.
    pub open spec fn points_spec(self) -> u32 {
        match self {
            FoodType::Regular { score, .. } => score,
            FoodType::Special { score, .. } => score,
            FoodType::Rare { score, .. } => score,
        }
    }

    /// The points that eating food of this tier gives.
    #[verifier::when_used_as_spec(points_spec)]
    pub fn points(self) -> (points: u32)
        ensures
            points == self.points_spec(),
    {
        match self {
            FoodType::Regular { score, .. } => score,
            FoodType::Special { score, .. } => score,
            FoodType::Rare { score, .. } => score,
        }
    }

    /// The colour in which food of this tier is shown.
    pub open spec fn color_spec(self) -> Color {
        match self {
            FoodType::Regular { color, .. } => color,
            FoodType::Special { color, .. } => color,
            FoodType::Rare { color, .. } => color,
        }
    }

    /// The colour in which food of this tier is shown.
    #[verifier::when_used_as_spec(color_spec)]
    pub fn color(self) -> (color: Color)
        ensures
            color == self.color_spec(),
    {
        match self {
            FoodType::Regular { color, .. } => color,
            FoodType::Special { color, .. } => color,
            FoodType::Rare { color, .. } => color,
        }
    }

    /// The lowest tier as the spawner makes it: one point, green.
    pub open spec fn regular_spec() -> FoodType {
        FoodType::Regular {
            score: REGULAR_SCORE,
            color: Color { red: 0, green: 255, blue: 0 },
        }
    }

    /// The middle tier as the spawner makes it: five points, blue.
    pub open spec fn special_spec() -> FoodType {
        FoodType::Special {
            score: SPECIAL_SCORE,
            color: Color { red: 0, green: 0, blue: 255 },
        }
    }

    /// The highest tier as the spawner makes it: ten points, red.
    pub open spec fn rare_spec() -> FoodType {
        FoodType::Rare {
            score: RARE_SCORE,
            color: Color { red: 255, green: 0, blue: 0 },
        }
    }

    /// The lowest tier as the spawner makes it: one point, green.
    #[verifier::when_used_as_spec(regular_spec)]
    pub fn regular() -> (tier: FoodType)
        ensures
            tier == FoodType::regular_spec(),
    {
        FoodType::Regular { score: REGULAR_SCORE, color: Color { red: 0, green: 255, blue: 0 } }
    }

    /// The middle tier as the spawner makes it: five points, blue.
    #[verifier::when_used_as_spec(special_spec)]
    pub fn special() -> (tier: FoodType)
        ensures
            tier == FoodType::special_spec(),
    {
        FoodType::Special { score: SPECIAL_SCORE, color: Color { red: 0, green: 0, blue: 255 } }
    }

    /// The highest tier as the spawner makes it: ten points, red.
    #[verifier::when_used_as_spec(rare_spec)]
    pub fn rare() -> (tier: FoodType)
        ensures
            tier == FoodType::rare_spec(),
    {
        FoodType::Rare { score: RARE_SCORE, color: Color { red: 255, green: 0, blue: 0 } }
    }
}

/// A food item waiting in the arena.
#[derive(Clone, Copy, Debug, PartialEq, Eq, Structural)]
pub struct Food {
    pub position: Vector2,
    pub food_type: FoodType,
}

/// Notice that a food item was eaten: the spawner answers each with one new
/// food item and one new segment.
#[derive(Clone, Copy, Debug, PartialEq, Eq, Structural)]
pub struct FoodEatenEvent;

/// The score as the score line shows it.
#[derive(Clone, Copy, Debug, PartialEq, Eq, Structural)]
pub struct ScoreText {
    pub value: u32,
}

/// One of the rectangles that bound the arena. Without a size of its own a
/// wall is a square of the wall thickness.
#[derive(Clone, Copy, Debug, PartialEq, Eq)]
pub struct Wall {
    pub position: Vector2,
    pub custom_size: Option<Vector2>,
}

/// The snake: its head, its heading and the chain that follows the head.
#[derive(Clone, Debug, PartialEq, Eq)]
pub struct Player {
    /// Centre of the head.
    pub position: Vector2,
    /// Size of the head's rectangle; without one the head is a square of
    /// the player side.
    pub custom_size: Option<Vector2>,
    pub direction: Direction,
    /// Pixels per second.
    pub speed: i64,
    /// The chain, nearest to the head first.
    pub segments: Vec<Segment>,
    pub segment_spacing: i64,
}

/// A snake as a mathematical value.
#[verifier::ext_equal]
pub struct PlayerView {
    pub position: Vector2,
    pub custom_size: Option<Vector2>,
    pub direction: Direction,
    pub speed: i64,
    pub segments: Seq<Segment>,
    pub segment_spacing: i64,
}

impl View for Player {
    type V = PlayerView;

    open spec fn view(&self) -> PlayerView {
        PlayerView {
            position: self.position,
            custom_size: self.custom_size,
            direction: self.direction,
            speed: self.speed,
            segments: self.segments@,
            segment_spacing: self.segment_spacing,
        }
    }
}

} // verus!
