//! Game rules of a holiday puzzle game: a fixed sequence of stages, each with a
//! countdown, a drag-and-place (or click) puzzle, and a running score whose
//! changes are eased in one at a time.
//!
//! Coordinates are whole units in the pointer's frame (origin at the centre of
//! the play field, `y` growing downwards); times are milliseconds.

pub mod game;
pub mod geometry;
pub mod placement;
pub mod score;
pub mod stage;
pub mod timer;

pub use geometry::{Point, distance_squared, is_within, offset_point};
pub use score::{Score, ScoreChange, SCORE_CHANGE_SPEED, MISTAKE_PENALTY, SCORE_LIMIT};
pub use stage::{
    GameState, PuzzleState, SoundsEnum, InstructionScreenEnum, is_puzzle, next_stage,
    stage_duration_secs, theme_song, answer_reveal_secs,
};
pub use timer::{TimerResource, Readout};
pub use placement::{
    Board, Placeable, Policy, Selection, Tally, Zone, grocery_zone, no_zone, PICK_RADIUS_SQ,
    TILE_PICK_RADIUS_SQ, WIDE_ACCEPT_RADIUS_SQ, NARROW_ACCEPT_RADIUS_SQ,
};
pub use game::Game;
