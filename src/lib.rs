//! The arbiter of a two-player hidden-information board game: the piece
//! adjudicator, the per-match protocol state machine, the lobby that pairs
//! players, and the packed board encoding used for initial placements.

pub mod board_utils;
pub mod game_logic;
pub mod game_service;
pub mod lobby;
pub mod types;
