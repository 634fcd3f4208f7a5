//! Everything that meets the engine's boundary: the encodings it exchanges,
//! its snapshot records, the state handles it gives out and the controllers
//! it calls.

pub mod controller_manager;
pub mod error;
pub mod event;
pub mod gamesettings;
pub mod gamestate;
pub mod observe;
pub mod piece;
pub mod player_controller;
pub mod wind;
