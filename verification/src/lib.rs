//! Core rules of a hexagonal survival arena game.
//!
//! The arena is a rotating hexagon: six sectors around a centre hexagon.
//! Walls spawn on the outer ring in fixed three-sector patterns and close in
//! on the player, who circles the centre at a fixed angular speed. This
//! library holds the discrete rules of that game: the angular bookkeeping of
//! the rotating arena, the wall pattern table and the random pattern draw,
//! the player's steering, and the title menu's selection logic. Rendering,
//! input polling and frame timing belong to the host engine and stay outside.

pub mod angle;
pub mod background;
pub mod menu;
pub mod player;
pub mod state;
pub mod text;
pub mod walls;
