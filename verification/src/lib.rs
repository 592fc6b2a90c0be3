//! Verified gameplay rules of a small top-down game: the terrain grid, the
//! player's input resolution, movement and vision, and the developer toggles.
pub mod controller;
pub mod dev_tools;
pub mod player;
pub mod terrain;
