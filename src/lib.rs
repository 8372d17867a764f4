pub mod arena;
pub mod game;
pub mod geometry;
pub mod play;
pub mod polar;
pub mod presenter;
pub mod score;
