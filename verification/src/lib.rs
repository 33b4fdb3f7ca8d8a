//! Penteract: the discrete core of a 5-cube wireframe viewer.
pub mod rotation;
pub mod geometry;
pub mod app;
pub mod input;
pub mod theme;
pub mod hud;
