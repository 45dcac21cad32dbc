//! A snake game on a bounded grid: the movement and collision rules of the
//! snake, the items it eats, and the tick of one play session, with the
//! glyphs that a terminal front end has to draw after each move.

pub mod direction;
pub mod items;
pub mod render;
pub mod snake;
pub mod input;
pub mod random;
pub mod spawn;
pub mod game;
