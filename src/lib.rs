//! A raycasting renderer over an axis-aligned tile grid, in fixed-point
//! arithmetic: wall casting, floor and ceiling casting, sprite compositing and
//! portal views, with the level data and server-side game rules around it.

pub mod fixed;
pub mod grid;
pub mod camera;
pub mod screen;
pub mod walls;
pub mod floor;
pub mod sprites;
pub mod frame;
pub mod portal;
pub mod movement;
pub mod rules;
pub mod levels;
pub mod textures;
