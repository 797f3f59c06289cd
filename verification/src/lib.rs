//! The rules of a small game on a field of blocks: what a click or a hover
//! does, how the fox is carried, stored and possessed, how the camera is
//! steered, when the weather turns. The rules are kept apart from any
//! engine, and every one of them is stated and proved.
//!
//! The rules count in whole numbers. Times are in microseconds, lengths in
//! millionths of a world unit, angles in microradians, settings in
//! millionths.

pub mod animation;
pub mod camera;
pub mod components;
pub mod constants;
pub mod entity;
pub mod feedback;
pub mod field;
pub mod fox_control;
pub mod game_logic;
pub mod inventory;
pub mod item_box;
pub mod mesh;
pub mod picking;
pub mod random;
pub mod ray;
pub mod resources;
pub mod settings;
pub mod text;
pub mod timer;
pub mod ui;
pub mod weather;
