//! Numbers the rules are built on.
//!
//! The library counts in whole numbers only. Times are in microseconds,
//! lengths in millionths of a world unit, speeds in millionths of a unit per
//! second, angles in microradians.

use vstd::prelude::*;

verus! {

/// How many millionths make one whole.
pub const SCALE: u64 = 1_000_000;

/// Blocks along each side of the field.
pub const FIELD_SIZE: i32 = 9;

/// Edge length of a block, in world units.
pub const BLOCK_SIZE: i32 = 16;

/// Distance between the centres of neighbouring blocks, in world units.
pub const BLOCK_SPACING: i32 = 16;

/// First row and column of the selectable area.
pub const SELECTABLE_AREA_START: i32 = 3;

/// Last row and column of the selectable area.
pub const SELECTABLE_AREA_END: i32 = 5;

/// Height at which the fox stands, in world units.
pub const FOX_INITIAL_HEIGHT: i32 = 8;

/// Extra height of the fox while it is carried, in world units.
pub const FOX_HOVER_HEIGHT: i32 = 2;

/// Sunlight in clear weather, in lux.
pub const SUN_ILLUMINANCE_CLEAR: u32 = 30_000;

/// Sunlight in rain, in lux.
pub const SUN_ILLUMINANCE_RAIN: u32 = 8_000;

/// Rain drops that appear per second of rain.
pub const RAIN_SPAWN_RATE: u64 = 150;

/// Height at which rain drops appear, in world units.
pub const RAIN_SPAWN_HEIGHT: i32 = 200;

/// Vertical speed of a rain drop, in world units per second.
pub const RAIN_FALL_VELOCITY: i32 = -200;

/// Time a rain drop lasts, in microseconds.
pub const RAIN_LIFETIME: u64 = 5_000_000;

/// Bounds of the first wait for a change of weather, in microseconds.
pub const WEATHER_INITIAL_CHANGE_MIN: u64 = 30_000_000;

pub const WEATHER_INITIAL_CHANGE_MAX: u64 = 120_000_000;

/// Bounds of how long rain lasts, in microseconds.
pub const WEATHER_RAIN_DURATION_MIN: u64 = 30_000_000;

pub const WEATHER_RAIN_DURATION_MAX: u64 = 180_000_000;

/// Bounds of how long clear weather lasts, in microseconds.
pub const WEATHER_CLEAR_DURATION_MIN: u64 = 60_000_000;

pub const WEATHER_CLEAR_DURATION_MAX: u64 = 300_000_000;

/// Number of item slots.
pub const ITEM_SLOT_COUNT: usize = 9;

} // verus!
