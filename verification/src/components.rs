//! Data that game objects carry.

use vstd::prelude::*;

verus! {

/// What an item slot can hold.
#[derive(Clone, Copy, Debug, PartialEq, Eq, Structural)]
pub enum ItemType {
    Fox,
}

/// One cell of the item area.
#[derive(Clone, Copy, Debug, PartialEq, Eq, Structural)]
pub struct ItemSlot {
    pub slot_index: usize,
    pub item: Option<ItemType>,
}

/// The buttons of the menu that opens on the fox.
#[derive(Clone, Copy, Debug, PartialEq, Eq, Structural)]
pub enum FoxActionButton {
    Move,
    Box,
    Possession,
}

/// The buttons of the settings menu.
#[derive(Clone, Copy, Debug, PartialEq, Eq, Structural)]
pub enum SettingButton {
    MouseSensitivityUp,
    MouseSensitivityDown,
    KeyboardSensitivityUp,
    KeyboardSensitivityDown,
    MovementSpeedUp,
    MovementSpeedDown,
    ZoomSpeedUp,
    ZoomSpeedDown,
    SaveSettings,
    LoadSettings,
}

/// The lines of the settings menu that show a value.
#[derive(Clone, Copy, Debug, PartialEq, Eq, Structural)]
pub enum SettingValueText {
    MouseSensitivity,
    KeyboardSensitivity,
    MovementSpeed,
    ZoomSpeed,
}

/// The four keys that steer.
#[derive(Clone, Copy, Debug, PartialEq, Eq, Structural)]
pub enum MoveKey {
    W,
    S,
    A,
    D,
}

/// A place in the world, in millionths of a world unit.
#[derive(Clone, Copy, Debug, PartialEq, Eq, Structural)]
pub struct Position {
    pub x: i64,
    pub y: i64,
    pub z: i64,
}

/// A velocity, in whole world units per second.
#[derive(Clone, Copy, Debug, PartialEq, Eq, Structural)]
pub struct Velocity {
    pub x: i32,
    pub y: i32,
    pub z: i32,
}

/// A falling drop of rain.
#[derive(Clone, Copy, Debug, PartialEq, Eq, Structural)]
pub struct RainDrop {
    pub velocity: Velocity,
    /// Time the drop has left, in microseconds.
    pub lifetime: u64,
}

/// `value` brought into the range of `i64`.
pub open spec fn clamp_i64(value: int) -> int {
    if value < i64::MIN {
        i64::MIN as int
    } else if value > i64::MAX {
        i64::MAX as int
    } else {
        value
    }
}

/// `value` brought into the range of `i64`.
pub fn clamp_to_i64(value: i128) -> (clamped: i64)
    ensures
        clamped == clamp_i64(value as int),
{
    if value < i64::MIN as i128 {
        i64::MIN
    } else if value > i64::MAX as i128 {
        i64::MAX
    } else {
        value as i64
    }
}

} // verus!
