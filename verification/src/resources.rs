//! State that the whole game shares.

use vstd::prelude::*;
use crate::components::{ItemType, MoveKey};
use crate::entity::EntityId;

verus! {

/// A place of the cursor in the window, in millionths of a pixel.
#[derive(Clone, Copy, Debug, PartialEq, Eq, Structural)]
pub struct CursorPosition {
    pub x: i64,
    pub y: i64,
}

/// Whether the mouse is dragging, and where the cursor was last seen.
#[derive(Clone, Copy, Debug, PartialEq, Eq, Structural)]
pub struct MouseDragState {
    pub is_dragging: bool,
    pub last_position: Option<CursorPosition>,
}

impl MouseDragState {
    /// The state in which nothing is dragged.
    pub open spec fn at_rest() -> Self {
        MouseDragState { is_dragging: false, last_position: None }
    }
}

impl Default for MouseDragState {
    fn default() -> (state: Self)
        ensures
            state == MouseDragState::at_rest(),
    {
        MouseDragState { is_dragging: false, last_position: None }
    }
}

/// The fox is being carried to another block.
#[derive(Clone, Copy, Debug, PartialEq, Eq, Structural)]
pub struct FoxMoveMode {
    pub is_active: bool,
    pub is_holding: bool,
    pub fox_entity: Option<EntityId>,
}

impl FoxMoveMode {
    /// The state in which nothing is carried.
    pub open spec fn idle() -> Self {
        FoxMoveMode { is_active: false, is_holding: false, fox_entity: None }
    }

    /// Nothing is carried.
    pub fn new() -> (mode: Self)
        ensures
            mode == Self::idle(),
    {
        FoxMoveMode { is_active: false, is_holding: false, fox_entity: None }
    }

    /// Whether the fox follows the cursor.
    pub open spec fn carrying(self) -> bool {
        self.is_active && self.is_holding
    }
}

/// Where the camera sits relative to the fox, in whole world units.
#[derive(Clone, Copy, Debug, PartialEq, Eq, Structural)]
pub struct CameraOffset {
    pub x: i32,
    pub y: i32,
    pub z: i32,
}

/// The player steers the fox. `T` is the caller's type for the place of the
/// camera; the rules only keep one and hand it back.
#[derive(Debug)]
pub struct PossessionMode<T> {
    pub is_active: bool,
    pub fox_entity: Option<EntityId>,
    pub camera_offset: CameraOffset,
    pub previous_camera_transform: Option<T>,
}

impl<T> PossessionMode<T> {
    /// Nobody is possessed.
    pub fn new() -> (mode: Self)
        ensures
            !mode.is_active,
            mode.fox_entity is None,
            mode.camera_offset == (CameraOffset { x: 0, y: 0, z: 0 }),
            mode.previous_camera_transform is None,
    {
        PossessionMode {
            is_active: false,
            fox_entity: None,
            camera_offset: CameraOffset { x: 0, y: 0, z: 0 },
            previous_camera_transform: None,
        }
    }

    /// The fox that the player steers, if any.
    pub open spec fn controlled(self) -> Option<EntityId> {
        if self.is_active {
            self.fox_entity
        } else {
            None
        }
    }

    /// The fox that the player steers, if any.
    pub fn controlled_fox(&self) -> (fox: Option<EntityId>)
        ensures
            fox == self.controlled(),
    {
        if self.is_active {
            self.fox_entity
        } else {
            None
        }
    }

    /// Whether the camera flies freely: it does unless a fox is possessed.
    pub fn free_camera_enabled(&self) -> (enabled: bool)
        ensures
            enabled == !self.is_active,
    {
        !self.is_active
    }
}

/// Double-tap detection for dashing.
#[derive(Clone, Copy, Debug, PartialEq, Eq, Structural)]
pub struct DashInputState {
    pub is_dashing: bool,
    /// When a steering key was last struck, in microseconds.
    pub last_tap_time: Option<u64>,
    pub last_key: Option<MoveKey>,
    /// Two strikes of one key closer than this start a dash; in microseconds.
    pub dash_timeout: u64,
}

impl DashInputState {
    /// The state before any key was struck.
    pub open spec fn initial() -> Self {
        DashInputState {
            is_dashing: false,
            last_tap_time: None,
            last_key: None,
            dash_timeout: 300_000,
        }
    }
}

impl Default for DashInputState {
    fn default() -> (state: Self)
        ensures
            state == DashInputState::initial(),
    {
        DashInputState {
            is_dashing: false,
            last_tap_time: None,
            last_key: None,
            dash_timeout: 300_000,
        }
    }
}

/// The item slot that was clicked last, and what it held.
#[derive(Clone, Copy, Debug, PartialEq, Eq, Structural)]
pub struct SelectedItemSlot {
    pub slot_index: Option<usize>,
    pub item_type: Option<ItemType>,
}

impl SelectedItemSlot {
    /// The state in which no slot is selected.
    pub open spec fn nothing() -> Self {
        SelectedItemSlot { slot_index: None, item_type: None }
    }

    /// No slot is selected.
    pub fn new() -> (selected: Self)
        ensures
            selected == Self::nothing(),
    {
        SelectedItemSlot { slot_index: None, item_type: None }
    }
}

/// Whether the settings menu is open.
#[derive(Clone, Copy, Debug, PartialEq, Eq, Structural)]
pub struct SettingsMenuState {
    pub is_open: bool,
}

/// The weather, and the time until it changes, in microseconds.
#[derive(Clone, Copy, Debug, PartialEq, Eq, Structural)]
pub struct WeatherState {
    pub is_raining: bool,
    pub time_until_change: u64,
}

} // verus!
