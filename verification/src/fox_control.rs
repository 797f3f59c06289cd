//! The fox's menu, possession, and steering with dash.

use vstd::prelude::*;
use crate::components::{FoxActionButton, ItemSlot, ItemType, MoveKey};
use crate::entity::EntityId;
use crate::inventory::{all_full, is_first_free, store_item};
use crate::resources::{CameraOffset, DashInputState, FoxMoveMode, PossessionMode};

verus! {

impl FoxActionButton {
    /// The word on the button.
    pub open spec fn label_spec(self) -> Seq<char> {
        match self {
            FoxActionButton::Move => "Move"@,
            FoxActionButton::Box => "Box"@,
            FoxActionButton::Possession => "Possession"@,
        }
    }

    /// The word on the button.
    pub fn label(&self) -> (label: &'static str)
        ensures
            label@ == self.label_spec(),
    {
        match self {
            FoxActionButton::Move => "Move",
            FoxActionButton::Box => "Box",
            FoxActionButton::Possession => "Possession",
        }
    }
}

/// The buttons of the fox's menu, from the left.
pub fn fox_action_menu() -> (buttons: Vec<FoxActionButton>)
    ensures
        buttons@ == seq![
            FoxActionButton::Move,
            FoxActionButton::Box,
            FoxActionButton::Possession,
        ],
{
    let mut buttons: Vec<FoxActionButton> = Vec::new();
    buttons.push(FoxActionButton::Move);
    buttons.push(FoxActionButton::Box);
    buttons.push(FoxActionButton::Possession);
    assert(buttons@ =~= seq![
        FoxActionButton::Move,
        FoxActionButton::Box,
        FoxActionButton::Possession,
    ]);
    buttons
}

/// What a press on a button of the fox's menu led to. In every case but
/// `NoFox` the menu closes.
#[derive(Clone, Copy, Debug, PartialEq, Eq, Structural)]
pub enum FoxActionOutcome {
    /// There is not exactly one fox: nothing happens.
    NoFox,
    /// The fox is now carried.
    MoveStarted,
    /// The fox went into the slot at this position and is to be hidden.
    Stored { slot: usize },
    /// Every slot is taken: the fox stays where it is.
    SlotsFull,
    /// The player now steers the fox.
    Possessed,
}

/// Where the camera sits relative to a possessed fox.
pub open spec fn possession_offset() -> CameraOffset {
    CameraOffset { x: 0, y: 2, z: -3i32 }
}

/// Handles a press on `button`. `fox` is the one fox of the game, where there
/// is exactly one; `camera` is the place of the camera, where there is one.
pub fn handle_fox_action_buttons<T>(
    button: FoxActionButton,
    fox: Option<EntityId>,
    camera: Option<T>,
    move_mode: &mut FoxMoveMode,
    possession: &mut PossessionMode<T>,
    slots: &mut Vec<ItemSlot>,
) -> (outcome: FoxActionOutcome)
    ensures
        fox is None ==> outcome == FoxActionOutcome::NoFox,
        fox is Some ==> match button {
            FoxActionButton::Move => outcome == FoxActionOutcome::MoveStarted,
            FoxActionButton::Box => match outcome {
                FoxActionOutcome::Stored { slot } => is_first_free(old(slots)@, slot as int),
                FoxActionOutcome::SlotsFull => all_full(old(slots)@),
                _ => false,
            },
            FoxActionButton::Possession => outcome == FoxActionOutcome::Possessed,
        },
        *final(move_mode) == (if outcome is MoveStarted {
            FoxMoveMode { is_active: true, is_holding: true, fox_entity: fox }
        } else {
            *old(move_mode)
        }),
        final(slots)@ == (match outcome {
            FoxActionOutcome::Stored { slot } => old(slots)@.update(
                slot as int,
                ItemSlot {
                    slot_index: old(slots)@[slot as int].slot_index,
                    item: Some(ItemType::Fox),
                },
            ),
            _ => old(slots)@,
        }),
        *final(possession) == (if outcome is Possessed {
            PossessionMode {
                is_active: true,
                fox_entity: fox,
                camera_offset: possession_offset(),
                previous_camera_transform: if camera is Some {
                    camera
                } else {
                    old(possession).previous_camera_transform
                },
            }
        } else {
            *old(possession)
        }),
{
    let fox_entity = match fox {
        Some(e) => e,
        None => {
            return FoxActionOutcome::NoFox;
        },
    };
    match button {
        FoxActionButton::Move => {
            move_mode.is_active = true;
            move_mode.is_holding = true;
            move_mode.fox_entity = Some(fox_entity);
            FoxActionOutcome::MoveStarted
        },
        FoxActionButton::Box => {
            match store_item(slots, ItemType::Fox) {
                Some(slot) => FoxActionOutcome::Stored { slot: slot },
                None => FoxActionOutcome::SlotsFull,
            }
        },
        FoxActionButton::Possession => {
            match camera {
                Some(place) => {
                    possession.previous_camera_transform = Some(place);
                },
                None => {},
            }
            possession.is_active = true;
            possession.fox_entity = Some(fox_entity);
            possession.camera_offset = CameraOffset { x: 0, y: 2, z: -3 };
            FoxActionOutcome::Possessed
        },
    }
}

/// Whether possession ended, and the camera place to go back to.
#[derive(Debug)]
pub enum PossessionExit<T> {
    /// Possession goes on, or there was none.
    Stay,
    /// Possession ended; the camera returns to `restore` where one was kept.
    Leave { restore: Option<T> },
}

/// Ends possession when it is on and Escape went down in this frame. Dashing
/// ends with it; the dash timeout stays.
pub fn exit_possession_mode<T>(
    escape_just_pressed: bool,
    possession: &mut PossessionMode<T>,
    dash: &mut DashInputState,
) -> (exit: PossessionExit<T>)
    ensures
        old(possession).is_active && escape_just_pressed ==> {
            &&& exit == (PossessionExit::Leave {
                restore: old(possession).previous_camera_transform,
            })
            &&& *final(possession) == (PossessionMode::<T> {
                is_active: false,
                fox_entity: None,
                camera_offset: old(possession).camera_offset,
                previous_camera_transform: None::<T>,
            })
            &&& *final(dash) == (DashInputState {
                is_dashing: false,
                last_tap_time: None,
                last_key: None,
                dash_timeout: old(dash).dash_timeout,
            })
        },
        !(old(possession).is_active && escape_just_pressed) ==> {
            &&& exit == PossessionExit::<T>::Stay
            &&& *final(possession) == *old(possession)
            &&& *final(dash) == *old(dash)
        },
{
    if !possession.is_active || !escape_just_pressed {
        return PossessionExit::Stay;
    }
    let restore = possession.previous_camera_transform.take();
    possession.is_active = false;
    possession.fox_entity = None;
    dash.is_dashing = false;
    dash.last_tap_time = None;
    dash.last_key = None;
    PossessionExit::Leave { restore: restore }
}

/// Which of the four steering keys are in a state (held, or just struck).
#[derive(Clone, Copy, Debug, PartialEq, Eq, Structural)]
pub struct MoveKeys {
    pub w: bool,
    pub s: bool,
    pub a: bool,
    pub d: bool,
}

impl MoveKeys {
    /// Whether any of the four is set.
    pub open spec fn any(self) -> bool {
        self.w || self.s || self.a || self.d
    }
}

/// Speed of a possessed fox, in world units per second.
pub const FOX_BASE_SPEED: u32 = 15;

/// Speed of a possessed fox that dashes, in world units per second.
pub const FOX_DASH_SPEED: u32 = 50;

/// The state after `key` was struck at time `now`: a dash starts when the
/// same key was struck less than the timeout before.
pub open spec fn tap_spec(state: DashInputState, key: MoveKey, now: u64) -> DashInputState {
    DashInputState {
        is_dashing: state.is_dashing || (state.last_tap_time is Some && state.last_key == Some(key)
            && now - state.last_tap_time->0 < state.dash_timeout),
        last_tap_time: Some(now),
        last_key: Some(key),
        dash_timeout: state.dash_timeout,
    }
}

/// The state after the keys in `struck` were struck at time `now`, taken in
/// the order W, S, A, D.
pub open spec fn taps_spec(state: DashInputState, struck: MoveKeys, now: u64) -> DashInputState {
    let s1 = if struck.w {
        tap_spec(state, MoveKey::W, now)
    } else {
        state
    };
    let s2 = if struck.s {
        tap_spec(s1, MoveKey::S, now)
    } else {
        s1
    };
    let s3 = if struck.a {
        tap_spec(s2, MoveKey::A, now)
    } else {
        s2
    };
    if struck.d {
        tap_spec(s3, MoveKey::D, now)
    } else {
        s3
    }
}

/// The state after one frame: the strikes are taken in, and with none of the
/// four keys held the dash ends.
pub open spec fn dash_after(
    state: DashInputState,
    held: MoveKeys,
    struck: MoveKeys,
    now: u64,
) -> DashInputState {
    let tapped = taps_spec(state, struck, now);
    DashInputState { is_dashing: tapped.is_dashing && held.any(), ..tapped }
}

/// -1, 0 or 1: the direction along one axis that two opposite keys ask for.
pub open spec fn axis_spec(positive: bool, negative: bool) -> int {
    (if positive {
        1int
    } else {
        0int
    }) - (if negative {
        1int
    } else {
        0int
    })
}

/// The direction along one axis that two opposite keys ask for.
pub fn key_axis(positive: bool, negative: bool) -> (axis: i8)
    ensures
        axis == axis_spec(positive, negative),
{
    let up: i8 = if positive {
        1
    } else {
        0
    };
    let down: i8 = if negative {
        1
    } else {
        0
    };
    up - down
}

impl DashInputState {
    /// Takes in one strike of `key` at time `now`.
    pub fn tap(&mut self, key: MoveKey, now: u64)
        ensures
            *final(self) == tap_spec(*old(self), key, now),
    {
        let same_key = match self.last_key {
            Some(k) => k == key,
            None => false,
        };
        match self.last_tap_time {
            Some(last) => {
                if same_key && (now < last || now - last < self.dash_timeout) {
                    self.is_dashing = true;
                }
            },
            None => {},
        }
        self.last_tap_time = Some(now);
        self.last_key = Some(key);
    }
}

/// How a possessed fox is to move in one frame.
#[derive(Clone, Copy, Debug, PartialEq, Eq, Structural)]
pub struct MovementIntent {
    /// 1 for forward, -1 for backward, seen from the camera.
    pub forward: i8,
    /// 1 for right, -1 for left, seen from the camera.
    pub right: i8,
    /// In world units per second.
    pub speed: u32,
    /// How far the fox goes in this frame, in millionths of a world unit.
    pub step: u64,
}

/// How far something goes in `delta` microseconds at `speed` world units
/// per second, in millionths of a world unit; no more than `u64::MAX`.
pub open spec fn step_spec(speed: u32, delta: u64) -> u64 {
    if speed * delta > u64::MAX {
        u64::MAX
    } else {
        (speed * delta) as u64
    }
}

/// One frame of steering a possessed fox: `held` are the keys that are down,
/// `struck` those that went down in this frame, `now` the time and `delta`
/// the length of the frame, both in microseconds. Brings the dash state up
/// to date and says where the fox is to go, how fast and how far.
pub fn fox_possession_movement(
    held: MoveKeys,
    struck: MoveKeys,
    now: u64,
    delta: u64,
    dash: &mut DashInputState,
) -> (intent: MovementIntent)
    ensures
        *final(dash) == dash_after(*old(dash), held, struck, now),
        intent.forward == axis_spec(held.w, held.s),
        intent.right == axis_spec(held.d, held.a),
        intent.speed == (if final(dash).is_dashing {
            FOX_DASH_SPEED
        } else {
            FOX_BASE_SPEED
        }),
        intent.step == step_spec(intent.speed, delta),
{
    if struck.w {
        dash.tap(MoveKey::W, now);
    }
    if struck.s {
        dash.tap(MoveKey::S, now);
    }
    if struck.a {
        dash.tap(MoveKey::A, now);
    }
    if struck.d {
        dash.tap(MoveKey::D, now);
    }
    if !held.w && !held.s && !held.a && !held.d {
        dash.is_dashing = false;
    }
    let speed = if dash.is_dashing {
        FOX_DASH_SPEED
    } else {
        FOX_BASE_SPEED
    };
    assert(0 <= speed * delta <= 0x1_0000_0000 * 0x1_0000_0000_0000_0000) by (nonlinear_arith)
        requires
            0 <= speed <= 0x1_0000_0000,
            0 <= delta <= 0x1_0000_0000_0000_0000,
    ;
    let far: u128 = speed as u128 * delta as u128;
    let step: u64 = if far > u64::MAX as u128 {
        u64::MAX
    } else {
        far as u64
    };
    MovementIntent {
        forward: key_axis(held.w, held.s),
        right: key_axis(held.d, held.a),
        speed: speed,
        step: step,
    }
}

} // verus!
