//! Steering the camera with mouse and keys.
//!
//! Angles are in microradians, speeds in millionths of a world unit.

use vstd::prelude::*;
use crate::components::{clamp_i64, clamp_to_i64};
use crate::constants::SCALE;
use crate::entity::EntityId;
use crate::fox_control::MoveKeys;
use crate::resources::{CursorPosition, FoxMoveMode, MouseDragState, PossessionMode};
use crate::settings::CameraSettings;

verus! {

/// Largest pitch of the camera, up or down, in microradians.
pub const CAMERA_PITCH_LIMIT: i64 = 1_500_000;

/// How far behind a possessed fox the camera sits, in world units.
pub const POSSESSION_CAMERA_DISTANCE: i32 = 40;

/// How far above a possessed fox the camera sits, in world units.
pub const POSSESSION_CAMERA_HEIGHT: i32 = 40;

/// One stretch of a drag: the cursor went from `from` to `to`.
#[derive(Clone, Copy, Debug, PartialEq, Eq, Structural)]
pub struct DragStep {
    pub from: CursorPosition,
    pub to: CursorPosition,
}

/// A turn of the camera, in microradians.
#[derive(Clone, Copy, Debug, PartialEq, Eq, Structural)]
pub struct Turn {
    pub yaw: i64,
    pub pitch: i64,
}

/// The drag state after a frame in which the cursor was at `cursor`, if on
/// the screen at all, and the button was down or not.
pub open spec fn drag_after(cursor: Option<CursorPosition>, pressed: bool) -> MouseDragState {
    if cursor is Some && pressed {
        MouseDragState { is_dragging: true, last_position: cursor }
    } else {
        MouseDragState::at_rest()
    }
}

/// The stretch that the cursor covered in that frame: there is one where the
/// button is down, the cursor is on the screen and was seen the frame before.
pub open spec fn drag_step(
    state: MouseDragState,
    cursor: Option<CursorPosition>,
    pressed: bool,
) -> Option<DragStep> {
    if cursor is Some && pressed && state.last_position is Some {
        Some(DragStep { from: state.last_position->0, to: cursor->0 })
    } else {
        None
    }
}

/// `n` divided by `d`, rounded towards zero; `d` is positive.
pub open spec fn toward_zero(n: int, d: int) -> int {
    if n >= 0 {
        n / d
    } else {
        -((-n) / d)
    }
}

/// The angle by which the camera turns when the cursor goes from `from` to
/// `to` along one axis of the window: against the way the cursor went, by
/// the sensitivity for each pixel; rounded towards zero and kept within the
/// range of `i64`.
pub open spec fn drag_angle(from: i64, to: i64, sensitivity: i32) -> int {
    clamp_i64(toward_zero(-(to - from) * sensitivity, SCALE as int))
}

/// The turn that one stretch of a drag gives.
pub open spec fn drag_turn(step: DragStep, sensitivity: i32) -> Turn {
    Turn {
        yaw: drag_angle(step.from.x, step.to.x, sensitivity) as i64,
        pitch: drag_angle(step.from.y, step.to.y, sensitivity) as i64,
    }
}

/// The turn that a frame of dragging gives, if any.
pub open spec fn dragged_turn(
    state: MouseDragState,
    cursor: Option<CursorPosition>,
    pressed: bool,
    sensitivity: i32,
) -> Option<Turn> {
    match drag_step(state, cursor, pressed) {
        Some(step) => Some(drag_turn(step, sensitivity)),
        None => None,
    }
}

fn angle_of_drag(from: i64, to: i64, sensitivity: i32) -> (angle: i64)
    ensures
        angle == drag_angle(from, to, sensitivity),
{
    let back: i128 = from as i128 - to as i128;
    assert(-0x1_0000_0000_0000_0000 * 0x8000_0000 <= back * sensitivity <= 0x1_0000_0000_0000_0000
        * 0x8000_0000) by (nonlinear_arith)
        requires
            -0x1_0000_0000_0000_0000 <= back <= 0x1_0000_0000_0000_0000,
            -0x8000_0000 <= sensitivity <= 0x8000_0000,
    ;
    assert(back * sensitivity == -(to - from) * sensitivity) by (nonlinear_arith)
        requires
            back == from - to,
    ;
    let product: i128 = back * sensitivity as i128;
    let quotient: i128 = if product >= 0 {
        product / 1_000_000
    } else {
        -((-product) / 1_000_000)
    };
    clamp_to_i64(quotient)
}

impl MouseDragState {
    /// Forgets the drag.
    pub fn reset(&mut self)
        ensures
            *final(self) == MouseDragState::at_rest(),
    {
        self.is_dragging = false;
        self.last_position = None;
    }

    /// Follows the cursor for one frame and gives the stretch it covered.
    pub fn track(&mut self, cursor: Option<CursorPosition>, pressed: bool) -> (step: Option<
        DragStep,
    >)
        ensures
            *final(self) == drag_after(cursor, pressed),
            step == drag_step(*old(self), cursor, pressed),
    {
        match cursor {
            Some(position) => {
                if pressed {
                    let step = match self.last_position {
                        Some(last) => Some(DragStep { from: last, to: position }),
                        None => None,
                    };
                    self.is_dragging = true;
                    self.last_position = Some(position);
                    step
                } else {
                    self.reset();
                    None
                }
            },
            None => {
                self.reset();
                None
            },
        }
    }
}

impl DragStep {
    /// The turn that this stretch of a drag gives at a sensitivity.
    pub fn turn(&self, sensitivity: i32) -> (turn: Turn)
        ensures
            turn == drag_turn(*self, sensitivity),
    {
        Turn {
            yaw: angle_of_drag(self.from.x, self.to.x, sensitivity),
            pitch: angle_of_drag(self.from.y, self.to.y, sensitivity),
        }
    }
}

/// One frame of turning the free camera by dragging with the left button.
/// While the fox is carried or possessed the drag is forgotten and nothing
/// turns. Otherwise the camera turns by the stretch that the cursor covered,
/// at the mouse sensitivity.
pub fn camera_drag_rotation<T>(
    move_mode: &FoxMoveMode,
    possession: &PossessionMode<T>,
    cursor: Option<CursorPosition>,
    left_pressed: bool,
    settings: &CameraSettings,
    drag: &mut MouseDragState,
) -> (turn: Option<Turn>)
    ensures
        move_mode.is_active || possession.is_active ==> turn is None && *final(drag)
            == MouseDragState::at_rest(),
        !(move_mode.is_active || possession.is_active) ==> turn == dragged_turn(
            *old(drag),
            cursor,
            left_pressed,
            settings.mouse_sensitivity,
        ) && *final(drag) == drag_after(cursor, left_pressed),
{
    if move_mode.is_active || possession.is_active {
        drag.reset();
        return None;
    }
    match drag.track(cursor, left_pressed) {
        Some(step) => Some(step.turn(settings.mouse_sensitivity)),
        None => None,
    }
}

/// One frame of turning the camera round a possessed fox by dragging with
/// the left button. Without possession nothing changes.
pub fn possession_camera_rotation<T>(
    possession: &PossessionMode<T>,
    cursor: Option<CursorPosition>,
    left_pressed: bool,
    settings: &CameraSettings,
    drag: &mut MouseDragState,
) -> (turn: Option<Turn>)
    ensures
        !possession.is_active ==> turn is None && *final(drag) == *old(drag),
        possession.is_active ==> turn == dragged_turn(
            *old(drag),
            cursor,
            left_pressed,
            settings.mouse_sensitivity,
        ) && *final(drag) == drag_after(cursor, left_pressed),
{
    if !possession.is_active {
        return None;
    }
    match drag.track(cursor, left_pressed) {
        Some(step) => Some(step.turn(settings.mouse_sensitivity)),
        None => None,
    }
}

/// The pitch after a turn by `delta` from `current`, kept within the limit
/// both ways.
pub open spec fn turned_pitch_spec(current: int, delta: int) -> int {
    if current + delta < -CAMERA_PITCH_LIMIT {
        -CAMERA_PITCH_LIMIT as int
    } else if current + delta > CAMERA_PITCH_LIMIT {
        CAMERA_PITCH_LIMIT as int
    } else {
        current + delta
    }
}

/// The pitch after a turn by `delta` from `current`.
pub fn turned_pitch(current: i64, delta: i64) -> (pitch: i64)
    ensures
        pitch == turned_pitch_spec(current as int, delta as int),
{
    let sum: i128 = current as i128 + delta as i128;
    if sum < -(CAMERA_PITCH_LIMIT as i128) {
        -CAMERA_PITCH_LIMIT
    } else if sum > CAMERA_PITCH_LIMIT as i128 {
        CAMERA_PITCH_LIMIT
    } else {
        sum as i64
    }
}

/// `amount` with the sign that two opposite keys ask for.
pub open spec fn signed_amount(positive: bool, negative: bool, amount: int) -> int {
    (if positive {
        amount
    } else {
        0
    }) - (if negative {
        amount
    } else {
        0
    })
}

/// `amount` with the sign that two opposite keys ask for.
pub fn key_amount(positive: bool, negative: bool, amount: i32) -> (signed: i64)
    ensures
        signed == signed_amount(positive, negative, amount as int),
{
    let up: i64 = if positive {
        amount as i64
    } else {
        0
    };
    let down: i64 = if negative {
        amount as i64
    } else {
        0
    };
    up - down
}

/// Which arrow keys are down.
#[derive(Clone, Copy, Debug, PartialEq, Eq, Structural)]
pub struct ArrowKeys {
    pub left: bool,
    pub right: bool,
    pub up: bool,
    pub down: bool,
}

/// The turn that `camera_keyboard_rotation` owes.
pub open spec fn keyboard_turn_spec<T>(
    keys: ArrowKeys,
    settings: CameraSettings,
    possession: PossessionMode<T>,
) -> Option<Turn> {
    let yaw = signed_amount(keys.left, keys.right, settings.keyboard_sensitivity as int);
    let pitch = signed_amount(keys.up, keys.down, settings.keyboard_sensitivity as int);
    if possession.is_active || (yaw == 0 && pitch == 0) {
        None
    } else {
        Some(Turn { yaw: yaw as i64, pitch: pitch as i64 })
    }
}

/// One frame of turning the free camera with the arrow keys: left and up
/// count positive. There is no turn while a fox is possessed, nor where the
/// keys cancel out.
pub fn camera_keyboard_rotation<T>(
    keys: ArrowKeys,
    settings: &CameraSettings,
    possession: &PossessionMode<T>,
) -> (turn: Option<Turn>)
    ensures
        turn == keyboard_turn_spec(keys, *settings, *possession),
{
    if possession.is_active {
        return None;
    }
    let yaw = key_amount(keys.left, keys.right, settings.keyboard_sensitivity);
    let pitch = key_amount(keys.up, keys.down, settings.keyboard_sensitivity);
    if yaw != 0 || pitch != 0 {
        Some(Turn { yaw: yaw, pitch: pitch })
    } else {
        None
    }
}

/// A shift of the camera over the ground, in millionths of a world unit:
/// along its forward direction and along its right direction.
#[derive(Clone, Copy, Debug, PartialEq, Eq, Structural)]
pub struct Pan {
    pub forward: i64,
    pub right: i64,
}

/// The shift that `camera_keyboard_pan` owes.
pub open spec fn keyboard_pan_spec<T>(
    keys: MoveKeys,
    settings: CameraSettings,
    possession: PossessionMode<T>,
) -> Option<Pan> {
    if possession.is_active {
        None
    } else {
        Some(
            Pan {
                forward: signed_amount(keys.w, keys.s, settings.movement_speed as int) as i64,
                right: signed_amount(keys.d, keys.a, settings.movement_speed as int) as i64,
            },
        )
    }
}

/// One frame of moving the free camera with W, S, A and D. There is no shift
/// while a fox is possessed.
pub fn camera_keyboard_pan<T>(
    keys: MoveKeys,
    settings: &CameraSettings,
    possession: &PossessionMode<T>,
) -> (pan: Option<Pan>)
    ensures
        pan == keyboard_pan_spec(keys, *settings, *possession),
{
    if possession.is_active {
        return None;
    }
    Some(
        Pan {
            forward: key_amount(keys.w, keys.s, settings.movement_speed),
            right: key_amount(keys.d, keys.a, settings.movement_speed),
        },
    )
}

/// The speed at which a turn of the wheel moves the free camera forward, in
/// millionths of a world unit for each step of the wheel. There is none while
/// a fox is possessed.
pub fn camera_zoom<T>(settings: &CameraSettings, possession: &PossessionMode<T>) -> (speed: Option<
    i32,
>)
    ensures
        speed == (if possession.is_active {
            None
        } else {
            Some(settings.zoom_speed)
        }),
{
    if possession.is_active {
        None
    } else {
        Some(settings.zoom_speed)
    }
}

/// How the camera is to follow a possessed fox.
#[derive(Clone, Copy, Debug, PartialEq, Eq, Structural)]
pub struct FollowRig {
    pub fox: EntityId,
    /// How far behind the fox the camera sits, in world units.
    pub distance: i32,
    /// How far above the fox the camera sits, in world units.
    pub height: i32,
}

/// The fox that the camera follows and how: there is one while a fox is
/// possessed and known.
pub fn possession_camera_follow<T>(possession: &PossessionMode<T>) -> (rig: Option<FollowRig>)
    ensures
        rig == (match possession.controlled() {
            Some(fox) => Some(
                FollowRig {
                    fox: fox,
                    distance: POSSESSION_CAMERA_DISTANCE,
                    height: POSSESSION_CAMERA_HEIGHT,
                },
            ),
            None => None,
        }),
{
    match possession.controlled_fox() {
        Some(fox) => Some(
            FollowRig {
                fox: fox,
                distance: POSSESSION_CAMERA_DISTANCE,
                height: POSSESSION_CAMERA_HEIGHT,
            },
        ),
        None => None,
    }
}

} // verus!
