//! The camera settings and the buttons that change them.
//!
//! Every setting is held in millionths: a mouse sensitivity of 0.003 is
//! 3000.

use vstd::prelude::*;
use crate::components::{SettingButton, SettingValueText};

verus! {

/// How fast the camera answers to mouse, keys and wheel; in millionths.
#[derive(Clone, Copy, Debug, PartialEq, Eq, Structural)]
pub struct CameraSettings {
    pub mouse_sensitivity: i32,
    pub keyboard_sensitivity: i32,
    pub movement_speed: i32,
    pub zoom_speed: i32,
}

pub const MOUSE_SENSITIVITY_STEP: i32 = 1_000;

pub const MOUSE_SENSITIVITY_MIN: i32 = 1_000;

pub const MOUSE_SENSITIVITY_MAX: i32 = 20_000;

pub const KEYBOARD_SENSITIVITY_STEP: i32 = 10_000;

pub const KEYBOARD_SENSITIVITY_MIN: i32 = 10_000;

pub const KEYBOARD_SENSITIVITY_MAX: i32 = 100_000;

pub const MOVEMENT_SPEED_STEP: i32 = 5_000_000;

pub const MOVEMENT_SPEED_MIN: i32 = 5_000_000;

pub const MOVEMENT_SPEED_MAX: i32 = 100_000_000;

pub const ZOOM_SPEED_STEP: i32 = 10_000_000;

pub const ZOOM_SPEED_MIN: i32 = 10_000_000;

pub const ZOOM_SPEED_MAX: i32 = 200_000_000;

/// `value` raised by `step`, but to no more than `max`.
pub open spec fn raised(value: int, step: int, max: int) -> int {
    if value + step < max {
        value + step
    } else {
        max
    }
}

/// `value` lowered by `step`, but to no less than `min`.
pub open spec fn lowered(value: int, step: int, min: int) -> int {
    if value - step > min {
        value - step
    } else {
        min
    }
}

/// Raises a setting by one step, up to its largest value.
pub fn raise(value: i32, step: i32, max: i32) -> (r: i32)
    requires
        step >= 0,
    ensures
        r == raised(value as int, step as int, max as int),
{
    if (value as i64) + (step as i64) < (max as i64) {
        value + step
    } else {
        max
    }
}

/// Lowers a setting by one step, down to its smallest value.
pub fn lower(value: i32, step: i32, min: i32) -> (r: i32)
    requires
        step >= 0,
    ensures
        r == lowered(value as int, step as int, min as int),
{
    if (value as i64) - (step as i64) > (min as i64) {
        value - step
    } else {
        min
    }
}

impl CameraSettings {
    /// The settings a new game starts with.
    pub open spec fn initial() -> Self {
        CameraSettings {
            mouse_sensitivity: 3_000,
            keyboard_sensitivity: 20_000,
            movement_speed: 10_000_000,
            zoom_speed: 50_000_000,
        }
    }

    /// Where the settings are kept on disk, relative to the working
    /// directory.
    pub fn settings_path() -> (path: &'static str)
        ensures
            path@ == "assets/user/camera_settings.json"@,
    {
        "assets/user/camera_settings.json"
    }

    /// The settings that were read, or the initial ones where reading
    /// failed.
    pub fn load_or_default(loaded: Option<CameraSettings>) -> (settings: CameraSettings)
        ensures
            settings == (match loaded {
                Some(s) => s,
                None => CameraSettings::initial(),
            }),
    {
        match loaded {
            Some(s) => s,
            None => CameraSettings::default(),
        }
    }
}

impl Default for CameraSettings {
    fn default() -> (settings: Self)
        ensures
            settings == CameraSettings::initial(),
    {
        CameraSettings {
            mouse_sensitivity: 3_000,
            keyboard_sensitivity: 20_000,
            movement_speed: 10_000_000,
            zoom_speed: 50_000_000,
        }
    }
}

/// What is left to do after a press on a settings button.
#[derive(Clone, Copy, Debug, PartialEq, Eq, Structural)]
pub enum SettingsEffect {
    /// A value was changed here; nothing is left to do.
    Adjusted,
    /// The settings are to be written to disk.
    Save,
    /// The settings are to be read from disk.
    Load,
}

/// The settings after a press on `button`.
pub open spec fn settings_after(settings: CameraSettings, button: SettingButton) -> CameraSettings {
    match button {
        SettingButton::MouseSensitivityUp => CameraSettings {
            mouse_sensitivity: raised(
                settings.mouse_sensitivity as int,
                MOUSE_SENSITIVITY_STEP as int,
                MOUSE_SENSITIVITY_MAX as int,
            ) as i32,
            ..settings
        },
        SettingButton::MouseSensitivityDown => CameraSettings {
            mouse_sensitivity: lowered(
                settings.mouse_sensitivity as int,
                MOUSE_SENSITIVITY_STEP as int,
                MOUSE_SENSITIVITY_MIN as int,
            ) as i32,
            ..settings
        },
        SettingButton::KeyboardSensitivityUp => CameraSettings {
            keyboard_sensitivity: raised(
                settings.keyboard_sensitivity as int,
                KEYBOARD_SENSITIVITY_STEP as int,
                KEYBOARD_SENSITIVITY_MAX as int,
            ) as i32,
            ..settings
        },
        SettingButton::KeyboardSensitivityDown => CameraSettings {
            keyboard_sensitivity: lowered(
                settings.keyboard_sensitivity as int,
                KEYBOARD_SENSITIVITY_STEP as int,
                KEYBOARD_SENSITIVITY_MIN as int,
            ) as i32,
            ..settings
        },
        SettingButton::MovementSpeedUp => CameraSettings {
            movement_speed: raised(
                settings.movement_speed as int,
                MOVEMENT_SPEED_STEP as int,
                MOVEMENT_SPEED_MAX as int,
            ) as i32,
            ..settings
        },
        SettingButton::MovementSpeedDown => CameraSettings {
            movement_speed: lowered(
                settings.movement_speed as int,
                MOVEMENT_SPEED_STEP as int,
                MOVEMENT_SPEED_MIN as int,
            ) as i32,
            ..settings
        },
        SettingButton::ZoomSpeedUp => CameraSettings {
            zoom_speed: raised(
                settings.zoom_speed as int,
                ZOOM_SPEED_STEP as int,
                ZOOM_SPEED_MAX as int,
            ) as i32,
            ..settings
        },
        SettingButton::ZoomSpeedDown => CameraSettings {
            zoom_speed: lowered(
                settings.zoom_speed as int,
                ZOOM_SPEED_STEP as int,
                ZOOM_SPEED_MIN as int,
            ) as i32,
            ..settings
        },
        SettingButton::SaveSettings => settings,
        SettingButton::LoadSettings => settings,
    }
}

/// What is left to do after a press on `button`.
pub open spec fn effect_of(button: SettingButton) -> SettingsEffect {
    match button {
        SettingButton::SaveSettings => SettingsEffect::Save,
        SettingButton::LoadSettings => SettingsEffect::Load,
        _ => SettingsEffect::Adjusted,
    }
}

/// Handles a press on a button of the settings menu: a value goes one step
/// up or down within its bounds, or the caller is told to save or load.
pub fn handle_setting_buttons(button: SettingButton, settings: &mut CameraSettings) -> (effect:
    SettingsEffect)
    ensures
        *final(settings) == settings_after(*old(settings), button),
        effect == effect_of(button),
{
    match button {
        SettingButton::MouseSensitivityUp => {
            settings.mouse_sensitivity = raise(
                settings.mouse_sensitivity,
                MOUSE_SENSITIVITY_STEP,
                MOUSE_SENSITIVITY_MAX,
            );
            SettingsEffect::Adjusted
        },
        SettingButton::MouseSensitivityDown => {
            settings.mouse_sensitivity = lower(
                settings.mouse_sensitivity,
                MOUSE_SENSITIVITY_STEP,
                MOUSE_SENSITIVITY_MIN,
            );
            SettingsEffect::Adjusted
        },
        SettingButton::KeyboardSensitivityUp => {
            settings.keyboard_sensitivity = raise(
                settings.keyboard_sensitivity,
                KEYBOARD_SENSITIVITY_STEP,
                KEYBOARD_SENSITIVITY_MAX,
            );
            SettingsEffect::Adjusted
        },
        SettingButton::KeyboardSensitivityDown => {
            settings.keyboard_sensitivity = lower(
                settings.keyboard_sensitivity,
                KEYBOARD_SENSITIVITY_STEP,
                KEYBOARD_SENSITIVITY_MIN,
            );
            SettingsEffect::Adjusted
        },
        SettingButton::MovementSpeedUp => {
            settings.movement_speed = raise(
                settings.movement_speed,
                MOVEMENT_SPEED_STEP,
                MOVEMENT_SPEED_MAX,
            );
            SettingsEffect::Adjusted
        },
        SettingButton::MovementSpeedDown => {
            settings.movement_speed = lower(
                settings.movement_speed,
                MOVEMENT_SPEED_STEP,
                MOVEMENT_SPEED_MIN,
            );
            SettingsEffect::Adjusted
        },
        SettingButton::ZoomSpeedUp => {
            settings.zoom_speed = raise(settings.zoom_speed, ZOOM_SPEED_STEP, ZOOM_SPEED_MAX);
            SettingsEffect::Adjusted
        },
        SettingButton::ZoomSpeedDown => {
            settings.zoom_speed = lower(settings.zoom_speed, ZOOM_SPEED_STEP, ZOOM_SPEED_MIN);
            SettingsEffect::Adjusted
        },
        SettingButton::SaveSettings => SettingsEffect::Save,
        SettingButton::LoadSettings => SettingsEffect::Load,
    }
}

/// One row of the settings menu: a value, the button that lowers it and the
/// button that raises it.
#[derive(Clone, Copy, Debug, PartialEq, Eq, Structural)]
pub struct SettingRow {
    pub value: SettingValueText,
    pub down: SettingButton,
    pub up: SettingButton,
}

/// The rows of the settings menu, from the top.
pub open spec fn setting_rows() -> Seq<SettingRow> {
    seq![
        SettingRow {
            value: SettingValueText::MouseSensitivity,
            down: SettingButton::MouseSensitivityDown,
            up: SettingButton::MouseSensitivityUp,
        },
        SettingRow {
            value: SettingValueText::KeyboardSensitivity,
            down: SettingButton::KeyboardSensitivityDown,
            up: SettingButton::KeyboardSensitivityUp,
        },
        SettingRow {
            value: SettingValueText::MovementSpeed,
            down: SettingButton::MovementSpeedDown,
            up: SettingButton::MovementSpeedUp,
        },
        SettingRow {
            value: SettingValueText::ZoomSpeed,
            down: SettingButton::ZoomSpeedDown,
            up: SettingButton::ZoomSpeedUp,
        },
    ]
}

/// The rows of the settings menu, from the top: the two sensitivities, then
/// the two speeds.
pub fn settings_menu_rows() -> (rows: Vec<SettingRow>)
    ensures
        rows@ == setting_rows(),
{
    let mut rows: Vec<SettingRow> = Vec::new();
    rows.push(
        SettingRow {
            value: SettingValueText::MouseSensitivity,
            down: SettingButton::MouseSensitivityDown,
            up: SettingButton::MouseSensitivityUp,
        },
    );
    rows.push(
        SettingRow {
            value: SettingValueText::KeyboardSensitivity,
            down: SettingButton::KeyboardSensitivityDown,
            up: SettingButton::KeyboardSensitivityUp,
        },
    );
    rows.push(
        SettingRow {
            value: SettingValueText::MovementSpeed,
            down: SettingButton::MovementSpeedDown,
            up: SettingButton::MovementSpeedUp,
        },
    );
    rows.push(
        SettingRow {
            value: SettingValueText::ZoomSpeed,
            down: SettingButton::ZoomSpeedDown,
            up: SettingButton::ZoomSpeedUp,
        },
    );
    assert(rows@ =~= setting_rows());
    rows
}

/// The value that a row of the settings menu shows.
pub open spec fn shown_value(settings: CameraSettings, value: SettingValueText) -> i32 {
    match value {
        SettingValueText::MouseSensitivity => settings.mouse_sensitivity,
        SettingValueText::KeyboardSensitivity => settings.keyboard_sensitivity,
        SettingValueText::MovementSpeed => settings.movement_speed,
        SettingValueText::ZoomSpeed => settings.zoom_speed,
    }
}

/// In every row of the settings menu, the button on the right never lowers
/// the value that the row shows and never takes it past its largest, and the
/// button on the left never raises a value that lies within its bounds and
/// never takes it below its smallest. Neither touches the value of another
/// row.
pub proof fn lemma_rows_move_their_own_value(settings: CameraSettings, i: int, j: int)
    requires
        0 <= i < setting_rows().len(),
        0 <= j < setting_rows().len(),
    ensures
        i != j ==> shown_value(settings_after(settings, setting_rows()[i].up), setting_rows()[j].value)
            == shown_value(settings, setting_rows()[j].value),
        i != j ==> shown_value(
            settings_after(settings, setting_rows()[i].down),
            setting_rows()[j].value,
        ) == shown_value(settings, setting_rows()[j].value),
        shown_value(settings_after(settings, setting_rows()[i].up), setting_rows()[i].value)
            <= upper_bound(setting_rows()[i].value),
        shown_value(settings_after(settings, setting_rows()[i].down), setting_rows()[i].value)
            >= lower_bound(setting_rows()[i].value),
        shown_value(settings, setting_rows()[i].value) <= upper_bound(setting_rows()[i].value)
            ==> shown_value(settings_after(settings, setting_rows()[i].up), setting_rows()[i].value)
            >= shown_value(settings, setting_rows()[i].value),
        shown_value(settings, setting_rows()[i].value) >= lower_bound(setting_rows()[i].value)
            ==> shown_value(
            settings_after(settings, setting_rows()[i].down),
            setting_rows()[i].value,
        ) <= shown_value(settings, setting_rows()[i].value),
{
}

/// The largest value that the buttons give a setting.
pub open spec fn upper_bound(value: SettingValueText) -> i32 {
    match value {
        SettingValueText::MouseSensitivity => MOUSE_SENSITIVITY_MAX,
        SettingValueText::KeyboardSensitivity => KEYBOARD_SENSITIVITY_MAX,
        SettingValueText::MovementSpeed => MOVEMENT_SPEED_MAX,
        SettingValueText::ZoomSpeed => ZOOM_SPEED_MAX,
    }
}

/// The smallest value that the buttons give a setting.
pub open spec fn lower_bound(value: SettingValueText) -> i32 {
    match value {
        SettingValueText::MouseSensitivity => MOUSE_SENSITIVITY_MIN,
        SettingValueText::KeyboardSensitivity => KEYBOARD_SENSITIVITY_MIN,
        SettingValueText::MovementSpeed => MOVEMENT_SPEED_MIN,
        SettingValueText::ZoomSpeed => ZOOM_SPEED_MIN,
    }
}

} // verus!
