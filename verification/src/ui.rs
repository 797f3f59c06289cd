//! The settings menu and the item area, as far as they are rules.

use vstd::prelude::*;
use vstd::string::StringExecFns;
use crate::components::{ItemSlot, ItemType, SettingValueText};
use crate::resources::{SelectedItemSlot, SettingsMenuState};
use crate::settings::CameraSettings;
use crate::text::{fixed, push_fixed_signed, Places};

verus! {

/// What is to be done with the settings menu.
#[derive(Clone, Copy, Debug, PartialEq, Eq, Structural)]
pub enum MenuAction {
    /// The menu is to be built and shown.
    Open,
    /// The menu is to be taken down.
    Close,
}

/// One frame of the settings menu: when Escape went down in this frame the
/// menu changes between open and closed.
pub fn toggle_settings_menu(escape_just_pressed: bool, state: &mut SettingsMenuState) -> (action:
    Option<MenuAction>)
    ensures
        final(state).is_open == (old(state).is_open != escape_just_pressed),
        action == (if !escape_just_pressed {
            None
        } else if old(state).is_open {
            Some(MenuAction::Close)
        } else {
            Some(MenuAction::Open)
        }),
{
    if !escape_just_pressed {
        return None;
    }
    state.is_open = !state.is_open;
    if state.is_open {
        Some(MenuAction::Open)
    } else {
        Some(MenuAction::Close)
    }
}

/// A count of millionths, which may be negative, as a decimal number.
pub open spec fn fixed_signed(millionths: int, places: Places) -> Seq<char> {
    fixed(
        millionths < 0,
        (if millionths < 0 {
            -millionths
        } else {
            millionths
        }) as nat,
        places,
    )
}

/// The line of the settings menu that shows one value.
pub open spec fn setting_text(kind: SettingValueText, settings: CameraSettings) -> Seq<char> {
    match kind {
        SettingValueText::MouseSensitivity => "Mouse Sensitivity: "@ + fixed_signed(
            settings.mouse_sensitivity as int,
            Places::Three,
        ),
        SettingValueText::KeyboardSensitivity => "Keyboard Sensitivity: "@ + fixed_signed(
            settings.keyboard_sensitivity as int,
            Places::Two,
        ),
        SettingValueText::MovementSpeed => "Movement Speed: "@ + fixed_signed(
            settings.movement_speed as int,
            Places::One,
        ),
        SettingValueText::ZoomSpeed => "Zoom Speed: "@ + fixed_signed(
            settings.zoom_speed as int,
            Places::One,
        ),
    }
}

/// The line of the settings menu that shows one value: the sensitivities
/// with three and two digits behind the point, the speeds with one.
pub fn update_setting_value_texts(kind: SettingValueText, settings: &CameraSettings) -> (line:
    String)
    ensures
        line@ == setting_text(kind, *settings),
{
    match kind {
        SettingValueText::MouseSensitivity => {
            let mut line = String::from_str("Mouse Sensitivity: ");
            push_fixed_signed(&mut line, settings.mouse_sensitivity, Places::Three);
            line
        },
        SettingValueText::KeyboardSensitivity => {
            let mut line = String::from_str("Keyboard Sensitivity: ");
            push_fixed_signed(&mut line, settings.keyboard_sensitivity, Places::Two);
            line
        },
        SettingValueText::MovementSpeed => {
            let mut line = String::from_str("Movement Speed: ");
            push_fixed_signed(&mut line, settings.movement_speed, Places::One);
            line
        },
        SettingValueText::ZoomSpeed => {
            let mut line = String::from_str("Zoom Speed: ");
            push_fixed_signed(&mut line, settings.zoom_speed, Places::One);
            line
        },
    }
}

/// Whether a slot shows its icon: it does while it holds an item.
pub fn update_item_slot_display(slot: &ItemSlot) -> (icon_visible: bool)
    ensures
        icon_visible == slot.item is Some,
{
    match slot.item {
        Some(ItemType::Fox) => true,
        None => false,
    }
}

/// The two looks of a slot's border.
#[derive(Clone, Copy, Debug, PartialEq, Eq, Structural)]
pub enum SlotBorder {
    Selected,
    Normal,
}

/// The border of a slot: that of the selected slot where its index is the
/// selected one.
pub fn update_item_slot_highlight(slot: &ItemSlot, selected: &SelectedItemSlot) -> (border:
    SlotBorder)
    ensures
        border == (if selected.slot_index == Some(slot.slot_index) {
            SlotBorder::Selected
        } else {
            SlotBorder::Normal
        }),
{
    match selected.slot_index {
        Some(index) => if index == slot.slot_index {
            SlotBorder::Selected
        } else {
            SlotBorder::Normal
        },
        None => SlotBorder::Normal,
    }
}

/// A press on `slot`: a slot that holds an item becomes the selected one, and
/// the item is returned; an empty slot changes nothing.
pub fn handle_item_slot_click(slot: &ItemSlot, selected: &mut SelectedItemSlot) -> (chosen: Option<
    ItemType,
>)
    ensures
        chosen == slot.item,
        slot.item is Some ==> *final(selected) == (SelectedItemSlot {
            slot_index: Some(slot.slot_index),
            item_type: slot.item,
        }),
        slot.item is None ==> *final(selected) == *old(selected),
{
    match slot.item {
        Some(item) => {
            selected.slot_index = Some(slot.slot_index);
            selected.item_type = Some(item);
            Some(item)
        },
        None => None,
    }
}

} // verus!
