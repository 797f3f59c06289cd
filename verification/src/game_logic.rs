//! What a click or a hover does to the game.

use vstd::prelude::*;
use crate::components::{ItemSlot, ItemType, Position};
use crate::constants::{FOX_HOVER_HEIGHT, FOX_INITIAL_HEIGHT, SCALE};
use crate::entity::{is_same_entity, EntityId};
use crate::inventory::{clear_slot, slots_without};
use crate::picking::{cast, cast_spec, closest, closest_spec, Picked, Probe, Target, FARTHEST};
use crate::ray::{ray_at_height, ray_at_height_spec, Ray};
use crate::resources::{FoxMoveMode, SelectedItemSlot};

verus! {

/// What the cursor's ray points at.
#[derive(Clone, Copy, Debug, PartialEq, Eq, Structural)]
pub enum ClickTarget {
    Block(Picked),
    Fox(Picked),
}

/// Foxes can be clicked unless one is being carried or an item is selected.
pub open spec fn foxes_pickable(move_mode: FoxMoveMode, selected: SelectedItemSlot) -> bool {
    !move_mode.is_active && selected.item_type is None
}

/// The target that `click_target` owes: the nearest block, unless foxes can
/// be clicked and a fox is strictly nearer than every block.
pub open spec fn click_target_spec(
    blocks: Seq<Probe>,
    foxes: Seq<Probe>,
    with_foxes: bool,
) -> Option<ClickTarget> {
    let block = closest_spec(blocks, FARTHEST);
    let limit = match block {
        Some(p) => p.distance,
        None => FARTHEST,
    };
    let fox = if with_foxes {
        closest_spec(foxes, limit)
    } else {
        None
    };
    match fox {
        Some(p) => Some(ClickTarget::Fox(p)),
        None => match block {
            Some(p) => Some(ClickTarget::Block(p)),
            None => None,
        },
    }
}

/// Finds what the ray points at among the blocks and, where `with_foxes`
/// holds, the foxes.
pub fn click_target(blocks: &Vec<Probe>, foxes: &Vec<Probe>, with_foxes: bool) -> (target: Option<
    ClickTarget,
>)
    ensures
        target == click_target_spec(blocks@, foxes@, with_foxes),
{
    let block = closest(blocks, FARTHEST);
    let limit = match block {
        Some(p) => p.distance,
        None => FARTHEST,
    };
    let fox = if with_foxes {
        closest(foxes, limit)
    } else {
        None
    };
    match fox {
        Some(p) => Some(ClickTarget::Fox(p)),
        None => match block {
            Some(p) => Some(ClickTarget::Block(p)),
            None => None,
        },
    }
}

/// Whether a frame's mouse state starts a click on the world: the left button
/// went down in this frame and no button of the interface is pressed.
pub fn click_starts(left_just_pressed: bool, ui_button_pressed: bool) -> (starts: bool)
    ensures
        starts == (left_just_pressed && !ui_button_pressed),
{
    left_just_pressed && !ui_button_pressed
}

/// What a click on the world leads to.
#[derive(Clone, Copy, Debug, PartialEq, Eq, Structural)]
pub enum ClickOutcome {
    /// The item of the selected slot is set down on the block.
    PlaceItem { item: ItemType, block: Picked },
    /// The carried fox, if one is known, is set down on the block.
    PlaceFox { carried: Option<EntityId>, block: Picked },
    /// The fox was clicked: open menus close, the fox's menu opens and its
    /// timer starts over.
    OpenFoxMenu { fox: Picked },
    /// A block was clicked: open menus close and the block's timer, if it has
    /// one, starts over.
    BlockClicked { block: Picked },
    /// Something was hit while move mode is on without a fox in hand.
    NoEffect,
    /// The carried fox cannot be set down where nothing selectable is.
    RejectPlacement,
    /// Nothing was hit: open menus close.
    Dismiss,
}

/// The outcome that `block_click_handler` owes.
pub open spec fn click_outcome_spec(
    target: Option<ClickTarget>,
    move_mode: FoxMoveMode,
    selected: SelectedItemSlot,
) -> ClickOutcome {
    match target {
        Some(ClickTarget::Block(p)) => {
            if selected.item_type is Some && selected.slot_index is Some {
                ClickOutcome::PlaceItem { item: selected.item_type->0, block: p }
            } else if move_mode.is_active && move_mode.is_holding {
                ClickOutcome::PlaceFox { carried: move_mode.fox_entity, block: p }
            } else if move_mode.is_active {
                ClickOutcome::NoEffect
            } else {
                ClickOutcome::BlockClicked { block: p }
            }
        },
        Some(ClickTarget::Fox(p)) => {
            if move_mode.is_active {
                ClickOutcome::NoEffect
            } else {
                ClickOutcome::OpenFoxMenu { fox: p }
            }
        },
        None => {
            if move_mode.is_active && move_mode.is_holding {
                ClickOutcome::RejectPlacement
            } else {
                ClickOutcome::Dismiss
            }
        },
    }
}

/// Move mode after a click: setting the fox down ends it.
pub open spec fn move_mode_after(outcome: ClickOutcome, move_mode: FoxMoveMode) -> FoxMoveMode {
    if outcome is PlaceFox {
        FoxMoveMode::idle()
    } else {
        move_mode
    }
}

/// The selection after a click: placing an item uses it up, and a click on
/// nothing drops a selected item.
pub open spec fn selection_after(
    outcome: ClickOutcome,
    selected: SelectedItemSlot,
) -> SelectedItemSlot {
    if outcome is PlaceItem || (outcome is Dismiss && selected.item_type is Some) {
        SelectedItemSlot::nothing()
    } else {
        selected
    }
}

/// The slots after a click: placing an item empties the selected slot.
pub open spec fn slots_after(
    outcome: ClickOutcome,
    selected: SelectedItemSlot,
    slots: Seq<ItemSlot>,
) -> Seq<ItemSlot> {
    if outcome is PlaceItem && selected.slot_index is Some {
        slots_without(slots, selected.slot_index->0)
    } else {
        slots
    }
}

/// Half the edge of the cube that stands for a block in picking, in
/// millionths of a world unit.
pub const BLOCK_HALF_SIZE: i64 = 8_000_000;

/// Half the edge of the cube that stands for a fox in picking, in millionths
/// of a world unit.
pub const FOX_HALF_SIZE: i64 = 5_000_000;

/// The target of a click with the ray `ray` on the blocks and foxes.
pub open spec fn clicked_spec(
    ray: Ray,
    blocks: Seq<Target>,
    foxes: Seq<Target>,
    move_mode: FoxMoveMode,
    selected: SelectedItemSlot,
) -> Option<ClickTarget> {
    click_target_spec(
        cast_spec(ray, blocks, BLOCK_HALF_SIZE),
        cast_spec(ray, foxes, FOX_HALF_SIZE),
        foxes_pickable(move_mode, selected),
    )
}

/// Handles a click on the world. `ray` is the ray from the cursor, `blocks`
/// and `foxes` are what it can hit. The outcome says what is to be done with
/// the world; move mode, the selection and the slots are brought up to date
/// here.
pub fn block_click_handler(
    ray: &Ray,
    blocks: &Vec<Target>,
    foxes: &Vec<Target>,
    move_mode: &mut FoxMoveMode,
    selected: &mut SelectedItemSlot,
    slots: &mut Vec<ItemSlot>,
) -> (outcome: ClickOutcome)
    ensures
        outcome == click_outcome_spec(
            clicked_spec(*ray, blocks@, foxes@, *old(move_mode), *old(selected)),
            *old(move_mode),
            *old(selected),
        ),
        *final(move_mode) == move_mode_after(outcome, *old(move_mode)),
        *final(selected) == selection_after(outcome, *old(selected)),
        final(slots)@ == slots_after(outcome, *old(selected), old(slots)@),
{
    let with_foxes = !move_mode.is_active && selected.item_type.is_none();
    let block_probes = cast(ray, blocks, BLOCK_HALF_SIZE);
    let fox_probes = cast(ray, foxes, FOX_HALF_SIZE);
    let target = click_target(&block_probes, &fox_probes, with_foxes);
    match target {
        Some(ClickTarget::Block(p)) => {
            match (selected.item_type, selected.slot_index) {
                (Some(item), Some(slot_index)) => {
                    clear_slot(slots, slot_index);
                    selected.clear();
                    return ClickOutcome::PlaceItem { item: item, block: p };
                },
                _ => {},
            }
            if move_mode.is_active && move_mode.is_holding {
                let fox = move_mode.fox_entity;
                move_mode.is_active = false;
                move_mode.is_holding = false;
                move_mode.fox_entity = None;
                ClickOutcome::PlaceFox { carried: fox, block: p }
            } else if move_mode.is_active {
                ClickOutcome::NoEffect
            } else {
                ClickOutcome::BlockClicked { block: p }
            }
        },
        Some(ClickTarget::Fox(p)) => {
            if move_mode.is_active {
                ClickOutcome::NoEffect
            } else {
                ClickOutcome::OpenFoxMenu { fox: p }
            }
        },
        None => {
            if move_mode.is_active && move_mode.is_holding {
                ClickOutcome::RejectPlacement
            } else {
                if selected.item_type.is_some() {
                    selected.clear();
                }
                ClickOutcome::Dismiss
            }
        },
    }
}

/// The two looks of the hover highlight.
#[derive(Clone, Copy, Debug, PartialEq, Eq, Structural)]
pub enum HighlightColor {
    /// Nothing is carried.
    Normal,
    /// The fox is carried and can be set down here.
    Move,
}

/// What is to be done with the hover highlight.
#[derive(Clone, Copy, Debug, PartialEq, Eq, Structural)]
pub enum HighlightAction {
    /// The highlight is where it belongs.
    Keep,
    /// Every highlight goes away.
    Clear,
    /// Every highlight goes away and a new one appears on the block.
    Show { block: Picked, color: HighlightColor },
}

/// The colour of a new highlight.
pub open spec fn highlight_color_spec(move_mode: FoxMoveMode) -> HighlightColor {
    if move_mode.is_active {
        HighlightColor::Move
    } else {
        HighlightColor::Normal
    }
}

/// The action that `block_hover_highlight` owes.
pub open spec fn hover_action_spec(
    ray: Option<Ray>,
    blocks: Seq<Target>,
    highlighted: Option<EntityId>,
    move_mode: FoxMoveMode,
) -> HighlightAction {
    if ray is None {
        HighlightAction::Clear
    } else {
        match closest_spec(cast_spec(ray->0, blocks, BLOCK_HALF_SIZE), FARTHEST) {
            Some(p) => {
                if highlighted == Some(p.entity) {
                    HighlightAction::Keep
                } else {
                    HighlightAction::Show { block: p, color: highlight_color_spec(move_mode) }
                }
            },
            None => HighlightAction::Clear,
        }
    }
}

/// Decides what happens to the hover highlight in one frame. `ray` is the
/// ray from the cursor, or nothing while the cursor is off the screen;
/// `blocks` are the blocks it can hit, `highlighted` is the block that
/// carries the highlight now.
pub fn block_hover_highlight(
    ray: Option<Ray>,
    blocks: &Vec<Target>,
    highlighted: Option<EntityId>,
    move_mode: &FoxMoveMode,
) -> (action: HighlightAction)
    ensures
        action == hover_action_spec(ray, blocks@, highlighted, *move_mode),
{
    let probes = match ray {
        Some(ray) => cast(&ray, blocks, BLOCK_HALF_SIZE),
        None => {
            return HighlightAction::Clear;
        },
    };
    match closest(&probes, FARTHEST) {
        Some(p) => {
            if is_same_entity(highlighted, Some(p.entity)) {
                HighlightAction::Keep
            } else {
                let color = if move_mode.is_active {
                    HighlightColor::Move
                } else {
                    HighlightColor::Normal
                };
                HighlightAction::Show { block: p, color: color }
            }
        },
        None => HighlightAction::Clear,
    }
}

/// Where a carried fox is to be.
#[derive(Clone, Copy, Debug, PartialEq, Eq, Structural)]
pub struct CarriedFox {
    pub fox: EntityId,
    pub position: Position,
}

/// Height of the plane on which a carried fox follows the cursor, in
/// millionths of a world unit.
pub const CARRY_PLANE_HEIGHT: i64 = 8_000_000;

/// Height at which a carried fox floats, in millionths of a world unit.
pub const CARRY_HEIGHT: i64 = 10_000_000;

/// What `fox_follow_cursor` owes.
pub open spec fn follow_spec(move_mode: FoxMoveMode, ray: Ray) -> Option<CarriedFox> {
    if move_mode.carrying() && move_mode.fox_entity is Some && ray_at_height_spec(
        ray,
        CARRY_PLANE_HEIGHT,
    ) is Some {
        let point = ray_at_height_spec(ray, CARRY_PLANE_HEIGHT)->0;
        Some(
            CarriedFox {
                fox: move_mode.fox_entity->0,
                position: Position { x: point.x, y: CARRY_HEIGHT, z: point.z },
            },
        )
    } else {
        None
    }
}

/// Where a carried fox is to be in this frame: over the point at which the
/// ray from the cursor reaches the height where the fox stands, a little
/// above it. There is no such place while no fox is in hand, and none where
/// the ray does not reach that height ahead of its origin.
pub fn fox_follow_cursor(move_mode: &FoxMoveMode, ray: &Ray) -> (carried: Option<CarriedFox>)
    ensures
        carried == follow_spec(*move_mode, *ray),
{
    assert(CARRY_PLANE_HEIGHT == FOX_INITIAL_HEIGHT * SCALE);
    assert(CARRY_HEIGHT == (FOX_INITIAL_HEIGHT + FOX_HOVER_HEIGHT) * SCALE);
    if !move_mode.is_active || !move_mode.is_holding {
        return None;
    }
    let fox = match move_mode.fox_entity {
        Some(fox) => fox,
        None => {
            return None;
        },
    };
    match ray_at_height(ray, CARRY_PLANE_HEIGHT) {
        Some(point) => Some(
            CarriedFox { fox: fox, position: Position { x: point.x, y: CARRY_HEIGHT, z: point.z } },
        ),
        None => None,
    }
}

} // verus!
