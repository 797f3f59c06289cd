use fox_field::components::{ItemSlot, ItemType, Position};
use fox_field::entity::EntityId;
use fox_field::feedback::Feedback;
use fox_field::game_logic::{
    block_click_handler, block_hover_highlight, click_starts, click_target, fox_follow_cursor,
    CarriedFox, ClickOutcome, ClickTarget, HighlightAction, HighlightColor,
};
use fox_field::inventory::spawn_item_area;
use fox_field::picking::{Picked, Probe, Target};
use fox_field::ray::{Direction, Ray};
use fox_field::resources::{FoxMoveMode, SelectedItemSlot};

/// A ray along the x axis from the origin.
fn ray() -> Ray {
    Ray { origin: Position { x: 0, y: 0, z: 0 }, direction: Direction { x: 1_000_000, y: 0, z: 0 } }
}

/// A probe with its hit in world units.
fn probe(id: u64, selectable: bool, hit: Option<u64>) -> Probe {
    Probe { entity: EntityId(id), selectable, hit: hit.map(|d| d * 1_000_000) }
}

/// A box of the given half size that the ray enters after `hit` world
/// units, or that lies off the ray.
fn target(id: u64, selectable: bool, hit: Option<i64>, half: i64) -> Target {
    let center = match hit {
        Some(d) => Position { x: (d + half) * 1_000_000, y: 0, z: 0 },
        None => Position { x: 20_000_000, y: 50_000_000, z: 0 },
    };
    Target { entity: EntityId(id), selectable, center }
}

fn block(id: u64, selectable: bool, hit: Option<i64>) -> Target {
    target(id, selectable, hit, 8)
}

fn fox(id: u64, hit: Option<i64>) -> Target {
    target(id, true, hit, 5)
}

fn picked(index: usize, id: u64, distance: u64) -> Picked {
    Picked { index, entity: EntityId(id), distance: distance * 1_000_000 }
}

fn carrying(id: u64) -> FoxMoveMode {
    FoxMoveMode { is_active: true, is_holding: true, fox_entity: Some(EntityId(id)) }
}

#[test]
fn a_click_starts_only_off_the_interface() {
    assert!(click_starts(true, false));
    assert!(!click_starts(true, true));
    assert!(!click_starts(false, false));
    assert!(!click_starts(false, true));
}

#[test]
fn the_target_is_the_nearest_block_or_a_nearer_fox() {
    let blocks = vec![probe(1, true, Some(30)), probe(2, true, Some(20))];
    let foxes = vec![probe(9, true, Some(10))];
    assert_eq!(click_target(&blocks, &foxes, true), Some(ClickTarget::Fox(picked(0, 9, 10))));
    assert_eq!(click_target(&blocks, &foxes, false), Some(ClickTarget::Block(picked(1, 2, 20))));
    let far_fox = vec![probe(9, true, Some(25))];
    assert_eq!(click_target(&blocks, &far_fox, true), Some(ClickTarget::Block(picked(1, 2, 20))));
}

#[test]
fn a_block_wins_against_a_fox_at_the_same_distance() {
    let blocks = vec![probe(1, true, Some(20))];
    let foxes = vec![probe(9, true, Some(20))];
    assert_eq!(click_target(&blocks, &foxes, true), Some(ClickTarget::Block(picked(0, 1, 20))));
}

#[test]
fn a_fox_alone_is_a_target() {
    let blocks = vec![probe(1, false, Some(5)), probe(2, true, None)];
    let foxes = vec![probe(9, true, Some(40))];
    assert_eq!(click_target(&blocks, &foxes, true), Some(ClickTarget::Fox(picked(0, 9, 40))));
    assert_eq!(click_target(&blocks, &foxes, false), None);
}

#[test]
fn a_click_on_a_block_with_an_item_selected_places_the_item() {
    let blocks = vec![block(1, true, Some(30))];
    let foxes = vec![fox(9, Some(10))];
    let mut move_mode = FoxMoveMode::new();
    let mut selected = SelectedItemSlot { slot_index: Some(2), item_type: Some(ItemType::Fox) };
    let mut slots = spawn_item_area();
    slots[2].item = Some(ItemType::Fox);
    let outcome = block_click_handler(&ray(), &blocks, &foxes, &mut move_mode, &mut selected, &mut slots);
    assert_eq!(outcome, ClickOutcome::PlaceItem { item: ItemType::Fox, block: picked(0, 1, 30) });
    assert_eq!(outcome.feedback(), Some(Feedback::ItemPlaced));
    assert_eq!(selected, SelectedItemSlot::new());
    assert_eq!(slots, spawn_item_area());
    assert_eq!(move_mode, FoxMoveMode::new());
}

#[test]
fn placing_an_item_empties_only_the_first_slot_with_the_index() {
    let blocks = vec![block(1, true, Some(30))];
    let foxes: Vec<Target> = Vec::new();
    let mut move_mode = FoxMoveMode::new();
    let mut selected = SelectedItemSlot { slot_index: Some(7), item_type: Some(ItemType::Fox) };
    let mut slots = vec![
        ItemSlot { slot_index: 3, item: Some(ItemType::Fox) },
        ItemSlot { slot_index: 7, item: Some(ItemType::Fox) },
        ItemSlot { slot_index: 7, item: Some(ItemType::Fox) },
    ];
    block_click_handler(&ray(), &blocks, &foxes, &mut move_mode, &mut selected, &mut slots);
    assert_eq!(
        slots,
        vec![
            ItemSlot { slot_index: 3, item: Some(ItemType::Fox) },
            ItemSlot { slot_index: 7, item: None },
            ItemSlot { slot_index: 7, item: Some(ItemType::Fox) },
        ]
    );
}

#[test]
fn a_click_on_a_block_sets_the_carried_fox_down() {
    let blocks = vec![block(1, true, Some(30)), block(2, true, Some(12))];
    let foxes = vec![fox(9, Some(1))];
    let mut move_mode = carrying(9);
    let mut selected = SelectedItemSlot::new();
    let mut slots = spawn_item_area();
    let outcome = block_click_handler(&ray(), &blocks, &foxes, &mut move_mode, &mut selected, &mut slots);
    assert_eq!(
        outcome,
        ClickOutcome::PlaceFox { carried: Some(EntityId(9)), block: picked(1, 2, 12) }
    );
    assert_eq!(outcome.feedback(), Some(Feedback::FoxPlaced));
    assert_eq!(move_mode, FoxMoveMode { is_active: false, is_holding: false, fox_entity: None });
    assert_eq!(selected, SelectedItemSlot::new());
    assert_eq!(slots, spawn_item_area());
}

#[test]
fn a_selected_item_goes_before_the_carried_fox() {
    let blocks = vec![block(1, true, Some(30))];
    let foxes: Vec<Target> = Vec::new();
    let mut move_mode = carrying(9);
    let mut selected = SelectedItemSlot { slot_index: Some(0), item_type: Some(ItemType::Fox) };
    let mut slots = spawn_item_area();
    let outcome = block_click_handler(&ray(), &blocks, &foxes, &mut move_mode, &mut selected, &mut slots);
    assert_eq!(outcome, ClickOutcome::PlaceItem { item: ItemType::Fox, block: picked(0, 1, 30) });
    assert_eq!(move_mode, carrying(9));
}

#[test]
fn a_click_on_the_fox_opens_its_menu() {
    let blocks = vec![block(1, true, Some(30))];
    let foxes = vec![fox(9, Some(10))];
    let mut move_mode = FoxMoveMode::new();
    let mut selected = SelectedItemSlot::new();
    let mut slots = spawn_item_area();
    let outcome = block_click_handler(&ray(), &blocks, &foxes, &mut move_mode, &mut selected, &mut slots);
    assert_eq!(outcome, ClickOutcome::OpenFoxMenu { fox: picked(0, 9, 10) });
    assert_eq!(outcome.feedback(), None);
    assert_eq!(move_mode, FoxMoveMode::new());
    assert_eq!(selected, SelectedItemSlot::new());
}

#[test]
fn a_click_on_a_block_with_nothing_in_hand_is_a_plain_click() {
    let blocks = vec![block(1, true, Some(30))];
    let foxes = vec![fox(9, None)];
    let mut move_mode = FoxMoveMode::new();
    let mut selected = SelectedItemSlot::new();
    let mut slots = spawn_item_area();
    let outcome = block_click_handler(&ray(), &blocks, &foxes, &mut move_mode, &mut selected, &mut slots);
    assert_eq!(outcome, ClickOutcome::BlockClicked { block: picked(0, 1, 30) });
    assert_eq!(outcome.feedback(), None);
}

#[test]
fn an_item_without_a_slot_index_is_not_placed() {
    let blocks = vec![block(1, true, Some(30))];
    let foxes = vec![fox(9, Some(1))];
    let mut move_mode = FoxMoveMode::new();
    let mut selected = SelectedItemSlot { slot_index: None, item_type: Some(ItemType::Fox) };
    let mut slots = spawn_item_area();
    let outcome = block_click_handler(&ray(), &blocks, &foxes, &mut move_mode, &mut selected, &mut slots);
    assert_eq!(outcome, ClickOutcome::BlockClicked { block: picked(0, 1, 30) });
    assert_eq!(selected, SelectedItemSlot { slot_index: None, item_type: Some(ItemType::Fox) });
}

#[test]
fn move_mode_without_a_fox_in_hand_swallows_the_click() {
    let blocks = vec![block(1, true, Some(30))];
    let foxes: Vec<Target> = Vec::new();
    let mut move_mode = FoxMoveMode { is_active: true, is_holding: false, fox_entity: None };
    let mut selected = SelectedItemSlot::new();
    let mut slots = spawn_item_area();
    let outcome = block_click_handler(&ray(), &blocks, &foxes, &mut move_mode, &mut selected, &mut slots);
    assert_eq!(outcome, ClickOutcome::NoEffect);
    assert_eq!(move_mode, FoxMoveMode { is_active: true, is_holding: false, fox_entity: None });
}

#[test]
fn the_carried_fox_cannot_be_set_down_on_nothing() {
    let blocks = vec![block(1, false, Some(30))];
    let foxes = vec![fox(9, Some(3))];
    let mut move_mode = carrying(9);
    let mut selected = SelectedItemSlot::new();
    let mut slots = spawn_item_area();
    let outcome = block_click_handler(&ray(), &blocks, &foxes, &mut move_mode, &mut selected, &mut slots);
    assert_eq!(outcome, ClickOutcome::RejectPlacement);
    assert_eq!(outcome.feedback(), Some(Feedback::OnlySelectableBlocks));
    assert_eq!(move_mode, carrying(9));
}

#[test]
fn a_click_on_nothing_drops_the_selection() {
    let blocks: Vec<Target> = Vec::new();
    let foxes: Vec<Target> = Vec::new();
    let mut move_mode = FoxMoveMode::new();
    let mut selected = SelectedItemSlot { slot_index: Some(4), item_type: Some(ItemType::Fox) };
    let mut slots = spawn_item_area();
    slots[4].item = Some(ItemType::Fox);
    let before = slots.clone();
    let outcome = block_click_handler(&ray(), &blocks, &foxes, &mut move_mode, &mut selected, &mut slots);
    assert_eq!(outcome, ClickOutcome::Dismiss);
    assert_eq!(selected, SelectedItemSlot::new());
    assert_eq!(slots, before);
}

#[test]
fn a_click_on_nothing_keeps_a_selection_without_an_item() {
    let blocks: Vec<Target> = Vec::new();
    let foxes: Vec<Target> = Vec::new();
    let mut move_mode = FoxMoveMode::new();
    let mut selected = SelectedItemSlot { slot_index: Some(4), item_type: None };
    let mut slots = spawn_item_area();
    let outcome = block_click_handler(&ray(), &blocks, &foxes, &mut move_mode, &mut selected, &mut slots);
    assert_eq!(outcome, ClickOutcome::Dismiss);
    assert_eq!(selected, SelectedItemSlot { slot_index: Some(4), item_type: None });
}

#[test]
fn hovering_shows_the_highlight_on_the_nearest_block() {
    let blocks = vec![block(1, true, Some(30)), block(2, true, Some(20))];
    let idle = FoxMoveMode::new();
    assert_eq!(
        block_hover_highlight(Some(ray()), &blocks, None, &idle),
        HighlightAction::Show { block: picked(1, 2, 20), color: HighlightColor::Normal }
    );
    assert_eq!(
        block_hover_highlight(Some(ray()), &blocks, Some(EntityId(1)), &carrying(9)),
        HighlightAction::Show { block: picked(1, 2, 20), color: HighlightColor::Move }
    );
}

#[test]
fn hovering_keeps_the_highlight_where_it_is() {
    let blocks = vec![block(1, true, Some(30)), block(2, true, Some(20))];
    assert_eq!(
        block_hover_highlight(Some(ray()), &blocks, Some(EntityId(2)), &FoxMoveMode::new()),
        HighlightAction::Keep
    );
}

#[test]
fn the_highlight_goes_away_off_the_blocks_and_off_the_screen() {
    let blocks = vec![block(1, true, Some(30))];
    let nothing = vec![block(1, true, None), block(2, false, Some(4))];
    let idle = FoxMoveMode::new();
    assert_eq!(block_hover_highlight(Some(ray()), &nothing, Some(EntityId(1)), &idle), HighlightAction::Clear);
    assert_eq!(block_hover_highlight(None, &blocks, Some(EntityId(1)), &idle), HighlightAction::Clear);
    assert_eq!(block_hover_highlight(None, &blocks, None, &idle), HighlightAction::Clear);
}

#[test]
fn the_fox_in_hand_follows_the_cursor_above_the_ground() {
    let down = Ray {
        origin: Position { x: 200_000_000, y: 300_000_000, z: 200_000_000 },
        direction: Direction { x: -500_000, y: -700_000, z: -500_000 },
    };
    assert_eq!(
        fox_follow_cursor(&carrying(9), &down),
        Some(CarriedFox {
            fox: EntityId(9),
            position: Position { x: -8_571_428, y: 10_000_000, z: -8_571_428 },
        })
    );
    assert_eq!(fox_follow_cursor(&FoxMoveMode::new(), &down), None);
    let not_holding = FoxMoveMode { is_active: true, is_holding: false, fox_entity: Some(EntityId(9)) };
    assert_eq!(fox_follow_cursor(&not_holding, &down), None);
    let unknown = FoxMoveMode { is_active: true, is_holding: true, fox_entity: None };
    assert_eq!(fox_follow_cursor(&unknown, &down), None);
}

#[test]
fn the_fox_in_hand_stays_where_the_ray_misses_its_plane() {
    let up = Ray {
        origin: Position { x: 0, y: 300_000_000, z: 0 },
        direction: Direction { x: 0, y: 1_000_000, z: 0 },
    };
    let level = Ray { direction: Direction { x: 1_000_000, y: 0, z: 0 }, ..up };
    assert_eq!(fox_follow_cursor(&carrying(9), &up), None);
    assert_eq!(fox_follow_cursor(&carrying(9), &level), None);
}
