//! The box of collected items and the panel that lists them.

use vstd::prelude::*;
use vstd::string::StringExecFns;

verus! {

/// Whether the panel of the item box is shown.
#[derive(Clone, Copy, Debug, PartialEq, Eq, Structural)]
pub struct ItemBoxState {
    pub is_visible: bool,
}

/// The names of the items in the box.
#[derive(Debug)]
pub struct ItemBox {
    pub items: Vec<String>,
}

/// What the panel is to look like after a press on its button.
#[derive(Debug)]
pub struct PanelUpdate {
    pub visible: bool,
    /// The lines of the panel, where it is shown: they take the place of
    /// those it had.
    pub entries: Option<Vec<String>>,
}

/// The line that the panel shows for an item: a bullet, a blank, the name.
pub open spec fn entry_text(item: Seq<char>) -> Seq<char> {
    "• "@ + item
}

/// `lines` are the panel's lines for `items`, one for each in order.
pub open spec fn are_entries(lines: Seq<String>, items: Seq<String>) -> bool {
    &&& lines.len() == items.len()
    &&& forall|i: int| 0 <= i < items.len() ==> (#[trigger] lines[i])@ == entry_text(items[i]@)
}

impl ItemBox {
    /// The lines of the panel.
    pub fn entries(&self) -> (lines: Vec<String>)
        ensures
            are_entries(lines@, self.items@),
    {
        let mut lines: Vec<String> = Vec::new();
        let mut i: usize = 0;
        while i < self.items.len()
            invariant
                i <= self.items.len(),
                lines.len() == i,
                forall|j: int| 0 <= j < i ==> (#[trigger] lines[j])@ == entry_text(self.items[j]@),
            decreases self.items.len() - i,
        {
            let mut line = String::from_str("• ");
            line.append(self.items[i].as_str());
            lines.push(line);
            i += 1;
        }
        lines
    }
}

/// The names that the box holds at the start, in order.
pub open spec fn initial_items() -> Seq<Seq<char>> {
    seq!["item1"@, "item2"@, "item3"@, "rare_item"@]
}

/// The item box at the start of a game: four items, and the panel hidden.
pub fn setup_item_box() -> (made: (ItemBoxState, ItemBox))
    ensures
        !made.0.is_visible,
        made.1.items.len() == 4,
        forall|i: int| 0 <= i < 4 ==> (#[trigger] made.1.items[i])@ == initial_items()[i],
{
    let mut items: Vec<String> = Vec::new();
    items.push(String::from_str("item1"));
    items.push(String::from_str("item2"));
    items.push(String::from_str("item3"));
    items.push(String::from_str("rare_item"));
    (ItemBoxState { is_visible: false }, ItemBox { items: items })
}

/// A press on the button of the item box: the panel changes between shown
/// and hidden, and a panel that is shown gets its lines anew.
pub fn item_box_button_system(state: &mut ItemBoxState, item_box: &ItemBox) -> (update: PanelUpdate)
    ensures
        final(state).is_visible == !old(state).is_visible,
        update.visible == final(state).is_visible,
        update.visible ==> update.entries is Some && are_entries(
            update.entries->0@,
            item_box.items@,
        ),
        !update.visible ==> update.entries is None,
{
    state.is_visible = !state.is_visible;
    if state.is_visible {
        PanelUpdate { visible: true, entries: Some(item_box.entries()) }
    } else {
        PanelUpdate { visible: false, entries: None }
    }
}

} // verus!
