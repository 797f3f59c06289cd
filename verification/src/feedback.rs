//! The messages that the game shows to the player.

use vstd::prelude::*;
use vstd::string::StringExecFns;
use crate::components::ItemType;
use crate::fox_control::{FoxActionOutcome, PossessionExit};
use crate::game_logic::ClickOutcome;
use crate::text::{fixed, push_fixed, Places};
use crate::weather::WeatherChange;

verus! {

/// A message for the feedback line.
#[derive(Clone, Copy, Debug, PartialEq, Eq, Structural)]
pub enum Feedback {
    /// An item from a slot was set down.
    ItemPlaced,
    /// The carried fox was set down.
    FoxPlaced,
    /// The carried fox cannot be set down here.
    OnlySelectableBlocks,
    /// The line is emptied.
    Nothing,
    /// The fox was picked up.
    MoveModeStarted,
    /// The fox went into a slot.
    FoxStored,
    /// No slot is free.
    SlotsFull,
    /// The player took over the fox.
    PossessionStarted,
    /// The player let go of the fox.
    PossessionEnded,
    /// A slot with this item was selected.
    ItemSelected(ItemType),
}

impl ItemType {
    /// The name of the item.
    pub open spec fn name_spec(self) -> Seq<char> {
        match self {
            ItemType::Fox => "Fox"@,
        }
    }

    /// The name of the item.
    pub fn name(&self) -> (name: &'static str)
        ensures
            name@ == self.name_spec(),
    {
        match self {
            ItemType::Fox => "Fox",
        }
    }
}

impl Feedback {
    /// The words of the message.
    pub open spec fn text_spec(self) -> Seq<char> {
        match self {
            Feedback::ItemPlaced => "アイテムを設置しました！"@,
            Feedback::FoxPlaced => "キツネを設置しました！"@,
            Feedback::OnlySelectableBlocks => "選択可能なブロックにのみ設置できます！"@,
            Feedback::Nothing => ""@,
            Feedback::MoveModeStarted => "移動モード: 移動先をクリックして設置してください"@,
            Feedback::FoxStored => "キツネをアイテムエリアに格納しました！"@,
            Feedback::SlotsFull => "アイテムスロットがいっぱいです！"@,
            Feedback::PossessionStarted => "Possessionモード: WASDキーでキツネを操作できます (Escで解除)"@,
            Feedback::PossessionEnded => "Possessionモードを解除しました"@,
            Feedback::ItemSelected(item) => "アイテムを選択しました: "@ + item.name_spec(),
        }
    }

    /// The words of the message.
    pub fn text(&self) -> (text: String)
        ensures
            text@ == self.text_spec(),
    {
        match self {
            Feedback::ItemPlaced => String::from_str("アイテムを設置しました！"),
            Feedback::FoxPlaced => String::from_str("キツネを設置しました！"),
            Feedback::OnlySelectableBlocks => String::from_str("選択可能なブロックにのみ設置できます！"),
            Feedback::Nothing => String::from_str(""),
            Feedback::MoveModeStarted => String::from_str("移動モード: 移動先をクリックして設置してください"),
            Feedback::FoxStored => String::from_str("キツネをアイテムエリアに格納しました！"),
            Feedback::SlotsFull => String::from_str("アイテムスロットがいっぱいです！"),
            Feedback::PossessionStarted => String::from_str(
                "Possessionモード: WASDキーでキツネを操作できます (Escで解除)",
            ),
            Feedback::PossessionEnded => String::from_str("Possessionモードを解除しました"),
            Feedback::ItemSelected(item) => {
                let mut text = String::from_str("アイテムを選択しました: ");
                text.append(item.name());
                text
            },
        }
    }
}

impl ClickOutcome {
    /// The message that goes with the outcome, where it has one of its own.
    /// A click on the fox or on a block leaves the message to the timer of
    /// what was clicked.
    pub open spec fn feedback_spec(self) -> Option<Feedback> {
        match self {
            ClickOutcome::PlaceItem { .. } => Some(Feedback::ItemPlaced),
            ClickOutcome::PlaceFox { .. } => Some(Feedback::FoxPlaced),
            ClickOutcome::RejectPlacement => Some(Feedback::OnlySelectableBlocks),
            _ => None,
        }
    }

    /// The message that goes with the outcome, where it has one of its own.
    pub fn feedback(&self) -> (feedback: Option<Feedback>)
        ensures
            feedback == self.feedback_spec(),
    {
        match self {
            ClickOutcome::PlaceItem { .. } => Some(Feedback::ItemPlaced),
            ClickOutcome::PlaceFox { .. } => Some(Feedback::FoxPlaced),
            ClickOutcome::RejectPlacement => Some(Feedback::OnlySelectableBlocks),
            _ => None,
        }
    }
}

impl FoxActionOutcome {
    /// The message that goes with the outcome; without a fox there is none.
    pub open spec fn feedback_spec(self) -> Option<Feedback> {
        match self {
            FoxActionOutcome::NoFox => None,
            FoxActionOutcome::MoveStarted => Some(Feedback::MoveModeStarted),
            FoxActionOutcome::Stored { .. } => Some(Feedback::FoxStored),
            FoxActionOutcome::SlotsFull => Some(Feedback::SlotsFull),
            FoxActionOutcome::Possessed => Some(Feedback::PossessionStarted),
        }
    }

    /// The message that goes with the outcome.
    pub fn feedback(&self) -> (feedback: Option<Feedback>)
        ensures
            feedback == self.feedback_spec(),
    {
        match self {
            FoxActionOutcome::NoFox => None,
            FoxActionOutcome::MoveStarted => Some(Feedback::MoveModeStarted),
            FoxActionOutcome::Stored { .. } => Some(Feedback::FoxStored),
            FoxActionOutcome::SlotsFull => Some(Feedback::SlotsFull),
            FoxActionOutcome::Possessed => Some(Feedback::PossessionStarted),
        }
    }

    /// Whether the fox's menu closes: it does unless there is no fox.
    pub fn closes_menu(&self) -> (closes: bool)
        ensures
            closes == !(self is NoFox),
    {
        match self {
            FoxActionOutcome::NoFox => false,
            _ => true,
        }
    }
}

impl<T> PossessionExit<T> {
    /// The message that goes with the end of possession.
    pub fn feedback(&self) -> (feedback: Option<Feedback>)
        ensures
            feedback == (if self is Leave {
                Some(Feedback::PossessionEnded)
            } else {
                None
            }),
    {
        match self {
            PossessionExit::Leave { .. } => Some(Feedback::PossessionEnded),
            PossessionExit::Stay => None,
        }
    }
}

/// The name of a kind of weather.
pub open spec fn weather_name(is_raining: bool) -> Seq<char> {
    if is_raining {
        "雨"@
    } else {
        "晴れ"@
    }
}

impl WeatherChange {
    /// The line that announces the change: the new weather, and the time
    /// until the next change in seconds with one digit behind the point.
    pub open spec fn announcement_spec(self) -> Seq<char> {
        "天候変化: "@ + weather_name(self.is_raining) + " (次の変化まで: "@ + fixed(
            false,
            self.time_until_change as nat,
            Places::One,
        ) + "秒)"@
    }

    /// The line that announces the change.
    pub fn announcement(&self) -> (line: String)
        ensures
            line@ == self.announcement_spec(),
    {
        let mut line = String::from_str("天候変化: ");
        if self.is_raining {
            line.append("雨");
        } else {
            line.append("晴れ");
        }
        line.append(" (次の変化まで: ");
        push_fixed(&mut line, false, self.time_until_change, Places::One);
        line.append("秒)");
        assert(line@ =~= self.announcement_spec());
        line
    }
}

} // verus!
