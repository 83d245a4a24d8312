//! The closed set of tokens that identify the nodes of a choice tree.

use vstd::prelude::*;

verus! {

/// Identity of a node in a choice tree.
///
/// `ChoseNth(tag, Some(index))` carries an index that the player picked one
/// level above (an inventory slot, an emote) through the tree.
#[derive(Debug)]
pub enum ChoiceKind {
    Menu,
    UseItem,
    DropItem,
    Yes,
    No,
    Battle,
    Escape,
    Special,
    ItemInventory,
    Spell,
    Equip,
    Save,
    Title,
    CloseMenu,
    Emote,
    SendEmote,
    Chat,
    Nth(String),
    ChoseNth(String, Option<usize>),
    ItemOperation,
    Confirm,
    Decide,
    Undo,
    Root,
}

/// Mathematical value of a `ChoiceKind`: the same variants over character
/// sequences.
pub enum ChoiceKindView {
    Menu,
    UseItem,
    DropItem,
    Yes,
    No,
    Battle,
    Escape,
    Special,
    ItemInventory,
    Spell,
    Equip,
    Save,
    Title,
    CloseMenu,
    Emote,
    SendEmote,
    Chat,
    Nth(Seq<char>),
    ChoseNth(Seq<char>, Option<usize>),
    ItemOperation,
    Confirm,
    Decide,
    Undo,
    Root,
}

impl View for ChoiceKind {
    type V = ChoiceKindView;

    open spec fn view(&self) -> ChoiceKindView {
        match self {
            ChoiceKind::Menu => ChoiceKindView::Menu,
            ChoiceKind::UseItem => ChoiceKindView::UseItem,
            ChoiceKind::DropItem => ChoiceKindView::DropItem,
            ChoiceKind::Yes => ChoiceKindView::Yes,
            ChoiceKind::No => ChoiceKindView::No,
            ChoiceKind::Battle => ChoiceKindView::Battle,
            ChoiceKind::Escape => ChoiceKindView::Escape,
            ChoiceKind::Special => ChoiceKindView::Special,
            ChoiceKind::ItemInventory => ChoiceKindView::ItemInventory,
            ChoiceKind::Spell => ChoiceKindView::Spell,
            ChoiceKind::Equip => ChoiceKindView::Equip,
            ChoiceKind::Save => ChoiceKindView::Save,
            ChoiceKind::Title => ChoiceKindView::Title,
            ChoiceKind::CloseMenu => ChoiceKindView::CloseMenu,
            ChoiceKind::Emote => ChoiceKindView::Emote,
            ChoiceKind::SendEmote => ChoiceKindView::SendEmote,
            ChoiceKind::Chat => ChoiceKindView::Chat,
            ChoiceKind::Nth(tag) => ChoiceKindView::Nth(tag@),
            ChoiceKind::ChoseNth(tag, index) => ChoiceKindView::ChoseNth(tag@, *index),
            ChoiceKind::ItemOperation => ChoiceKindView::ItemOperation,
            ChoiceKind::Confirm => ChoiceKindView::Confirm,
            ChoiceKind::Decide => ChoiceKindView::Decide,
            ChoiceKind::Undo => ChoiceKindView::Undo,
            ChoiceKind::Root => ChoiceKindView::Root,
        }
    }
}

impl ChoiceKindView {
    /// The label shown for a token; empty for the tokens that are never
    /// listed by themselves.
    pub open spec fn choice_string(self) -> Seq<char> {
        match self {
            ChoiceKindView::UseItem => "つかう"@,
            ChoiceKindView::DropItem => "すてる"@,
            ChoiceKindView::Yes => "はい"@,
            ChoiceKindView::No => "いいえ"@,
            ChoiceKindView::Battle => "たたかう"@,
            ChoiceKindView::Escape => "にげる"@,
            ChoiceKindView::Special => "とくぎ"@,
            ChoiceKindView::ItemInventory => "どうぐ"@,
            ChoiceKindView::Spell => "じゅもん"@,
            ChoiceKindView::Equip => "そうび"@,
            ChoiceKindView::Save => "セーブ"@,
            ChoiceKindView::Title => "タイトル"@,
            ChoiceKindView::CloseMenu => "とじる"@,
            ChoiceKindView::Emote => "エモート"@,
            ChoiceKindView::Chat => "チャット"@,
            _ => ""@,
        }
    }

    /// Whether a choice made at a node of this kind is data, not navigation:
    /// such a node has one child, and the index picked is recorded in it.
    pub open spec fn index_is_data(self) -> bool {
        self is ItemInventory || self is Emote || self is ChoseNth
    }
}

impl Clone for ChoiceKind {
    fn clone(&self) -> (copy: Self)
        ensures
            copy@ == self@,
    {
        match self {
            ChoiceKind::Menu => ChoiceKind::Menu,
            ChoiceKind::UseItem => ChoiceKind::UseItem,
            ChoiceKind::DropItem => ChoiceKind::DropItem,
            ChoiceKind::Yes => ChoiceKind::Yes,
            ChoiceKind::No => ChoiceKind::No,
            ChoiceKind::Battle => ChoiceKind::Battle,
            ChoiceKind::Escape => ChoiceKind::Escape,
            ChoiceKind::Special => ChoiceKind::Special,
            ChoiceKind::ItemInventory => ChoiceKind::ItemInventory,
            ChoiceKind::Spell => ChoiceKind::Spell,
            ChoiceKind::Equip => ChoiceKind::Equip,
            ChoiceKind::Save => ChoiceKind::Save,
            ChoiceKind::Title => ChoiceKind::Title,
            ChoiceKind::CloseMenu => ChoiceKind::CloseMenu,
            ChoiceKind::Emote => ChoiceKind::Emote,
            ChoiceKind::SendEmote => ChoiceKind::SendEmote,
            ChoiceKind::Chat => ChoiceKind::Chat,
            ChoiceKind::Nth(tag) => ChoiceKind::Nth(tag.clone()),
            ChoiceKind::ChoseNth(tag, index) => ChoiceKind::ChoseNth(tag.clone(), *index),
            ChoiceKind::ItemOperation => ChoiceKind::ItemOperation,
            ChoiceKind::Confirm => ChoiceKind::Confirm,
            ChoiceKind::Decide => ChoiceKind::Decide,
            ChoiceKind::Undo => ChoiceKind::Undo,
            ChoiceKind::Root => ChoiceKind::Root,
        }
    }
}

impl ChoiceKind {
    /// The label shown for this token.
    pub fn get_choice_string(&self) -> (label: String)
        ensures
            label@ == self@.choice_string(),
    {
        let text = match self {
            ChoiceKind::UseItem => "つかう",
            ChoiceKind::DropItem => "すてる",
            ChoiceKind::Yes => "はい",
            ChoiceKind::No => "いいえ",
            ChoiceKind::Battle => "たたかう",
            ChoiceKind::Escape => "にげる",
            ChoiceKind::Special => "とくぎ",
            ChoiceKind::ItemInventory => "どうぐ",
            ChoiceKind::Spell => "じゅもん",
            ChoiceKind::Equip => "そうび",
            ChoiceKind::Save => "セーブ",
            ChoiceKind::Title => "タイトル",
            ChoiceKind::CloseMenu => "とじる",
            ChoiceKind::Emote => "エモート",
            ChoiceKind::Chat => "チャット",
            _ => "",
        };
        text.to_owned()
    }

    /// Whether a choice made at a node of this kind is data, not navigation.
    pub fn index_is_data(&self) -> (data: bool)
        ensures
            data == self@.index_is_data(),
    {
        match self {
            ChoiceKind::ItemInventory | ChoiceKind::Emote | ChoiceKind::ChoseNth(..) => true,
            _ => false,
        }
    }

    /// Whether two tokens are the same, tag and index included.
    pub fn same_as(&self, other: &ChoiceKind) -> (same: bool)
        ensures
            same == (self@ == other@),
    {
        match (self, other) {
            (ChoiceKind::Menu, ChoiceKind::Menu) => true,
            (ChoiceKind::UseItem, ChoiceKind::UseItem) => true,
            (ChoiceKind::DropItem, ChoiceKind::DropItem) => true,
            (ChoiceKind::Yes, ChoiceKind::Yes) => true,
            (ChoiceKind::No, ChoiceKind::No) => true,
            (ChoiceKind::Battle, ChoiceKind::Battle) => true,
            (ChoiceKind::Escape, ChoiceKind::Escape) => true,
            (ChoiceKind::Special, ChoiceKind::Special) => true,
            (ChoiceKind::ItemInventory, ChoiceKind::ItemInventory) => true,
            (ChoiceKind::Spell, ChoiceKind::Spell) => true,
            (ChoiceKind::Equip, ChoiceKind::Equip) => true,
            (ChoiceKind::Save, ChoiceKind::Save) => true,
            (ChoiceKind::Title, ChoiceKind::Title) => true,
            (ChoiceKind::CloseMenu, ChoiceKind::CloseMenu) => true,
            (ChoiceKind::Emote, ChoiceKind::Emote) => true,
            (ChoiceKind::SendEmote, ChoiceKind::SendEmote) => true,
            (ChoiceKind::Chat, ChoiceKind::Chat) => true,
            (ChoiceKind::Nth(a), ChoiceKind::Nth(b)) => *a == *b,
            (ChoiceKind::ChoseNth(a, i), ChoiceKind::ChoseNth(b, j)) => {
                *a == *b && match (i, j) {
                    (Some(x), Some(y)) => *x == *y,
                    (None, None) => true,
                    _ => false,
                }
            },
            (ChoiceKind::ItemOperation, ChoiceKind::ItemOperation) => true,
            (ChoiceKind::Confirm, ChoiceKind::Confirm) => true,
            (ChoiceKind::Decide, ChoiceKind::Decide) => true,
            (ChoiceKind::Undo, ChoiceKind::Undo) => true,
            (ChoiceKind::Root, ChoiceKind::Root) => true,
            _ => false,
        }
    }
}

} // verus!
