//! Items: value objects that are rebuilt from their name.

use crate::text::text_is;
use vstd::prelude::*;

verus! {

/// What an item is for.
#[derive(Clone, Copy, Debug, PartialEq, Eq, Structural)]
pub enum ItemType {
    Weapon,
    Consumable,
    Key,
}

/// An item of the game. The name identifies it: it is the key under which
/// the item is saved and by which it is built again.
#[derive(Debug)]
pub struct Item {
    pub name: String,
    pub item_type: ItemType,
    pub description: String,
}

/// Mathematical value of an `Item`.
pub struct ItemView {
    pub name: Seq<char>,
    pub item_type: ItemType,
    pub description: Seq<char>,
}

impl View for Item {
    type V = ItemView;

    open spec fn view(&self) -> ItemView {
        ItemView { name: self.name@, item_type: self.item_type, description: self.description@ }
    }
}

/// Views of a sequence of items, element by element.
pub open spec fn items_view(items: Seq<Item>) -> Seq<ItemView> {
    items.map_values(|i: Item| i@)
}

/// Hit points that the herb gives back.
pub const HERB_HEAL: u32 = 30;

/// Whether `name` names an item of the game.
pub open spec fn is_item_name(name: Seq<char>) -> bool {
    name == "薬草"@ || name == "棍棒"@ || name == "最初の鍵"@
}

/// The item that `name` stands for.
pub open spec fn item_of_name(name: Seq<char>) -> ItemView {
    if name == "薬草"@ {
        ItemView { name, item_type: ItemType::Consumable, description: "HPを30回復"@ }
    } else if name == "棍棒"@ {
        ItemView { name, item_type: ItemType::Weapon, description: "粗悪な武器"@ }
    } else {
        ItemView { name, item_type: ItemType::Key, description: ""@ }
    }
}

/// Hit points after an item was used: the herb heals by `HERB_HEAL` up to
/// the maximum; nothing else changes them.
pub open spec fn hp_after_use(item: ItemView, current_hp: u32, max_hp: u32) -> u32 {
    if item.item_type == ItemType::Consumable && item.name == "薬草"@ {
        if current_hp + HERB_HEAL >= max_hp {
            max_hp
        } else {
            (current_hp + HERB_HEAL) as u32
        }
    } else {
        current_hp
    }
}

impl Item {
    /// Whether `name` names an item of the game.
    pub fn is_known(name: &String) -> (known: bool)
        ensures
            known == is_item_name(name@),
    {
        text_is(name, "薬草") || text_is(name, "棍棒") || text_is(name, "最初の鍵")
    }

    /// Builds the item that `name` stands for. A name that stands for no
    /// item is a defect of the caller.
    pub fn new(name: &str) -> (item: Item)
        requires
            is_item_name(name@),
        ensures
            item@ == item_of_name(name@),
    {
        let owned = name.to_owned();
        if text_is(&owned, "薬草") {
            Item {
                name: owned,
                item_type: ItemType::Consumable,
                description: "HPを30回復".to_owned(),
            }
        } else if text_is(&owned, "棍棒") {
            Item { name: owned, item_type: ItemType::Weapon, description: "粗悪な武器".to_owned() }
        } else {
            Item { name: owned, item_type: ItemType::Key, description: "".to_owned() }
        }
    }

    /// Hit points after this item was used by a character that has
    /// `current_hp` of `max_hp`.
    pub fn consume(&self, current_hp: u32, max_hp: u32) -> (hp: u32)
        requires
            current_hp <= max_hp,
        ensures
            hp == hp_after_use(self@, current_hp, max_hp),
            current_hp <= hp <= max_hp,
    {
        match self.item_type {
            ItemType::Consumable => {
                if text_is(&self.name, "薬草") {
                    if max_hp - current_hp <= HERB_HEAL {
                        max_hp
                    } else {
                        current_hp + HERB_HEAL
                    }
                } else {
                    current_hp
                }
            },
            _ => current_hp,
        }
    }
}

impl Clone for Item {
    fn clone(&self) -> (copy: Self)
        ensures
            copy@ == self@,
    {
        Item {
            name: self.name.clone(),
            item_type: self.item_type,
            description: self.description.clone(),
        }
    }
}

} // verus!
