//! The party member that the player moves.

use crate::item::{is_item_name, item_of_name, items_view, Item, ItemView};
use crate::position::Position;
use vstd::prelude::*;

verus! {

/// A party member.
#[derive(Debug)]
pub struct Character {
    pub current_hp: u32,
    pub max_hp: u32,
    pub position: Position,
    pub inventory: Vec<Item>,
    pub event_flags: Vec<bool>,
}

/// Mathematical value of a `Character`.
pub struct CharacterView {
    pub current_hp: u32,
    pub max_hp: u32,
    pub position: Position,
    pub inventory: Seq<ItemView>,
    pub event_flags: Seq<bool>,
}

impl View for Character {
    type V = CharacterView;

    open spec fn view(&self) -> CharacterView {
        CharacterView {
            current_hp: self.current_hp,
            max_hp: self.max_hp,
            position: self.position,
            inventory: items_view(self.inventory@),
            event_flags: self.event_flags@,
        }
    }
}

/// Views of a sequence of characters, element by element.
pub open spec fn characters_view(characters: Seq<Character>) -> Seq<CharacterView> {
    characters.map_values(|c: Character| c@)
}

impl CharacterView {
    /// The invariant of a character: the hit points do not exceed their
    /// maximum, and every item carried is the item that its name stands for.
    pub open spec fn wf(self) -> bool {
        &&& self.current_hp <= self.max_hp
        &&& forall|i: int|
            0 <= i < self.inventory.len() ==> is_item_name(#[trigger] self.inventory[i].name)
                && self.inventory[i] == item_of_name(self.inventory[i].name)
    }

    /// Whether an item of the given name is carried.
    pub open spec fn carries(self, name: Seq<char>) -> bool {
        exists|i: int| 0 <= i < self.inventory.len() && #[trigger] self.inventory[i].name == name
    }

    /// The names of the items carried, in order.
    pub open spec fn inventory_names(self) -> Seq<Seq<char>> {
        self.inventory.map_values(|i: ItemView| i.name)
    }

    /// Whether the opening was seen: the first event flag is there and set.
    pub open spec fn opening_seen(self) -> bool {
        self.event_flags.len() > 0 && self.event_flags[0]
    }

    /// The character once the opening was seen: the first event flag is
    /// set, and added where there was none.
    pub open spec fn with_opening_seen(self) -> CharacterView {
        CharacterView {
            event_flags: if self.event_flags.len() > 0 {
                self.event_flags.update(0, true)
            } else {
                seq![true]
            },
            ..self
        }
    }
}

/// The party as a new game starts it: one member, not yet placed on a map.
pub open spec fn starting_party() -> Seq<CharacterView> {
    seq![
        CharacterView {
            current_hp: 25,
            max_hp: 80,
            position: Position { x: -1i32, y: -1i32 },
            inventory: Seq::empty(),
            event_flags: Seq::empty(),
        },
    ]
}

impl Character {
    /// The party member of a new game, before it is placed on a map.
    pub fn starting() -> (character: Character)
        ensures
            seq![character@] == starting_party(),
            character@.wf(),
    {
        let character = Character {
            current_hp: 25,
            max_hp: 80,
            position: Position { x: -1, y: -1 },
            inventory: Vec::new(),
            event_flags: Vec::new(),
        };
        assert(character@.inventory =~= Seq::empty());
        assert(character@.event_flags =~= Seq::empty());
        assert(seq![character@] =~= starting_party());
        character
    }

    /// Whether an item of the given name is carried.
    pub fn carries(&self, name: &String) -> (found: bool)
        ensures
            found == self@.carries(name@),
    {
        let mut i: usize = 0;
        while i < self.inventory.len()
            invariant
                i <= self.inventory.len(),
                forall|j: int| 0 <= j < i ==> self@.inventory[j].name != name@,
            decreases self.inventory.len() - i,
        {
            if self.inventory[i].name == *name {
                assert(self@.inventory[i as int].name == name@);
                return true;
            }
            i += 1;
        }
        false
    }

    /// The names of the items carried, in order.
    pub fn inventory_names(&self) -> (names: Vec<String>)
        ensures
            crate::text::texts_view(names@) == self@.inventory_names(),
    {
        let mut names: Vec<String> = Vec::new();
        let mut i: usize = 0;
        while i < self.inventory.len()
            invariant
                i <= self.inventory.len(),
                names@.len() == i,
                forall|j: int| 0 <= j < i ==> names@[j]@ == self.inventory@[j]@.name,
            decreases self.inventory.len() - i,
        {
            names.push(self.inventory[i].name.clone());
            i += 1;
        }
        assert(crate::text::texts_view(names@) =~= self@.inventory_names());
        names
    }
}

} // verus!
