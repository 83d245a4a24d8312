//! The snapshot of a game that is kept between sessions.
//!
//! The library fills the snapshot and reads it back; encoding it and
//! storing it is the caller's part.

use crate::character::{characters_view, Character, CharacterView};
use crate::item::{is_item_name, item_of_name, Item};
use crate::position::Position;
use crate::text::{clone_texts, texts_view};
use vstd::prelude::*;

verus! {

/// The snapshot: hit points as `[current, maximum]`, the opened treasure
/// boxes of each map, the map as `[index]`, the position as `[x, y]`, the
/// names of the items carried and the event flags.
#[derive(Debug)]
pub struct SaveData {
    pub character_u32: Vec<u32>,
    pub treasure_box_usize: Vec<Vec<usize>>,
    pub map_usize: Vec<usize>,
    pub map_i32: Vec<i32>,
    pub inventory_string: Vec<String>,
    pub check_token: u32,
    pub event_flags: Vec<bool>,
}

/// Mathematical value of a `SaveData`.
pub struct SaveDataView {
    pub character_u32: Seq<u32>,
    pub treasure_box_usize: Seq<Seq<usize>>,
    pub map_usize: Seq<usize>,
    pub map_i32: Seq<i32>,
    pub inventory_string: Seq<Seq<char>>,
    pub check_token: u32,
    pub event_flags: Seq<bool>,
}

/// The opened treasure boxes of each map as sequences.
pub open spec fn opened_view(opened: Seq<Vec<usize>>) -> Seq<Seq<usize>> {
    opened.map_values(|boxes: Vec<usize>| boxes@)
}

impl View for SaveData {
    type V = SaveDataView;

    open spec fn view(&self) -> SaveDataView {
        SaveDataView {
            character_u32: self.character_u32@,
            treasure_box_usize: opened_view(self.treasure_box_usize@),
            map_usize: self.map_usize@,
            map_i32: self.map_i32@,
            inventory_string: texts_view(self.inventory_string@),
            check_token: self.check_token,
            event_flags: self.event_flags@,
        }
    }
}

impl SaveDataView {
    /// The snapshot of a new game.
    pub open spec fn empty() -> SaveDataView {
        SaveDataView {
            character_u32: seq![25u32, 80u32],
            treasure_box_usize: seq![Seq::empty()],
            map_usize: seq![0usize],
            map_i32: seq![360i32, 280i32],
            inventory_string: Seq::empty(),
            check_token: 0,
            event_flags: Seq::empty(),
        }
    }

    /// Whether the snapshot can be read back: it holds both hit point
    /// values, the current not above the maximum, a map index, both
    /// coordinates, and only names that stand for items.
    pub open spec fn wf(self) -> bool {
        &&& self.character_u32.len() >= 2
        &&& self.character_u32[0] <= self.character_u32[1]
        &&& self.map_usize.len() >= 1
        &&& self.map_i32.len() >= 2
        &&& forall|i: int|
            0 <= i < self.inventory_string.len() ==> is_item_name(#[trigger] self.inventory_string[i])
    }

    /// The character that the snapshot holds. The character given only
    /// stands for what a snapshot does not keep, which is nothing at present.
    pub open spec fn loaded_character(self, character: CharacterView) -> CharacterView {
        CharacterView {
            current_hp: self.character_u32[0],
            max_hp: self.character_u32[1],
            position: Position { x: self.map_i32[0], y: self.map_i32[1] },
            inventory: self.inventory_string.map_values(|name: Seq<char>| item_of_name(name)),
            event_flags: self.event_flags,
        }
    }

    /// The snapshot of the given character on the given map. The check
    /// token is kept.
    pub open spec fn updated(
        self,
        character: CharacterView,
        treasure_box_opened: Seq<Seq<usize>>,
        map_index: usize,
    ) -> SaveDataView {
        SaveDataView {
            character_u32: seq![character.current_hp, character.max_hp],
            treasure_box_usize: treasure_box_opened,
            map_usize: seq![map_index],
            map_i32: seq![character.position.x, character.position.y],
            inventory_string: character.inventory_names(),
            check_token: self.check_token,
            event_flags: character.event_flags,
        }
    }
}

/// An owned copy of the opened treasure boxes of each map.
pub fn clone_opened(opened: &Vec<Vec<usize>>) -> (copy: Vec<Vec<usize>>)
    ensures
        opened_view(copy@) == opened_view(opened@),
{
    let mut copy: Vec<Vec<usize>> = Vec::new();
    let mut i: usize = 0;
    while i < opened.len()
        invariant
            i <= opened.len(),
            copy@.len() == i,
            forall|j: int| 0 <= j < i ==> copy@[j]@ == opened@[j]@,
        decreases opened.len() - i,
    {
        let boxes = &opened[i];
        let mut inner: Vec<usize> = Vec::new();
        let mut k: usize = 0;
        while k < boxes.len()
            invariant
                k <= boxes.len(),
                inner@ == boxes@.take(k as int),
            decreases boxes.len() - k,
        {
            inner.push(boxes[k]);
            k += 1;
            assert(inner@ =~= boxes@.take(k as int));
        }
        assert(inner@ =~= boxes@);
        copy.push(inner);
        i += 1;
    }
    assert(opened_view(copy@) =~= opened_view(opened@));
    copy
}

/// An owned copy of a list of flags.
pub fn clone_flags(flags: &Vec<bool>) -> (copy: Vec<bool>)
    ensures
        copy@ == flags@,
{
    let mut copy: Vec<bool> = Vec::new();
    let mut i: usize = 0;
    while i < flags.len()
        invariant
            i <= flags.len(),
            copy@ == flags@.take(i as int),
        decreases flags.len() - i,
    {
        copy.push(flags[i]);
        i += 1;
        assert(copy@ =~= flags@.take(i as int));
    }
    assert(copy@ =~= flags@);
    copy
}

impl SaveData {
    /// A snapshot of the given values, with check token 0.
    pub fn new(
        character_u32: Vec<u32>,
        treasure_box_usize: Vec<Vec<usize>>,
        map_usize: Vec<usize>,
        map_i32: Vec<i32>,
        inventory_string: Vec<String>,
        event_flags: Vec<bool>,
    ) -> (save: SaveData)
        ensures
            save@ == (SaveDataView {
                character_u32: character_u32@,
                treasure_box_usize: opened_view(treasure_box_usize@),
                map_usize: map_usize@,
                map_i32: map_i32@,
                inventory_string: texts_view(inventory_string@),
                check_token: 0,
                event_flags: event_flags@,
            }),
    {
        SaveData {
            character_u32,
            treasure_box_usize,
            map_usize,
            map_i32,
            inventory_string,
            event_flags,
            check_token: 0,
        }
    }

    /// The snapshot of a new game: 25 of 80 hit points, map 0 with no box
    /// opened, the spawn tile (360, 280), nothing carried, no event seen.
    pub fn empty() -> (save: SaveData)
        ensures
            save@ == SaveDataView::empty(),
            save@.wf(),
    {
        let mut character_u32: Vec<u32> = Vec::new();
        character_u32.push(25);
        character_u32.push(80);
        let mut treasure_box_usize: Vec<Vec<usize>> = Vec::new();
        treasure_box_usize.push(Vec::new());
        let mut map_usize: Vec<usize> = Vec::new();
        map_usize.push(0);
        let mut map_i32: Vec<i32> = Vec::new();
        map_i32.push(360);
        map_i32.push(280);
        let save = SaveData::new(
            character_u32,
            treasure_box_usize,
            map_usize,
            map_i32,
            Vec::new(),
            Vec::new(),
        );
        proof {
            assert(save@.character_u32 =~= seq![25u32, 80u32]);
            assert(save@.treasure_box_usize =~= seq![Seq::<usize>::empty()]);
            assert(save@.map_usize =~= seq![0usize]);
            assert(save@.map_i32 =~= seq![360i32, 280i32]);
            assert(save@.inventory_string =~= Seq::empty());
            assert(save@.event_flags =~= Seq::empty());
        }
        save
    }

    /// Whether the snapshot can be read back.
    pub fn is_well_formed(&self) -> (readable: bool)
        ensures
            readable == self@.wf(),
    {
        if self.character_u32.len() < 2 || self.map_usize.len() < 1 || self.map_i32.len() < 2 {
            return false;
        }
        if self.character_u32[0] > self.character_u32[1] {
            return false;
        }
        let mut i: usize = 0;
        while i < self.inventory_string.len()
            invariant
                i <= self.inventory_string.len(),
                forall|j: int| 0 <= j < i ==> is_item_name(#[trigger] self@.inventory_string[j]),
            decreases self.inventory_string.len() - i,
        {
            if !Item::is_known(&self.inventory_string[i]) {
                assert(!is_item_name(self@.inventory_string[i as int]));
                return false;
            }
            i += 1;
        }
        true
    }

    /// Reads the snapshot back into the first character. Where `stored` is
    /// given, it first replaces this snapshot.
    pub fn load(&mut self, characters: &mut Vec<Character>, stored: Option<SaveData>)
        requires
            old(characters)@.len() >= 1,
            match stored {
                Some(found) => found@.wf(),
                None => old(self)@.wf(),
            },
        ensures
            final(self)@ == (match stored {
                Some(found) => found@,
                None => old(self)@,
            }),
            characters_view(final(characters)@) == characters_view(old(characters)@).update(
                0,
                final(self)@.loaded_character(old(characters)@[0]@),
            ),
            final(self)@.loaded_character(old(characters)@[0]@).wf(),
    {
        if let Some(found) = stored {
            *self = found;
        }
        let mut inventory: Vec<Item> = Vec::new();
        let mut i: usize = 0;
        while i < self.inventory_string.len()
            invariant
                i <= self.inventory_string.len(),
                self@.wf(),
                inventory@.len() == i,
                forall|j: int|
                    0 <= j < i ==> (#[trigger] inventory@[j])@ == item_of_name(
                        self@.inventory_string[j],
                    ),
            decreases self.inventory_string.len() - i,
        {
            assert(is_item_name(self@.inventory_string[i as int]));
            inventory.push(Item::new(self.inventory_string[i].as_str()));
            i += 1;
        }
        let ghost before = characters_view(characters@);
        let ghost first = characters@[0]@;
        let event_flags = clone_flags(&self.event_flags);
        let character = Character {
            current_hp: self.character_u32[0],
            max_hp: self.character_u32[1],
            position: Position::new(self.map_i32[0], self.map_i32[1]),
            inventory,
            event_flags,
        };
        proof {
            assert(character@.inventory =~= self@.loaded_character(first).inventory);
            assert(character@ == self@.loaded_character(first));
        }
        characters[0] = character;
        proof {
            assert(characters_view(characters@) =~= before.update(
                0,
                self@.loaded_character(first),
            ));
        }
    }

    /// Fills the snapshot from the first character, the opened treasure
    /// boxes and the map index.
    pub fn update(
        &mut self,
        characters: &Vec<Character>,
        treasure_box_opened: &Vec<Vec<usize>>,
        map_index: usize,
    )
        requires
            characters@.len() >= 1,
        ensures
            final(self)@ == old(self)@.updated(
                characters@[0]@,
                opened_view(treasure_box_opened@),
                map_index,
            ),
    {
        let character = &characters[0];
        let mut character_u32: Vec<u32> = Vec::new();
        character_u32.push(character.current_hp);
        character_u32.push(character.max_hp);
        let mut map_usize: Vec<usize> = Vec::new();
        map_usize.push(map_index);
        let mut map_i32: Vec<i32> = Vec::new();
        map_i32.push(character.position.x);
        map_i32.push(character.position.y);
        self.character_u32 = character_u32;
        self.treasure_box_usize = clone_opened(treasure_box_opened);
        self.map_usize = map_usize;
        self.map_i32 = map_i32;
        self.inventory_string = character.inventory_names();
        self.event_flags = clone_flags(&character.event_flags);
        proof {
            let goal = old(self)@.updated(
                characters@[0]@,
                opened_view(treasure_box_opened@),
                map_index,
            );
            assert(self@.character_u32 =~= goal.character_u32);
            assert(self@.map_usize =~= goal.map_usize);
            assert(self@.map_i32 =~= goal.map_i32);
        }
    }
}

impl Clone for SaveData {
    fn clone(&self) -> (copy: Self)
        ensures
            copy@ == self@,
    {
        let mut character_u32: Vec<u32> = Vec::new();
        let mut i: usize = 0;
        while i < self.character_u32.len()
            invariant
                i <= self.character_u32.len(),
                character_u32@ == self.character_u32@.take(i as int),
            decreases self.character_u32.len() - i,
        {
            character_u32.push(self.character_u32[i]);
            i += 1;
            assert(character_u32@ =~= self.character_u32@.take(i as int));
        }
        assert(character_u32@ =~= self.character_u32@);
        let mut map_usize: Vec<usize> = Vec::new();
        let mut j: usize = 0;
        while j < self.map_usize.len()
            invariant
                j <= self.map_usize.len(),
                map_usize@ == self.map_usize@.take(j as int),
            decreases self.map_usize.len() - j,
        {
            map_usize.push(self.map_usize[j]);
            j += 1;
            assert(map_usize@ =~= self.map_usize@.take(j as int));
        }
        assert(map_usize@ =~= self.map_usize@);
        let mut map_i32: Vec<i32> = Vec::new();
        let mut k: usize = 0;
        while k < self.map_i32.len()
            invariant
                k <= self.map_i32.len(),
                map_i32@ == self.map_i32@.take(k as int),
            decreases self.map_i32.len() - k,
        {
            map_i32.push(self.map_i32[k]);
            k += 1;
            assert(map_i32@ =~= self.map_i32@.take(k as int));
        }
        assert(map_i32@ =~= self.map_i32@);
        SaveData {
            character_u32,
            treasure_box_usize: clone_opened(&self.treasure_box_usize),
            map_usize,
            map_i32,
            inventory_string: clone_texts(&self.inventory_string),
            check_token: self.check_token,
            event_flags: clone_flags(&self.event_flags),
        }
    }
}

/// A character that is saved and read back is the same character: hit
/// points, position, items and event flags all return. The snapshot of a
/// well-formed character can always be read back.
pub proof fn lemma_save_round_trip(
    save: SaveDataView,
    character: CharacterView,
    other: CharacterView,
    treasure_box_opened: Seq<Seq<usize>>,
    map_index: usize,
)
    requires
        character.wf(),
    ensures
        save.updated(character, treasure_box_opened, map_index).wf(),
        save.updated(character, treasure_box_opened, map_index).loaded_character(other)
            == character,
        save.updated(character, treasure_box_opened, map_index).treasure_box_usize
            == treasure_box_opened,
        save.updated(character, treasure_box_opened, map_index).map_usize[0] == map_index,
{
    let snapshot = save.updated(character, treasure_box_opened, map_index);
    assert forall|i: int| 0 <= i < snapshot.inventory_string.len() implies is_item_name(
        #[trigger] snapshot.inventory_string[i],
    ) by {
        assert(snapshot.inventory_string[i] == character.inventory[i].name);
    }
    let back = snapshot.loaded_character(other);
    assert(back.inventory =~= character.inventory) by {
        assert forall|i: int| 0 <= i < character.inventory.len() implies back.inventory[i]
            == character.inventory[i] by {
            assert(is_item_name(character.inventory[i].name));
        }
    }
}

} // verus!
