//! The field scene: the character walks the map tile by tile, and what
//! stands on the tile ahead decides what a step does.

use crate::animation::{chain_view, queue_view, Animation, AnimationSpan, AnimationView};
use crate::animation_queue::queue_wf;
use crate::character::{characters_view, CharacterView};
use crate::input::Input;
use crate::item::{is_item_name, item_of_name, Item, ItemView};
use crate::map::{
    event_at, is_listed, lemma_without_event_wf, listed, maps_view, treasure_rank, EventType,
    EventTypeView, FieldMap, FieldMapView, MapConnectionDetail, PlacedEvent, MAP_COUNT,
};
use crate::message::{
    positions_view, ChannelMessage, ChannelMessageView, EmoteMessage, EmoteMessageView,
    MessageType, Payload, PayloadView, PositionMessage, PositionMessageView,
};
use crate::position::{tile_ahead, Position, CAMERA_X, CAMERA_Y};
use crate::save_data::opened_view;
use crate::state::{Primitives, RPGSharedStateView, State, StateType, StateView, FIELD_SCENE};
use crate::text::join_texts;
use vstd::prelude::*;

verus! {

/// The state of the field scene: the maps, the offset by which the camera
/// shifts the map, and the glyph that shows which way the character looks.
#[derive(Debug)]
pub struct FieldState {
    pub wrapper_translate_x: i32,
    pub wrapper_translate_y: i32,
    pub maps: Vec<FieldMap>,
    pub character_direction: String,
}

/// Mathematical value of a `FieldState`.
pub struct FieldStateView {
    pub wrapper_translate_x: i32,
    pub wrapper_translate_y: i32,
    pub maps: Seq<FieldMapView>,
    pub character_direction: Seq<char>,
}

impl View for FieldState {
    type V = FieldStateView;

    open spec fn view(&self) -> FieldStateView {
        FieldStateView {
            wrapper_translate_x: self.wrapper_translate_x,
            wrapper_translate_y: self.wrapper_translate_y,
            maps: maps_view(self.maps@),
            character_direction: self.character_direction@,
        }
    }
}

/// The glyph that shows the direction of an arrow; empty for every other
/// input.
pub open spec fn direction_glyph(input: Input) -> Seq<char> {
    match input {
        Input::ArrowUp => "↑"@,
        Input::ArrowDown => "↓"@,
        Input::ArrowRight => "→"@,
        Input::ArrowLeft => "←"@,
        _ => ""@,
    }
}

/// The message shown when a key was used.
pub open spec fn key_used_text(key: Seq<char>) -> Seq<char> {
    key + "を使用した"@
}

/// The message shown when an item was found.
pub open spec fn item_found_text(name: Seq<char>) -> Seq<char> {
    name + "を手に入れた"@
}

/// The message shown in front of what is locked.
pub open spec fn locked_text() -> Seq<char> {
    "鍵がかかっている"@
}

/// The default fade to black and back.
pub open spec fn default_fade() -> AnimationView {
    AnimationView::fade_out_in(AnimationSpan::FadeOutInDefault)
}

impl RPGSharedStateView {
    /// The game's state with the first party member on `tile`.
    pub open spec fn hero_on(self, tile: Position) -> RPGSharedStateView {
        self.with_character(CharacterView { position: tile, ..self.hero() })
    }

    /// Whether the treasure box with the number `rank` of the map
    /// `map_index` was opened.
    pub open spec fn is_opened(self, map_index: int, rank: nat) -> bool {
        is_listed(self.treasure_box_opened[map_index], rank)
    }

    /// The game's state once the treasure box with the number `rank` of the
    /// map `map_index` was opened and `item` taken out of it.
    pub open spec fn with_treasure(self, map_index: int, rank: nat, item: ItemView) -> RPGSharedStateView {
        RPGSharedStateView {
            treasure_box_opened: self.treasure_box_opened.update(
                map_index,
                self.treasure_box_opened[map_index].push(rank as usize),
            ),
            ..self.with_character(
                CharacterView { inventory: self.hero().inventory.push(item), ..self.hero() },
            )
        }
    }
}

/// What a step leaves behind: the field scene and the shared state.
pub struct Stepped {
    pub field: FieldStateView,
    pub state: StateView,
}

impl FieldStateView {
    /// The invariant of the field scene: it holds the maps of the game,
    /// each well-formed and under its index.
    pub open spec fn wf(self) -> bool {
        &&& self.maps.len() == MAP_COUNT
        &&& forall|k: int|
            0 <= k < self.maps.len() ==> (#[trigger] self.maps[k]).wf() && self.maps[k].map_index
                == k
    }

    /// The scene with the camera on `tile`.
    pub open spec fn camera_on(self, tile: Position) -> FieldStateView {
        FieldStateView {
            wrapper_translate_x: (CAMERA_X - tile.x) as i32,
            wrapper_translate_y: (CAMERA_Y - tile.y) as i32,
            ..self
        }
    }

    /// The scene with the map at `index` replaced.
    pub open spec fn with_map(self, index: int, map: FieldMapView) -> FieldStateView {
        FieldStateView { maps: self.maps.update(index, map), ..self }
    }

    /// A step in front of a door that needs the key `key`: with the key the
    /// door leaves the map for good, without it the door stays locked. A
    /// door that needs no key does nothing. The character does not move.
    pub open spec fn at_gate(self, state: StateView, index: int, key: Seq<char>) -> Stepped {
        let map_index = state.primitives.map_index as int;
        if key.len() == 0 {
            Stepped { field: self, state }
        } else if state.rpg.hero().carries(key) {
            Stepped {
                field: self.with_map(map_index, self.maps[map_index].without_event(index)),
                state: state.with_chain(seq![AnimationView::message(key_used_text(key))]),
            }
        } else {
            Stepped {
                field: self,
                state: state.with_chain(seq![AnimationView::message(locked_text())]),
            }
        }
    }

    /// A step in front of a treasure box that needs the key `key` (none
    /// where `key` is empty). A box that was opened does nothing. A locked
    /// box without its key stays closed. Else the box is marked as opened,
    /// its item joins the inventory, and the find is announced; the key is
    /// kept. The character does not move.
    pub open spec fn at_treasure(self, state: StateView, index: int, key: Seq<char>) -> Stepped {
        let map = self.maps[state.primitives.map_index as int];
        let rank = treasure_rank(map.event_positions, index);
        if state.rpg.is_opened(map.map_index as int, rank) {
            Stepped { field: self, state }
        } else if key.len() > 0 && !state.rpg.hero().carries(key) {
            Stepped {
                field: self,
                state: state.with_chain(seq![AnimationView::message(locked_text())]),
            }
        } else {
            let unlocked = if key.len() > 0 {
                state.with_chain(seq![AnimationView::message(key_used_text(key))])
            } else {
                state
            };
            let item = item_of_name(map.treasure_items[rank as int].name);
            Stepped {
                field: self,
                state: unlocked.with_rpg(
                    state.rpg.with_treasure(map.map_index as int, rank, item),
                ).with_chain(seq![AnimationView::message(item_found_text(item.name))]),
            }
        }
    }

    /// A step onto a link: the character arrives at the far end, the map
    /// that the link leads to is asked for, and the screen fades.
    pub open spec fn at_connection(self, state: StateView, detail: MapConnectionDetail) -> Stepped {
        Stepped {
            field: self,
            state: StateView {
                primitives: Primitives {
                    requested_map_index: (state.primitives.map_index
                        + detail.index_addition) as usize,
                    ..state.primitives
                },
                ..state.with_rpg(state.rpg.hero_on(detail.to_position))
            }.with_chain(seq![default_fade()]),
        }
    }

    /// A step of the character in the direction of `input`.
    ///
    /// Where nothing stands on the tile ahead, the character moves there
    /// and the camera follows. Else the first event on that tile decides,
    /// the character stays, and the camera offset is what it was before.
    pub open spec fn moved(self, state: StateView, input: Input) -> Stepped {
        let map = self.maps[state.primitives.map_index as int];
        let tile = tile_ahead(state.rpg.hero().position, input);
        match event_at(map.event_positions, tile, 0) {
            None => Stepped {
                field: self.camera_on(tile),
                state: state.with_rpg(state.rpg.hero_on(tile)),
            },
            Some(index) => match map.event_positions[index].1 {
                EventTypeView::Gate(key) => self.at_gate(state, index, key),
                EventTypeView::Enemy => Stepped {
                    field: self,
                    state: state.requesting_scene(
                        (state.primitives.requested_scene_index + 1) as usize,
                    ).with_chain(seq![default_fade()]),
                },
                EventTypeView::TreasureBox(key) => self.at_treasure(state, index, key),
                EventTypeView::Obstacle(_) => Stepped { field: self, state },
                EventTypeView::MapConnection(detail) => self.at_connection(state, detail),
            },
        }
    }
}

/// The opened boxes with a list for every map up to `map_index`.
pub open spec fn padded(opened: Seq<Seq<usize>>, map_index: int) -> Seq<Seq<usize>> {
    if opened.len() > map_index {
        opened
    } else {
        opened + Seq::new((map_index + 1 - opened.len()) as nat, |i: int| Seq::<usize>::empty())
    }
}

/// The position in `users` of the first report of the player `user_name`,
/// from `from` on.
pub open spec fn user_at(users: Seq<PositionMessageView>, user_name: Seq<char>, from: int) -> Option<int>
    decreases users.len() - from,
{
    if from < 0 || from >= users.len() {
        None
    } else if users[from].user_name == user_name {
        Some(from)
    } else {
        user_at(users, user_name, from + 1)
    }
}

/// The reports of the other players after the envelope of the player
/// `sender` arrived with the given payload.
///
/// A `Left` envelope, and a `Message` envelope that holds a `Left`
/// envelope, take the sender off the list. A `Message` envelope that holds
/// a position report puts the report in place of the sender's earlier one,
/// under the name of the earlier one, or at the end of the list where there
/// was none. Everything else leaves the list as it is.
pub open spec fn merged_users(
    users: Seq<PositionMessageView>,
    sender: Seq<char>,
    message_type: MessageType,
    payload: PayloadView,
) -> Seq<PositionMessageView> {
    let found = user_at(users, sender, 0);
    match message_type {
        MessageType::Left => match found {
            Some(index) => users.remove(index),
            None => users,
        },
        MessageType::Message => match payload {
            PayloadView::Position(report) => match found {
                Some(index) => users.update(
                    index,
                    PositionMessageView { user_name: users[index].user_name, ..report },
                ),
                None => users.push(report),
            },
            PayloadView::Channel(inner) => match found {
                Some(index) => if inner.message_type == MessageType::Left {
                    users.remove(index)
                } else {
                    users
                },
                None => users,
            },
            _ => users,
        },
        MessageType::Join => users,
    }
}

impl StateView {
    /// The state after an emote arrived: on the map on display the emote
    /// is shown, as the player's own where it carries the player's name;
    /// on another map nothing happens.
    pub open spec fn emote_received(self, emote: EmoteMessageView) -> StateView {
        if self.primitives.map_index != emote.map_index {
            self
        } else {
            self.with_chain(
                seq![
                    AnimationView::emote(
                        emote.user_name,
                        emote.emote,
                        self.user_name == emote.user_name,
                    ),
                ],
            )
        }
    }

    /// The state after the envelope `message` arrived with what its text
    /// holds.
    ///
    /// An emote is shown. Every other envelope of the player's own is
    /// ignored. Every other envelope of another player is merged into the
    /// reports of the other players, and a `Join` is answered with the
    /// player's own position.
    pub open spec fn channel_message_received(
        self,
        message: ChannelMessageView,
        payload: PayloadView,
    ) -> StateView {
        if payload is Emote {
            self.emote_received(payload->Emote_0)
        } else if message.user_name == self.user_name {
            self
        } else {
            let merged = self.with_rpg(
                RPGSharedStateView {
                    online_users: merged_users(
                        self.rpg.online_users,
                        message.user_name,
                        message.message_type,
                        payload,
                    ),
                    ..self.rpg
                },
            );
            if message.message_type == MessageType::Join {
                merged.own_position_sent(None)
            } else {
                merged
            }
        }
    }
}

impl FieldStateView {
    /// The scene and the state once the field is entered: a character
    /// that was not placed yet is put on the spawn tile, the camera is put
    /// on the character, and the player's position is reported.
    pub open spec fn entered(self, state: StateView) -> Stepped {
        let hero = state.rpg.hero();
        let placed = if hero.position == (Position { x: -1i32, y: -1i32 }) {
            state.with_rpg(state.rpg.hero_on(Position { x: CAMERA_X, y: CAMERA_Y }))
        } else {
            state
        };
        Stepped {
            field: self.camera_on(placed.rpg.hero().position),
            state: placed.own_position_sent(None),
        }
    }

    /// The scene and the state after an input: an arrow turns the
    /// character, makes a step and reports the position; cancel asks for
    /// the menu, two scenes on; every other input does nothing.
    pub open spec fn consumed(self, state: StateView, input: Input) -> Stepped {
        if input.spec_is_arrow() {
            let turned = FieldStateView { character_direction: direction_glyph(input), ..self };
            let stepped = turned.moved(state, input);
            Stepped { field: stepped.field, state: stepped.state.own_position_sent(Some(input)) }
        } else if input == Input::Cancel {
            Stepped {
                field: self,
                state: state.requesting_scene(
                    (state.primitives.requested_scene_index + 2) as usize,
                ),
            }
        } else {
            Stepped { field: self, state }
        }
    }

    /// The scene and the state once another map is on display: the opened
    /// boxes get a list for that map, and the camera is put on the
    /// character.
    pub open spec fn map_updated(self, state: StateView) -> Stepped {
        Stepped {
            field: self.camera_on(state.rpg.hero().position),
            state: state.with_rpg(
                RPGSharedStateView {
                    treasure_box_opened: padded(
                        state.rpg.treasure_box_opened,
                        state.primitives.map_index as int,
                    ),
                    ..state.rpg
                },
            ),
        }
    }
}

/// A step keeps the invariants of the field scene and of the shared
/// state, as long as the step stays within the machine's integers and the
/// scene asked for is the field.
pub proof fn lemma_moved_keeps_wf(field: FieldStateView, state: StateView, input: Input)
    requires
        field.wf(),
        state.wf(),
        state.rpg.within_limits(input),
        state.primitives.requested_scene_index == FIELD_SCENE,
        input.spec_is_arrow(),
    ensures
        field.moved(state, input).field.wf(),
        field.moved(state, input).state.wf(),
        field.moved(state, input).state.is_rpg,
        field.moved(state, input).state.primitives.scene_index == state.primitives.scene_index,
        field.moved(state, input).state.primitives.map_index == state.primitives.map_index,
{
    let map = field.maps[state.primitives.map_index as int];
    assert(map.wf());
    let tile = tile_ahead(state.rpg.hero().position, input);
    match event_at(map.event_positions, tile, 0) {
        None => {},
        Some(index) => {
            lemma_event_at_in_range(map.event_positions, tile, 0);
            match map.event_positions[index].1 {
                EventTypeView::Gate(key) => {
                    if key.len() > 0 && state.rpg.hero().carries(key) {
                        lemma_without_event_wf(map, index);
                    }
                },
                EventTypeView::TreasureBox(key) => {
                    let rank = treasure_rank(map.event_positions, index);
                    let item = item_of_name(map.treasure_items[rank as int].name);
                    let hero = state.rpg.hero();
                    let richer = CharacterView { inventory: hero.inventory.push(item), ..hero };
                    assert forall|i: int| 0 <= i < richer.inventory.len() implies is_item_name(
                        #[trigger] richer.inventory[i].name,
                    ) && richer.inventory[i] == item_of_name(richer.inventory[i].name) by {
                        if i < hero.inventory.len() {
                            assert(richer.inventory[i] == hero.inventory[i]);
                        }
                    }
                },
                _ => {},
            }
        },
    }
}

/// Where an event is found on a tile, it is an event of the list and
/// stands on that tile.
pub proof fn lemma_event_at_in_range(events: Seq<PlacedEvent>, tile: Position, from: int)
    requires
        0 <= from,
    ensures
        event_at(events, tile, from) matches Some(index) ==> from <= index < events.len()
            && events[index].0 == tile,
    decreases events.len() - from,
{
    if from < events.len() && events[from].0 != tile {
        lemma_event_at_in_range(events, tile, from + 1);
    }
}

/// A treasure box is opened once: the step that opens it puts its item
/// into the inventory and marks the box, and the same step again changes
/// nothing, neither the inventory nor the messages queued.
pub proof fn lemma_treasure_opens_once(
    field: FieldStateView,
    state: StateView,
    input: Input,
    index: int,
    key: Seq<char>,
)
    requires
        field.wf(),
        state.wf(),
        input.spec_is_arrow(),
        event_at(
            field.maps[state.primitives.map_index as int].event_positions,
            tile_ahead(state.rpg.hero().position, input),
            0,
        ) == Some(index),
        field.maps[state.primitives.map_index as int].event_positions[index].1
            == EventTypeView::TreasureBox(key),
        !state.rpg.is_opened(
            state.primitives.map_index as int,
            treasure_rank(field.maps[state.primitives.map_index as int].event_positions, index),
        ),
        key.len() == 0 || state.rpg.hero().carries(key),
        index <= usize::MAX,
    ensures
        ({
            let map = field.maps[state.primitives.map_index as int];
            let rank = treasure_rank(map.event_positions, index);
            let first = field.moved(state, input);
            let second = first.field.moved(first.state, input);
            &&& first.state.rpg.hero().inventory == state.rpg.hero().inventory.push(
                item_of_name(map.treasure_items[rank as int].name),
            )
            &&& first.state.rpg.is_opened(state.primitives.map_index as int, rank)
            &&& second == first
        }),
{
    let map_index = state.primitives.map_index as int;
    let map = field.maps[map_index];
    assert(map.wf());
    lemma_event_at_in_range(map.event_positions, tile_ahead(state.rpg.hero().position, input), 0);
    let rank = treasure_rank(map.event_positions, index);
    crate::map::lemma_rank_bound(map.event_positions, index);
    let first = field.moved(state, input);
    let marked = first.state.rpg.treasure_box_opened[map_index];
    assert(marked[marked.len() - 1] == rank);
    assert(first.state.rpg.hero().position == state.rpg.hero().position);
}

/// Adds the display of one message at the end of a queue.
pub fn push_message(queue: &mut Vec<Vec<Animation>>, text: String)
    requires
        queue_wf(queue_view(old(queue)@)),
    ensures
        queue_view(final(queue)@) == queue_view(old(queue)@).push(
            seq![AnimationView::message(text@)],
        ),
        queue_wf(queue_view(final(queue)@)),
{
    let mut chain: Vec<Animation> = Vec::new();
    chain.push(Animation::create_message(text));
    assert(chain_view(chain@) =~= seq![AnimationView::message(text@)]);
    queue.push(chain);
    assert(queue_view(final(queue)@) =~= queue_view(old(queue)@).push(
        seq![AnimationView::message(text@)],
    ));
}

/// Adds the default fade at the end of a queue.
pub fn push_fade(queue: &mut Vec<Vec<Animation>>)
    requires
        queue_wf(queue_view(old(queue)@)),
    ensures
        queue_view(final(queue)@) == queue_view(old(queue)@).push(seq![default_fade()]),
        queue_wf(queue_view(final(queue)@)),
{
    let mut chain: Vec<Animation> = Vec::new();
    chain.push(Animation::create_fade_out_in());
    assert(chain_view(chain@) =~= seq![default_fade()]);
    queue.push(chain);
    assert(queue_view(final(queue)@) =~= queue_view(old(queue)@).push(seq![default_fade()]));
}

impl FieldState {
    /// Restores the camera offset.
    pub fn reset_translate(&mut self, translate_x: i32, translate_y: i32)
        ensures
            final(self)@ == (FieldStateView {
                wrapper_translate_x: translate_x,
                wrapper_translate_y: translate_y,
                ..old(self)@
            }),
    {
        self.wrapper_translate_x = translate_x;
        self.wrapper_translate_y = translate_y;
    }

    /// Puts the camera on the tile (`x`, `y`).
    pub fn update_character_position(&mut self, x: i32, y: i32)
        requires
            i32::MIN <= CAMERA_X - x <= i32::MAX,
            i32::MIN <= CAMERA_Y - y <= i32::MAX,
        ensures
            final(self)@ == old(self)@.camera_on(Position { x, y }),
    {
        self.wrapper_translate_x = CAMERA_X - x;
        self.wrapper_translate_y = CAMERA_Y - y;
    }

    /// A step in front of the door at `event_index`.
    fn step_at_gate(&mut self, shared_state: &mut State, event_index: usize, key_name: String)
        requires
            old(self)@.wf(),
            old(shared_state)@.wf(),
            event_index < old(self)@.maps[old(
                shared_state,
            )@.primitives.map_index as int].event_positions.len(),
            old(self)@.maps[old(
                shared_state,
            )@.primitives.map_index as int].event_positions[event_index as int].1
                == EventTypeView::Gate(key_name@),
        ensures
            (Stepped { field: final(self)@, state: final(shared_state)@ }) == old(self)@.at_gate(
                old(shared_state)@,
                event_index as int,
                key_name@,
            ),
            final(self)@.wf(),
            final(shared_state)@.wf(),
    {
        let map_index = shared_state.primitives.map_index;
        if key_name.as_str().is_empty() {
            return ;
        }
        let has_key = match &shared_state.state_type {
            StateType::RPGShared(rpg) => rpg.characters[0].carries(&key_name),
            StateType::TBDStateType => false,
        };
        if has_key {
            push_message(
                &mut shared_state.interrupt_animations,
                join_texts(key_name.as_str(), "を使用した"),
            );
            let ghost maps_before = self@.maps;
            proof {
                lemma_without_event_wf(maps_before[map_index as int], event_index as int);
            }
            self.maps[map_index].event_positions.remove(event_index);
            proof {
                assert(self@.maps[map_index as int].event_positions
                    =~= maps_before[map_index as int].event_positions.remove(event_index as int));
                assert(self@.maps[map_index as int] == maps_before[map_index as int].without_event(
                    event_index as int,
                ));
                assert(self@.maps =~= maps_before.update(
                    map_index as int,
                    maps_before[map_index as int].without_event(event_index as int),
                ));
            }
        } else {
            push_message(&mut shared_state.interrupt_animations, "鍵がかかっている".to_owned());
        }
    }

    /// A step in front of the treasure box at `event_index`.
    fn step_at_treasure(&mut self, shared_state: &mut State, event_index: usize, key_name: String)
        requires
            old(self)@.wf(),
            old(shared_state)@.wf(),
            event_index < old(self)@.maps[old(
                shared_state,
            )@.primitives.map_index as int].event_positions.len(),
            old(self)@.maps[old(
                shared_state,
            )@.primitives.map_index as int].event_positions[event_index as int].1
                == EventTypeView::TreasureBox(key_name@),
        ensures
            (Stepped { field: final(self)@, state: final(shared_state)@ })
                == old(self)@.at_treasure(old(shared_state)@, event_index as int, key_name@),
            final(self)@.wf(),
            final(shared_state)@.wf(),
    {
        let map_index = shared_state.primitives.map_index;
        assert(self@.maps[map_index as int].wf());
        let map = &self.maps[map_index];
        assert(map@ == self@.maps[map_index as int]);
        let treasure_index = map.treasure_index(event_index);
        let ghost before = shared_state@;
        match &mut shared_state.state_type {
            StateType::RPGShared(rpg) => {
                let opened = listed(&rpg.treasure_box_opened[map.map_index], treasure_index);
                assert(opened == before.rpg.is_opened(
                    map.map_index as int,
                    treasure_index as nat,
                )) by {
                    assert(before.rpg.treasure_box_opened[map.map_index as int]
                        == rpg.treasure_box_opened@[map.map_index as int]@);
                }
                if opened {
                    return ;
                }
                if !key_name.as_str().is_empty() {
                    if rpg.characters[0].carries(&key_name) {
                        push_message(
                            &mut shared_state.interrupt_animations,
                            join_texts(key_name.as_str(), "を使用した"),
                        );
                    } else {
                        push_message(
                            &mut shared_state.interrupt_animations,
                            "鍵がかかっている".to_owned(),
                        );
                        return ;
                    }
                }
                let ghost opened_before = opened_view(rpg.treasure_box_opened@);
                let ghost party_before = characters_view(rpg.characters@);
                rpg.treasure_box_opened[map.map_index].push(treasure_index);
                assert(map@.treasure_items[treasure_index as int]
                    == map.treasure_items@[treasure_index as int]@);
                let item = &map.treasure_items[treasure_index];
                let found = Item::new(item.name.as_str());
                let ghost hero_before = rpg.characters@[0]@;
                rpg.characters[0].inventory.push(found);
                proof {
                    assert(opened_view(rpg.treasure_box_opened@) =~= opened_before.update(
                        map.map_index as int,
                        opened_before[map.map_index as int].push(treasure_index),
                    ));
                    let hero_after = CharacterView {
                        inventory: hero_before.inventory.push(item_of_name(item@.name)),
                        ..hero_before
                    };
                    assert(rpg.characters@[0]@.inventory =~= hero_after.inventory);
                    assert(characters_view(rpg.characters@) =~= party_before.update(0, hero_after));
                    assert(hero_after.wf()) by {
                        assert forall|i: int| 0 <= i < hero_after.inventory.len() implies is_item_name(
                            #[trigger] hero_after.inventory[i].name,
                        ) && hero_after.inventory[i] == item_of_name(
                            hero_after.inventory[i].name,
                        ) by {
                            if i < hero_before.inventory.len() {
                                assert(hero_after.inventory[i] == hero_before.inventory[i]);
                            }
                        }
                    }
                }
                push_message(
                    &mut shared_state.interrupt_animations,
                    join_texts(item.name.as_str(), "を手に入れた"),
                );
            },
            StateType::TBDStateType => {},
        }
    }

    /// A step onto the link `detail`.
    fn step_at_connection(&mut self, shared_state: &mut State, detail: MapConnectionDetail)
        requires
            old(self)@.wf(),
            old(shared_state)@.wf(),
            0 <= old(shared_state)@.primitives.map_index + detail.index_addition < MAP_COUNT,
            detail.to_position.camera_can_follow(),
        ensures
            (Stepped { field: final(self)@, state: final(shared_state)@ })
                == old(self)@.at_connection(old(shared_state)@, detail),
            final(self)@.wf(),
            final(shared_state)@.wf(),
    {
        match &mut shared_state.state_type {
            StateType::RPGShared(rpg) => {
                let ghost party_before = characters_view(rpg.characters@);
                let ghost hero_before = rpg.characters@[0]@;
                rpg.characters[0].position = Position::new(
                    detail.to_position.x,
                    detail.to_position.y,
                );
                proof {
                    assert(characters_view(rpg.characters@) =~= party_before.update(
                        0,
                        CharacterView { position: detail.to_position, ..hero_before },
                    ));
                }
                let target: i64 = shared_state.primitives.map_index as i64
                    + detail.index_addition as i64;
                shared_state.primitives.requested_map_index = target as usize;
                push_fade(&mut shared_state.interrupt_animations);
            },
            StateType::TBDStateType => {},
        }
    }
}

/// The glyph that shows the direction of an arrow.
pub fn direction_string(input: Input) -> (glyph: String)
    ensures
        glyph@ == direction_glyph(input),
{
    match input {
        Input::ArrowUp => "↑".to_owned(),
        Input::ArrowDown => "↓".to_owned(),
        Input::ArrowRight => "→".to_owned(),
        Input::ArrowLeft => "←".to_owned(),
        _ => "".to_owned(),
    }
}

impl FieldState {
    /// The field scene over the maps of the game, with the camera at rest.
    pub fn new() -> (field: FieldState)
        ensures
            field@ == (FieldStateView {
                wrapper_translate_x: 0,
                wrapper_translate_y: 0,
                maps: crate::maps::shipped_maps(),
                character_direction: Seq::empty(),
            }),
            field@.wf(),
    {
        let mut maps: Vec<FieldMap> = Vec::new();
        maps.push(FieldMap::init_1());
        maps.push(FieldMap::init_2());
        maps.push(FieldMap::init_3());
        maps.push(FieldMap::init_4());
        let field = FieldState {
            wrapper_translate_x: 0,
            wrapper_translate_y: 0,
            maps,
            character_direction: String::new(),
        };
        proof {
            crate::maps::lemma_shipped_maps_wf();
            assert(field@.maps =~= crate::maps::shipped_maps());
        }
        field
    }

    /// Makes a step of the character in the direction of the arrow `input`.
    pub fn move_to(&mut self, shared_state: &mut State, input: Input)
        requires
            old(self)@.wf(),
            old(shared_state)@.wf(),
            old(shared_state)@.rpg.within_limits(input),
            old(shared_state)@.primitives.requested_scene_index == FIELD_SCENE,
            input.spec_is_arrow(),
        ensures
            (Stepped { field: final(self)@, state: final(shared_state)@ }) == old(self)@.moved(
                old(shared_state)@,
                input,
            ),
            final(self)@.wf(),
            final(shared_state)@.wf(),
    {
        proof {
            lemma_moved_keeps_wf(self@, shared_state@, input);
        }
        let map_index = shared_state.primitives.map_index;
        let position = match &shared_state.state_type {
            StateType::RPGShared(rpg) => rpg.characters[0].position,
            StateType::TBDStateType => {
                return ;
            },
        };
        let tile = match input {
            Input::ArrowUp => Position::new(position.x, position.y - 40),
            Input::ArrowDown => Position::new(position.x, position.y + 40),
            Input::ArrowRight => Position::new(position.x + 40, position.y),
            Input::ArrowLeft => Position::new(position.x - 40, position.y),
            _ => position,
        };
        assert(tile == tile_ahead(position, input));
        assert(self@.maps[map_index as int] == self.maps@[map_index as int]@);
        let found = self.maps[map_index].find_event(tile);
        let event_index = match found {
            None => {
                match &mut shared_state.state_type {
                    StateType::RPGShared(rpg) => {
                        let ghost party_before = characters_view(rpg.characters@);
                        let ghost hero_before = rpg.characters@[0]@;
                        rpg.characters[0].position = tile;
                        proof {
                            assert(characters_view(rpg.characters@) =~= party_before.update(
                                0,
                                CharacterView { position: tile, ..hero_before },
                            ));
                        }
                    },
                    StateType::TBDStateType => {},
                }
                self.update_character_position(tile.x, tile.y);
                return ;
            },
            Some(event_index) => event_index,
        };
        assert(self@.maps[map_index as int].event_positions[event_index as int].1
            == self.maps@[map_index as int].event_positions@[event_index as int].1@);
        let event = self.maps[map_index].event_positions[event_index].1.clone();
        match event {
            EventType::Gate(key_name) => {
                self.step_at_gate(shared_state, event_index, key_name);
            },
            EventType::Enemy => {
                shared_state.primitives.requested_scene_index += 1;
                push_fade(&mut shared_state.interrupt_animations);
            },
            EventType::TreasureBox(key_name) => {
                self.step_at_treasure(shared_state, event_index, key_name);
            },
            EventType::Obstacle(_) => {},
            EventType::MapConnection(detail) => {
                assert(self@.maps[map_index as int].wf());
                self.step_at_connection(shared_state, detail);
            },
        }
    }

    /// Enters the field.
    pub fn init(&mut self, shared_state: &mut State)
        requires
            old(self)@.wf(),
            old(shared_state)@.wf(),
        ensures
            (Stepped { field: final(self)@, state: final(shared_state)@ }) == old(self)@.entered(
                old(shared_state)@,
            ),
            final(self)@.wf(),
            final(shared_state)@.wf(),
    {
        match &mut shared_state.state_type {
            StateType::RPGShared(rpg) => {
                let position = rpg.characters[0].position;
                if position.x == -1 && position.y == -1 {
                    let ghost party_before = characters_view(rpg.characters@);
                    let ghost hero_before = rpg.characters@[0]@;
                    rpg.characters[0].position = Position::new(CAMERA_X, CAMERA_Y);
                    proof {
                        assert(characters_view(rpg.characters@) =~= party_before.update(
                            0,
                            CharacterView {
                                position: Position { x: CAMERA_X, y: CAMERA_Y },
                                ..hero_before
                            },
                        ));
                    }
                }
                let placed = rpg.characters[0].position;
                self.update_character_position(placed.x, placed.y);
            },
            StateType::TBDStateType => {},
        }
        shared_state.send_own_position(None);
    }

    /// Takes an input while the field is on display.
    pub fn consume(&mut self, shared_state: &mut State, input: Input)
        requires
            old(self)@.wf(),
            old(shared_state)@.wf(),
            old(shared_state)@.rpg.within_limits(input),
            old(shared_state)@.primitives.requested_scene_index == FIELD_SCENE,
        ensures
            (Stepped { field: final(self)@, state: final(shared_state)@ }) == old(self)@.consumed(
                old(shared_state)@,
                input,
            ),
            final(self)@.wf(),
            final(shared_state)@.wf(),
    {
        if input.is_arrow() {
            self.character_direction = direction_string(input);
            self.move_to(shared_state, input);
            shared_state.send_own_position(Some(input));
        } else if input == Input::Cancel {
            shared_state.primitives.requested_scene_index += 2;
        }
    }

    /// Puts the map that is now on display in order: the opened boxes get
    /// a list for it, and the camera is put on the character.
    pub fn update_map(&mut self, shared_state: &mut State)
        requires
            old(self)@.wf(),
            old(shared_state)@.is_rpg,
            old(shared_state)@.rpg.wf(),
            old(shared_state)@.primitives.map_index < MAP_COUNT,
        ensures
            (Stepped { field: final(self)@, state: final(shared_state)@ })
                == old(self)@.map_updated(old(shared_state)@),
            final(self)@.wf(),
            final(shared_state)@.rpg.treasure_box_opened.len() > old(
                shared_state,
            )@.primitives.map_index,
    {
        let map_index = shared_state.primitives.map_index;
        match &mut shared_state.state_type {
            StateType::RPGShared(rpg) => {
                let ghost opened_before = opened_view(rpg.treasure_box_opened@);
                let ghost rpg_before = rpg@;
                while rpg.treasure_box_opened.len() <= map_index
                    invariant
                        opened_before.len() <= rpg.treasure_box_opened@.len(),
                        opened_before.len() <= map_index ==> rpg.treasure_box_opened@.len()
                            <= map_index + 1,
                        map_index < MAP_COUNT,
                        rpg@.characters == rpg_before.characters,
                        rpg@.save_data == rpg_before.save_data,
                        rpg@.online_users == rpg_before.online_users,
                        rpg.characters@.len() >= 1,
                        opened_before.len() > map_index ==> opened_view(rpg.treasure_box_opened@)
                            == opened_before,
                        opened_before.len() <= map_index ==> opened_view(rpg.treasure_box_opened@)
                            == opened_before + Seq::new(
                            (rpg.treasure_box_opened@.len() - opened_before.len()) as nat,
                            |i: int| Seq::<usize>::empty(),
                        ),
                    decreases map_index + 1 - rpg.treasure_box_opened.len(),
                {
                    let ghost so_far = opened_view(rpg.treasure_box_opened@);
                    rpg.treasure_box_opened.push(Vec::new());
                    proof {
                        assert(opened_view(rpg.treasure_box_opened@) =~= so_far.push(
                            Seq::<usize>::empty(),
                        ));
                        assert(opened_view(rpg.treasure_box_opened@) =~= opened_before + Seq::new(
                            (rpg.treasure_box_opened@.len() - opened_before.len()) as nat,
                            |i: int| Seq::<usize>::empty(),
                        ));
                    }
                }
                proof {
                    if opened_before.len() <= map_index {
                        assert(opened_before + Seq::new(0, |i: int| Seq::<usize>::empty())
                            =~= opened_before);
                    }
                    assert(opened_view(rpg.treasure_box_opened@) == padded(
                        opened_before,
                        map_index as int,
                    ));
                }
                let position = rpg.characters[0].position;
                self.update_character_position(position.x, position.y);
            },
            StateType::TBDStateType => {},
        }
    }

    /// Shows an emote that arrived, if it belongs to the map on display.
    pub fn consume_emote_message(&mut self, message: EmoteMessage, shared_state: &mut State)
        requires
            queue_wf(old(shared_state)@.interrupt_animations),
        ensures
            final(shared_state)@ == old(shared_state)@.emote_received(message@),
            queue_wf(final(shared_state)@.interrupt_animations),
            final(self)@ == old(self)@,
    {
        if shared_state.primitives.map_index != message.map_index {
            return ;
        }
        let own_emote = shared_state.user_name == message.user_name;
        shared_state.push_animation(Animation::show_emote(message, own_emote));
    }
}

/// The position in `users` of the first report of the player `user_name`.
pub fn find_user(users: &Vec<PositionMessage>, user_name: &String) -> (found: Option<usize>)
    ensures
        match found {
            Some(index) => user_at(positions_view(users@), user_name@, 0) == Some(index as int)
                && index < users.len(),
            None => user_at(positions_view(users@), user_name@, 0) is None,
        },
{
    let mut i: usize = 0;
    while i < users.len()
        invariant
            i <= users.len(),
            user_at(positions_view(users@), user_name@, 0) == user_at(
                positions_view(users@),
                user_name@,
                i as int,
            ),
        decreases users.len() - i,
    {
        assert(positions_view(users@)[i as int].user_name == users@[i as int].user_name@);
        if users[i].user_name == *user_name {
            return Some(i);
        }
        i += 1;
    }
    None
}

/// Merges what the player `sender` sent into the reports of the other
/// players.
pub fn merge_online_user(
    users: &mut Vec<PositionMessage>,
    sender: &String,
    message_type: MessageType,
    payload: Payload,
)
    requires
        !(payload@ is Emote),
    ensures
        positions_view(final(users)@) == merged_users(
            positions_view(old(users)@),
            sender@,
            message_type,
            payload@,
        ),
{
    let ghost before = positions_view(users@);
    let found = find_user(users, sender);
    match message_type {
        MessageType::Left => {
            if let Some(index) = found {
                users.remove(index);
                assert(positions_view(users@) =~= before.remove(index as int));
            }
        },
        MessageType::Message => {
            match payload {
                Payload::Position(report) => {
                    match found {
                        Some(index) => {
                            users[index].map_index = report.map_index;
                            users[index].direction = report.direction;
                            users[index].position_x = report.position_x;
                            users[index].position_y = report.position_y;
                            assert(positions_view(users@) =~= before.update(
                                index as int,
                                PositionMessageView {
                                    user_name: before[index as int].user_name,
                                    ..report@
                                },
                            ));
                        },
                        None => {
                            users.push(report);
                            assert(positions_view(users@) =~= before.push(report@));
                        },
                    }
                },
                Payload::Channel(inner) => {
                    if inner.message_type == MessageType::Left {
                        if let Some(index) = found {
                            users.remove(index);
                            assert(positions_view(users@) =~= before.remove(index as int));
                        }
                    }
                },
                _ => {},
            }
        },
        MessageType::Join => {},
    }
}

impl FieldState {
    /// Takes an envelope that arrived over the channel, with what its text
    /// holds.
    pub fn consume_channel_message(
        &mut self,
        shared_state: &mut State,
        message: &ChannelMessage,
        payload: Payload,
    )
        requires
            old(shared_state)@.wf(),
        ensures
            final(shared_state)@ == old(shared_state)@.channel_message_received(
                message@,
                payload@,
            ),
            final(shared_state)@.wf(),
            final(self)@ == old(self)@,
    {
        let payload = match payload {
            Payload::Emote(emote) => {
                self.consume_emote_message(emote, shared_state);
                return ;
            },
            other => other,
        };
        if message.user_name == shared_state.user_name {
            return ;
        }
        match &mut shared_state.state_type {
            StateType::RPGShared(rpg) => {
                merge_online_user(
                    &mut rpg.online_users,
                    &message.user_name,
                    message.message_type,
                    payload,
                );
            },
            StateType::TBDStateType => {},
        }
        if message.message_type == MessageType::Join {
            shared_state.send_own_position(None);
        }
    }
}

} // verus!
