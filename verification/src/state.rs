//! The state that the engine and all scenes share.

use crate::animation::{
    queue_view, Animation, AnimationView, MessageBox, MessageBoxView, References,
};
use crate::animation_queue::{any_blocking, queue_wf};
use crate::character::{characters_view, Character, CharacterView};
use crate::input::Input;
use crate::map::MAP_COUNT;
use crate::position::{step_fits, Position};
use crate::message::{
    outbound_view, positions_view, OutboundMessage, OutboundMessageView, PositionMessage,
    PositionMessageView,
};
use crate::save_data::{clone_opened, opened_view, SaveData, SaveDataView};
use vstd::prelude::*;

verus! {

/// The indices of the scene and of the map: the ones on display, and the
/// ones asked for. Only the engine copies the second into the first.
#[derive(Clone, Copy, Debug, PartialEq, Eq, Structural)]
pub struct Primitives {
    pub scene_index: usize,
    pub requested_scene_index: usize,
    pub map_index: usize,
    pub requested_map_index: usize,
}

/// Position of the title scene among the scenes.
pub const TITLE_SCENE: usize = 0;

/// Position of the event scene among the scenes.
pub const EVENT_SCENE: usize = 1;

/// Position of the field scene among the scenes.
pub const FIELD_SCENE: usize = 2;

/// Position of the battle scene among the scenes.
pub const BATTLE_SCENE: usize = 3;

/// Position of the menu scene among the scenes.
pub const MENU_SCENE: usize = 4;

/// Number of scenes.
pub const SCENE_COUNT: usize = 5;

/// What the role-playing game keeps across scenes.
#[derive(Debug)]
pub struct RPGSharedState {
    pub treasure_box_opened: Vec<Vec<usize>>,
    pub save_data: SaveData,
    pub online_users: Vec<PositionMessage>,
    pub characters: Vec<Character>,
}

/// Mathematical value of an `RPGSharedState`.
pub struct RPGSharedStateView {
    pub treasure_box_opened: Seq<Seq<usize>>,
    pub save_data: SaveDataView,
    pub online_users: Seq<PositionMessageView>,
    pub characters: Seq<CharacterView>,
}

impl View for RPGSharedState {
    type V = RPGSharedStateView;

    open spec fn view(&self) -> RPGSharedStateView {
        RPGSharedStateView {
            treasure_box_opened: opened_view(self.treasure_box_opened@),
            save_data: self.save_data@,
            online_users: positions_view(self.online_users@),
            characters: characters_view(self.characters@),
        }
    }
}

impl RPGSharedStateView {
    /// The invariant of the game's state: there is a party, its first
    /// member meets the invariant of a character and stands where the
    /// camera can follow.
    pub open spec fn wf(self) -> bool {
        &&& self.characters.len() >= 1
        &&& self.characters[0].wf()
        &&& self.hero().position.camera_can_follow()
    }

    /// The state with another first party member.
    pub open spec fn with_character(self, character: CharacterView) -> RPGSharedStateView {
        RPGSharedStateView { characters: self.characters.update(0, character), ..self }
    }

    /// The first party member.
    pub open spec fn hero(self) -> CharacterView {
        self.characters[0]
    }

    /// Whether the first party member stands where the step that `input`
    /// asks for stays within the machine's integers.
    pub open spec fn within_limits(self, input: Input) -> bool {
        step_fits(self.hero().position, input)
    }

    /// The state of a new game: the snapshot of a new game read into the
    /// first party member. The snapshot kept is not touched.
    pub open spec fn new_game(self) -> RPGSharedStateView {
        RPGSharedStateView {
            treasure_box_opened: SaveDataView::empty().treasure_box_usize,
            ..self.with_character(SaveDataView::empty().loaded_character(self.hero()))
        }
    }

    /// The snapshot that a load reads: the stored one where there is one,
    /// the one kept otherwise.
    pub open spec fn snapshot_to_load(self, stored: Option<SaveDataView>) -> SaveDataView {
        match stored {
            Some(found) => found,
            None => self.save_data,
        }
    }

    /// The state after a load.
    pub open spec fn loaded(self, stored: Option<SaveDataView>) -> RPGSharedStateView {
        let snapshot = self.snapshot_to_load(stored);
        RPGSharedStateView {
            treasure_box_opened: snapshot.treasure_box_usize,
            save_data: snapshot,
            ..self.with_character(snapshot.loaded_character(self.hero()))
        }
    }

    /// The state after a save on the map `map_index`.
    pub open spec fn saved(self, map_index: usize) -> RPGSharedStateView {
        RPGSharedStateView {
            save_data: self.save_data.updated(self.hero(), self.treasure_box_opened, map_index),
            ..self
        }
    }
}

impl SaveDataView {
    /// Whether a game can go on from the snapshot: it can be read back, its
    /// map is a map of the game, the opened boxes of that map are listed,
    /// and the position is one that the camera can follow.
    pub open spec fn playable(self) -> bool {
        &&& self.wf()
        &&& self.map_usize[0] < MAP_COUNT
        &&& self.treasure_box_usize.len() > self.map_usize[0]
        &&& (Position { x: self.map_i32[0], y: self.map_i32[1] }).camera_can_follow()
    }
}

impl SaveData {
    /// Whether a game can go on from the snapshot.
    pub fn is_playable(&self) -> (playable: bool)
        ensures
            playable == self@.playable(),
    {
        if !self.is_well_formed() {
            return false;
        }
        let map_index = self.map_usize[0];
        assert(self@.treasure_box_usize.len() == self.treasure_box_usize@.len());
        map_index < MAP_COUNT && self.treasure_box_usize.len() > map_index && Position::new(
            self.map_i32[0],
            self.map_i32[1],
        ).can_be_followed()
    }
}

/// The state of the application that runs on the engine.
#[derive(Debug)]
pub enum StateType {
    RPGShared(RPGSharedState),
    TBDStateType,
}

/// Mathematical value of a `StateType`.
pub enum StateTypeView {
    RPGShared(RPGSharedStateView),
    TBDStateType,
}

impl View for StateType {
    type V = StateTypeView;

    open spec fn view(&self) -> StateTypeView {
        match self {
            StateType::RPGShared(rpg) => StateTypeView::RPGShared(rpg@),
            StateType::TBDStateType => StateTypeView::TBDStateType,
        }
    }
}

/// What every scene puts on display.
#[derive(Debug)]
pub struct SharedElements {
    pub message: MessageBox,
}

/// The state that the engine and all scenes share.
#[derive(Debug)]
pub struct State {
    pub user_name: String,
    pub to_send_channel_messages: Vec<OutboundMessage>,
    pub state_type: StateType,
    pub elements: SharedElements,
    pub interrupt_animations: Vec<Vec<Animation>>,
    pub primitives: Primitives,
    pub references: References,
}

/// Mathematical value of a `State`.
pub struct StateView {
    pub user_name: Seq<char>,
    pub to_send_channel_messages: Seq<OutboundMessageView>,
    pub rpg: RPGSharedStateView,
    pub is_rpg: bool,
    pub message_box: MessageBoxView,
    pub interrupt_animations: Seq<Seq<AnimationView>>,
    pub primitives: Primitives,
    pub references: References,
}

/// The value that stands for the game's state where the application is
/// not the role-playing game.
pub open spec fn no_rpg() -> RPGSharedStateView {
    RPGSharedStateView {
        treasure_box_opened: Seq::empty(),
        save_data: SaveDataView::empty(),
        online_users: Seq::empty(),
        characters: Seq::empty(),
    }
}

impl View for State {
    type V = StateView;

    open spec fn view(&self) -> StateView {
        StateView {
            user_name: self.user_name@,
            to_send_channel_messages: outbound_view(self.to_send_channel_messages@),
            rpg: match self.state_type {
                StateType::RPGShared(rpg) => rpg@,
                StateType::TBDStateType => no_rpg(),
            },
            is_rpg: self.state_type is RPGShared,
            message_box: self.elements.message@,
            interrupt_animations: queue_view(self.interrupt_animations@),
            primitives: self.primitives,
            references: self.references,
        }
    }
}

impl StateView {
    /// The invariant of the shared state: the application is the
    /// role-playing game, its state and the animation queue meet their
    /// invariants, the indices stay within the scenes and the maps, and
    /// the opened boxes of the map on display are listed. The snapshot kept
    /// is one from which a game can go on.
    pub open spec fn wf(self) -> bool {
        &&& self.is_rpg
        &&& self.rpg.wf()
        &&& self.rpg.save_data.playable()
        &&& queue_wf(self.interrupt_animations)
        &&& self.primitives.scene_index < SCENE_COUNT
        &&& self.primitives.requested_scene_index < SCENE_COUNT
        &&& self.primitives.map_index < MAP_COUNT
        &&& self.primitives.requested_map_index < MAP_COUNT
        &&& self.rpg.treasure_box_opened.len() > self.primitives.map_index
    }

    /// Whether some animation holds up scene and map transitions.
    pub open spec fn blocked(self) -> bool {
        any_blocking(self.interrupt_animations)
    }

    /// Whether what is asked for is on display.
    pub open spec fn settled(self) -> bool {
        &&& self.primitives.requested_scene_index == self.primitives.scene_index
        &&& self.primitives.requested_map_index == self.primitives.map_index
    }

    /// The state with another state of the game.
    pub open spec fn with_rpg(self, rpg: RPGSharedStateView) -> StateView {
        StateView { rpg, ..self }
    }

    /// The state with a chain added at the end of the animation queue.
    pub open spec fn with_chain(self, chain: Seq<AnimationView>) -> StateView {
        StateView { interrupt_animations: self.interrupt_animations.push(chain), ..self }
    }

    /// The state with another scene asked for.
    pub open spec fn requesting_scene(self, scene_index: usize) -> StateView {
        StateView {
            primitives: Primitives { requested_scene_index: scene_index, ..self.primitives },
            ..self
        }
    }

    /// The state with both map indices set.
    pub open spec fn on_map(self, map_index: usize) -> StateView {
        StateView {
            primitives: Primitives {
                map_index,
                requested_map_index: map_index,
                ..self.primitives
            },
            ..self
        }
    }

    /// The report of the player's own position: the position of the first
    /// party member on the map asked for, looking the way of `input`, or
    /// down where there is none.
    pub open spec fn own_position(self, input: Option<Input>) -> PositionMessageView {
        PositionMessageView {
            user_name: self.user_name,
            direction: match input {
                Some(direction) => direction,
                None => Input::ArrowDown,
            },
            position_x: self.rpg.hero().position.x,
            position_y: self.rpg.hero().position.y,
            map_index: self.primitives.requested_map_index,
        }
    }

    /// The state with the report of the player's own position waiting to
    /// be sent.
    pub open spec fn own_position_sent(self, input: Option<Input>) -> StateView {
        StateView {
            to_send_channel_messages: self.to_send_channel_messages.push(
                OutboundMessageView::Position(self.own_position(input)),
            ),
            ..self
        }
    }

    /// The state of a new game.
    pub open spec fn new_game(self) -> StateView {
        self.with_rpg(self.rpg.new_game()).on_map(SaveDataView::empty().map_usize[0])
    }

    /// The state after a load.
    pub open spec fn loaded(self, stored: Option<SaveDataView>) -> StateView {
        self.with_rpg(self.rpg.loaded(stored)).on_map(
            self.rpg.snapshot_to_load(stored).map_usize[0],
        )
    }

    /// The state after a save.
    pub open spec fn saved(self) -> StateView {
        self.with_rpg(self.rpg.saved(self.primitives.map_index))
    }
}

impl State {
    /// Adds a chain at the end of the animation queue.
    pub fn push_chain(&mut self, chain: Vec<Animation>)
        requires
            chain@.len() > 0,
            forall|i: int| 0 <= i < chain@.len() ==> (#[trigger] chain@[i])@.wf(),
            queue_wf(old(self)@.interrupt_animations),
        ensures
            final(self)@ == old(self)@.with_chain(crate::animation::chain_view(chain@)),
            queue_wf(final(self)@.interrupt_animations),
    {
        self.interrupt_animations.push(chain);
        proof {
            assert(final(self)@.interrupt_animations =~= old(self)@.interrupt_animations.push(
                crate::animation::chain_view(chain@),
            ));
        }
    }

    /// Adds a chain of one animation at the end of the animation queue.
    pub fn push_animation(&mut self, animation: Animation)
        requires
            animation@.wf(),
            queue_wf(old(self)@.interrupt_animations),
        ensures
            final(self)@ == old(self)@.with_chain(seq![animation@]),
            queue_wf(final(self)@.interrupt_animations),
    {
        let mut chain: Vec<Animation> = Vec::new();
        chain.push(animation);
        assert(crate::animation::chain_view(chain@) =~= seq![animation@]);
        self.push_chain(chain);
    }

    /// Queues the report of the player's own position.
    pub fn send_own_position(&mut self, input: Option<Input>)
        requires
            old(self)@.is_rpg,
            old(self)@.rpg.characters.len() >= 1,
        ensures
            final(self)@ == old(self)@.own_position_sent(input),
    {
        let position = match &self.state_type {
            StateType::RPGShared(rpg) => rpg.characters[0].position,
            StateType::TBDStateType => {
                return ;
            },
        };
        let message = PositionMessage {
            user_name: self.user_name.clone(),
            direction: match input {
                Some(direction) => direction,
                None => Input::ArrowDown,
            },
            position_x: position.x,
            position_y: position.y,
            map_index: self.primitives.requested_map_index,
        };
        self.to_send_channel_messages.push(OutboundMessage::Position(message));
        proof {
            assert(final(self)@.to_send_channel_messages =~= old(
                self,
            )@.to_send_channel_messages.push(
                OutboundMessageView::Position(old(self)@.own_position(input)),
            ));
        }
    }
}

impl RPGSharedState {
    /// Starts a new game: the snapshot of a new game is read into the first
    /// party member, and the game stands on its map.
    pub fn new_game(shared_state: &mut State)
        requires
            old(shared_state)@.is_rpg,
            old(shared_state)@.rpg.characters.len() >= 1,
        ensures
            final(shared_state)@ == old(shared_state)@.new_game(),
            final(shared_state)@.rpg.wf(),
            final(shared_state)@.rpg.treasure_box_opened.len() > 0,
            final(shared_state)@.primitives.map_index == 0,
    {
        match &mut shared_state.state_type {
            StateType::RPGShared(rpg) => {
                let mut new_save_data = SaveData::empty();
                new_save_data.load(&mut rpg.characters, None);
                rpg.treasure_box_opened = clone_opened(&new_save_data.treasure_box_usize);
                shared_state.primitives.map_index = new_save_data.map_usize[0];
                shared_state.primitives.requested_map_index = new_save_data.map_usize[0];
            },
            StateType::TBDStateType => {},
        }
    }

    /// Loads a game: from `stored` where the store holds a snapshot, from
    /// the snapshot kept otherwise.
    pub fn load_save_data(shared_state: &mut State, stored: Option<SaveData>)
        requires
            old(shared_state)@.is_rpg,
            old(shared_state)@.rpg.characters.len() >= 1,
            old(shared_state)@.rpg.snapshot_to_load(
                match stored {
                    Some(found) => Some(found@),
                    None => None,
                },
            ).playable(),
        ensures
            final(shared_state)@ == old(shared_state)@.loaded(
                match stored {
                    Some(found) => Some(found@),
                    None => None,
                },
            ),
            final(shared_state)@.rpg.wf(),
            final(shared_state)@.rpg.save_data.playable(),
            final(shared_state)@.primitives.map_index < MAP_COUNT,
            final(shared_state)@.rpg.treasure_box_opened.len() > final(shared_state)@.primitives.map_index,
    {
        match &mut shared_state.state_type {
            StateType::RPGShared(rpg) => {
                rpg.save_data.load(&mut rpg.characters, stored);
                rpg.treasure_box_opened = clone_opened(&rpg.save_data.treasure_box_usize);
                shared_state.primitives.map_index = rpg.save_data.map_usize[0];
                shared_state.primitives.requested_map_index = rpg.save_data.map_usize[0];
            },
            StateType::TBDStateType => {},
        }
    }

    /// Saves the game into the snapshot kept.
    pub fn update_save_data(shared_state: &mut State)
        requires
            old(shared_state)@.is_rpg,
            old(shared_state)@.rpg.characters.len() >= 1,
        ensures
            final(shared_state)@ == old(shared_state)@.saved(),
            old(shared_state)@.wf() ==> final(shared_state)@.wf(),
    {
        proof {
            if shared_state@.wf() {
                crate::save_data::lemma_save_round_trip(
                    shared_state@.rpg.save_data,
                    shared_state@.rpg.hero(),
                    shared_state@.rpg.hero(),
                    shared_state@.rpg.treasure_box_opened,
                    shared_state@.primitives.map_index,
                );
            }
        }
        match &mut shared_state.state_type {
            StateType::RPGShared(rpg) => {
                rpg.save_data.update(
                    &rpg.characters,
                    &rpg.treasure_box_opened,
                    shared_state.primitives.map_index,
                );
            },
            StateType::TBDStateType => {},
        }
    }
}

} // verus!
