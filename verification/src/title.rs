//! The title scene: start a new game or go on with the saved one.

use crate::animation::Animation;
use crate::cursor::Cursor;
use crate::field::default_fade;
use crate::input::Input;
use crate::save_data::{SaveData, SaveDataView};
use crate::state::{RPGSharedState, State, StateType, StateView, EVENT_SCENE, FIELD_SCENE};
use vstd::prelude::*;

verus! {

/// The state of the title scene: the cursor over its entries.
#[derive(Clone, Copy, Debug, PartialEq, Eq, Structural)]
pub struct TitleState {
    pub cursor: Cursor,
}

/// The entry that starts a new game.
pub const NEW_GAME: usize = 0;

/// The entry that does nothing.
pub const NO_ENTRY: usize = 2;

/// The view of a stored snapshot, where there is one.
pub open spec fn stored_view(stored: Option<SaveData>) -> Option<SaveDataView> {
    match stored {
        Some(found) => Some(found@),
        None => None,
    }
}

/// What an input leaves of the title scene and the shared state.
pub struct TitleStepped {
    pub title: TitleState,
    pub state: StateView,
}

impl TitleState {
    /// Whether enter starts a game where the cursor stands.
    pub open spec fn starts_game(self) -> bool {
        self.cursor.chose_index != NO_ENTRY
    }

    /// Whether enter loads a game where the cursor stands.
    pub open spec fn loads_game(self) -> bool {
        self.starts_game() && self.cursor.chose_index != NEW_GAME
    }

    /// The state after enter on an entry that starts a game.
    ///
    /// A new game starts on the field. A loaded game shows the opening
    /// first, in the event scene, unless its opening was seen before: then
    /// the opening is skipped and the game goes on on the field. In both
    /// cases the screen fades.
    pub open spec fn started(self, state: StateView, stored: Option<SaveDataView>) -> StateView {
        (if self.cursor.chose_index == NEW_GAME {
            state.requesting_scene(FIELD_SCENE).new_game()
        } else {
            let loaded = state.requesting_scene(EVENT_SCENE).loaded(stored);
            if loaded.rpg.hero().opening_seen() {
                loaded.requesting_scene(FIELD_SCENE)
            } else {
                loaded
            }
        }).with_chain(seq![default_fade()])
    }

    /// The scene and the state after an input: up and down move the
    /// cursor, enter starts a game, every other input does nothing.
    pub open spec fn consumed(
        self,
        state: StateView,
        input: Input,
        stored: Option<SaveDataView>,
    ) -> TitleStepped {
        if input == Input::ArrowUp || input == Input::ArrowDown {
            TitleStepped { title: TitleState { cursor: self.cursor.moved(input) }, state }
        } else if input == Input::Enter && self.starts_game() {
            TitleStepped { title: self, state: self.started(state, stored) }
        } else {
            TitleStepped { title: self, state }
        }
    }

    /// The title scene with its cursor on the first of two entries.
    pub fn new() -> (title: TitleState)
        ensures
            title == (TitleState { cursor: Cursor::spec_new(2, 60) }),
            title.cursor.wf(),
    {
        TitleState { cursor: Cursor::new(2, 60) }
    }

    /// Takes an input while the title is on display. `stored` is the
    /// snapshot that the store holds, if it holds one.
    pub fn consume(&mut self, shared_state: &mut State, input: Input, stored: Option<SaveData>)
        requires
            old(self).cursor.wf(),
            old(shared_state)@.wf(),
            stored matches Some(found) ==> found@.playable(),
        ensures
            (TitleStepped { title: *final(self), state: final(shared_state)@ })
                == old(self).consumed(old(shared_state)@, input, stored_view(stored)),
            final(self).cursor.wf(),
            final(shared_state)@.wf(),
    {
        match input {
            Input::ArrowUp | Input::ArrowDown => {
                self.cursor.consume(input);
            },
            Input::Enter => {
                if self.cursor.chose_index == NO_ENTRY {
                    return ;
                }
                if self.cursor.chose_index == NEW_GAME {
                    shared_state.primitives.requested_scene_index = FIELD_SCENE;
                    RPGSharedState::new_game(shared_state);
                } else {
                    shared_state.primitives.requested_scene_index = EVENT_SCENE;
                    RPGSharedState::load_save_data(shared_state, stored);
                    let opening_seen = match &shared_state.state_type {
                        StateType::RPGShared(rpg) => {
                            rpg.characters[0].event_flags.len() > 0
                                && rpg.characters[0].event_flags[0]
                        },
                        StateType::TBDStateType => false,
                    };
                    if opening_seen {
                        shared_state.primitives.requested_scene_index = FIELD_SCENE;
                    }
                }
                shared_state.push_animation(Animation::create_fade_out_in());
            },
            _ => {},
        }
    }
}

} // verus!
