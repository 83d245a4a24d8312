//! Scenes: the five screens of the game, each with its own state, behind
//! one interface.

use crate::battle::{BattleState, BattleStateView};
use crate::event::EventState;
use crate::field::{FieldState, FieldStateView};
use crate::input::Input;
use crate::menu::{MenuState, MenuStateView};
use crate::message::{ChannelMessage, ChannelMessageView, Payload, PayloadView};
use crate::save_data::{SaveData, SaveDataView};
use crate::state::{
    State, StateView, BATTLE_SCENE, EVENT_SCENE, FIELD_SCENE, MENU_SCENE, TITLE_SCENE,
};
use crate::title::{stored_view, TitleState};
use vstd::prelude::*;

verus! {

/// The state of a scene, by the kind of scene.
#[derive(Debug)]
pub enum SceneType {
    RPGTitle(TitleState),
    RPGEvent(EventState),
    RPGField(FieldState),
    RPGBattle(BattleState),
    RPGMenu(MenuState),
}

/// Mathematical value of a `SceneType`.
pub enum SceneTypeView {
    RPGTitle(TitleState),
    RPGEvent(EventState),
    RPGField(FieldStateView),
    RPGBattle(BattleStateView),
    RPGMenu(MenuStateView),
}

impl View for SceneType {
    type V = SceneTypeView;

    open spec fn view(&self) -> SceneTypeView {
        match self {
            SceneType::RPGTitle(title) => SceneTypeView::RPGTitle(*title),
            SceneType::RPGEvent(event) => SceneTypeView::RPGEvent(*event),
            SceneType::RPGField(field) => SceneTypeView::RPGField(field@),
            SceneType::RPGBattle(battle) => SceneTypeView::RPGBattle(battle@),
            SceneType::RPGMenu(menu) => SceneTypeView::RPGMenu(menu@),
        }
    }
}

/// A scene: whether it is on display, its state, and whether it is shown
/// over the scene before it instead of in its place.
#[derive(Debug)]
pub struct Scene {
    pub visible: bool,
    pub scene_type: SceneType,
    pub is_partial_scene: bool,
}

/// Mathematical value of a `Scene`.
pub struct SceneView {
    pub visible: bool,
    pub scene_type: SceneTypeView,
    pub is_partial_scene: bool,
}

impl View for Scene {
    type V = SceneView;

    open spec fn view(&self) -> SceneView {
        SceneView {
            visible: self.visible,
            scene_type: self.scene_type@,
            is_partial_scene: self.is_partial_scene,
        }
    }
}

/// Views of a list of scenes, element by element.
pub open spec fn scenes_view(scenes: Seq<Scene>) -> Seq<SceneView> {
    scenes.map_values(|s: Scene| s@)
}

/// What a call leaves of a scene and the shared state, and whether the
/// snapshot kept is to be written to the store.
pub struct SceneStepped {
    pub scene: SceneView,
    pub state: StateView,
    pub store: bool,
}

impl SceneView {
    /// The invariant of a scene: that of its state.
    pub open spec fn wf(self) -> bool {
        match self.scene_type {
            SceneTypeView::RPGTitle(title) => title.cursor.wf(),
            SceneTypeView::RPGEvent(_) => true,
            SceneTypeView::RPGField(field) => field.wf(),
            SceneTypeView::RPGBattle(battle) => battle.wf(),
            SceneTypeView::RPGMenu(menu) => menu.wf(),
        }
    }

    /// The position among the scenes at which a scene of this kind stands.
    pub open spec fn home(self) -> usize {
        match self.scene_type {
            SceneTypeView::RPGTitle(_) => TITLE_SCENE,
            SceneTypeView::RPGEvent(_) => EVENT_SCENE,
            SceneTypeView::RPGField(_) => FIELD_SCENE,
            SceneTypeView::RPGBattle(_) => BATTLE_SCENE,
            SceneTypeView::RPGMenu(_) => MENU_SCENE,
        }
    }

    /// The scene with another state.
    pub open spec fn with_type(self, scene_type: SceneTypeView) -> SceneView {
        SceneView { scene_type, ..self }
    }

    /// The scene taken off display.
    pub open spec fn concealed(self) -> SceneView {
        SceneView { visible: false, ..self }
    }

    /// The scene and the state once the scene is entered: the scene is put
    /// on display and does what its kind does on entry.
    pub open spec fn entered(self, state: StateView) -> SceneStepped {
        let shown = SceneView { visible: true, ..self };
        match self.scene_type {
            SceneTypeView::RPGTitle(_) => SceneStepped { scene: shown, state, store: false },
            SceneTypeView::RPGEvent(_) => SceneStepped {
                scene: shown,
                state: state.opening_shown(),
                store: false,
            },
            SceneTypeView::RPGField(field) => SceneStepped {
                scene: shown.with_type(SceneTypeView::RPGField(field.entered(state).field)),
                state: field.entered(state).state,
                store: false,
            },
            SceneTypeView::RPGBattle(battle) => SceneStepped {
                scene: shown.with_type(SceneTypeView::RPGBattle(battle.entered(state).battle)),
                state: battle.entered(state).state,
                store: false,
            },
            SceneTypeView::RPGMenu(menu) => SceneStepped {
                scene: shown.with_type(SceneTypeView::RPGMenu(menu.entered())),
                state,
                store: false,
            },
        }
    }

    /// The scene and the state after an input. `stored` is the snapshot
    /// that the store holds, `escaped` the outcome of an attempt to escape.
    pub open spec fn consumed(
        self,
        state: StateView,
        input: Input,
        stored: Option<SaveDataView>,
        escaped: bool,
    ) -> SceneStepped {
        match self.scene_type {
            SceneTypeView::RPGTitle(title) => SceneStepped {
                scene: self.with_type(
                    SceneTypeView::RPGTitle(title.consumed(state, input, stored).title),
                ),
                state: title.consumed(state, input, stored).state,
                store: false,
            },
            SceneTypeView::RPGEvent(_) => SceneStepped { scene: self, state, store: false },
            SceneTypeView::RPGField(field) => SceneStepped {
                scene: self.with_type(SceneTypeView::RPGField(field.consumed(state, input).field)),
                state: field.consumed(state, input).state,
                store: false,
            },
            SceneTypeView::RPGBattle(battle) => SceneStepped {
                scene: self.with_type(
                    SceneTypeView::RPGBattle(battle.consumed(state, input, escaped).battle),
                ),
                state: battle.consumed(state, input, escaped).state,
                store: false,
            },
            SceneTypeView::RPGMenu(menu) => SceneStepped {
                scene: self.with_type(SceneTypeView::RPGMenu(menu.consumed(state, input).menu)),
                state: menu.consumed(state, input).state,
                store: menu.consumed(state, input).store,
            },
        }
    }

    /// The scene and the state once another map is on display: the field
    /// puts the map in order, every other scene does nothing.
    pub open spec fn map_updated(self, state: StateView) -> SceneStepped {
        match self.scene_type {
            SceneTypeView::RPGField(field) => SceneStepped {
                scene: self.with_type(SceneTypeView::RPGField(field.map_updated(state).field)),
                state: field.map_updated(state).state,
                store: false,
            },
            _ => SceneStepped { scene: self, state, store: false },
        }
    }

    /// The state after an envelope arrived: the field takes it, every
    /// other scene ignores it.
    pub open spec fn channel_message_consumed(
        self,
        state: StateView,
        message: ChannelMessageView,
        payload: PayloadView,
    ) -> StateView {
        match self.scene_type {
            SceneTypeView::RPGField(_) => state.channel_message_received(message, payload),
            _ => state,
        }
    }
}

impl Scene {
    /// A scene of the given state, not on display.
    pub fn new(scene_type: SceneType, is_partial_scene: bool) -> (scene: Scene)
        ensures
            scene@ == (SceneView { visible: false, scene_type: scene_type@, is_partial_scene }),
    {
        Scene { visible: false, scene_type, is_partial_scene }
    }

    /// Takes the scene off display.
    pub fn conceal(&mut self)
        ensures
            final(self)@ == old(self)@.concealed(),
    {
        self.visible = false;
    }

    /// Puts the scene on display.
    pub fn show(&mut self)
        ensures
            final(self)@ == (SceneView { visible: true, ..old(self)@ }),
    {
        self.visible = true;
    }

    /// Enters the scene.
    pub fn init(&mut self, shared_state: &mut State)
        requires
            old(self)@.wf(),
            old(shared_state)@.wf(),
        ensures
            (SceneStepped { scene: final(self)@, state: final(shared_state)@, store: false })
                == old(self)@.entered(old(shared_state)@),
            final(self)@.wf(),
            final(self)@.home() == old(self)@.home(),
            final(shared_state)@.wf(),
    {
        self.visible = true;
        match &mut self.scene_type {
            SceneType::RPGTitle(_) => {},
            SceneType::RPGEvent(event) => {
                event.init(shared_state);
            },
            SceneType::RPGField(field) => {
                field.init(shared_state);
            },
            SceneType::RPGBattle(battle) => {
                battle.init(shared_state);
            },
            SceneType::RPGMenu(menu) => {
                menu.init(shared_state);
            },
        }
    }

    /// Whether the scene can take the input: it is the scene asked for,
    /// and where it is the field, the step that the input asks for stays
    /// within the machine's integers.
    pub open spec fn can_consume(scene: SceneView, state: StateView, input: Input) -> bool {
        &&& state.primitives.requested_scene_index == scene.home()
        &&& scene.scene_type is RPGField ==> state.rpg.within_limits(input)
    }

    /// Takes an input with `escaped` as the outcome of an attempt to
    /// escape from a battle.
    pub fn consume_rolled(
        &mut self,
        shared_state: &mut State,
        input: Input,
        stored: Option<SaveData>,
        escaped: bool,
    ) -> (store: bool)
        requires
            old(self)@.wf(),
            old(shared_state)@.wf(),
            Scene::can_consume(old(self)@, old(shared_state)@, input),
            stored matches Some(found) ==> found@.playable(),
        ensures
            (SceneStepped { scene: final(self)@, state: final(shared_state)@, store })
                == old(self)@.consumed(old(shared_state)@, input, stored_view(stored), escaped),
            final(self)@.wf(),
            final(self)@.home() == old(self)@.home(),
            final(shared_state)@.wf(),
    {
        match &mut self.scene_type {
            SceneType::RPGTitle(title) => {
                title.consume(shared_state, input, stored);
                false
            },
            SceneType::RPGEvent(event) => {
                event.consume(shared_state, input);
                false
            },
            SceneType::RPGField(field) => {
                field.consume(shared_state, input);
                false
            },
            SceneType::RPGBattle(battle) => {
                battle.consume_rolled(shared_state, input, escaped);
                false
            },
            SceneType::RPGMenu(menu) => menu.consume(shared_state, input),
        }
    }

    /// Takes an input. An attempt to escape from a battle is drawn by
    /// chance: the scene and the state are left as one of the two outcomes
    /// leaves them.
    pub fn consume(&mut self, shared_state: &mut State, input: Input, stored: Option<SaveData>) -> (store:
        bool)
        requires
            old(self)@.wf(),
            old(shared_state)@.wf(),
            Scene::can_consume(old(self)@, old(shared_state)@, input),
            stored matches Some(found) ==> found@.playable(),
        ensures
            (SceneStepped { scene: final(self)@, state: final(shared_state)@, store })
                == old(self)@.consumed(old(shared_state)@, input, stored_view(stored), true) || (
            SceneStepped { scene: final(self)@, state: final(shared_state)@, store })
                == old(self)@.consumed(old(shared_state)@, input, stored_view(stored), false),
            final(self)@.wf(),
            final(self)@.home() == old(self)@.home(),
            final(shared_state)@.wf(),
    {
        match &mut self.scene_type {
            SceneType::RPGTitle(title) => {
                title.consume(shared_state, input, stored);
                false
            },
            SceneType::RPGEvent(event) => {
                event.consume(shared_state, input);
                false
            },
            SceneType::RPGField(field) => {
                field.consume(shared_state, input);
                false
            },
            SceneType::RPGBattle(battle) => {
                battle.consume(shared_state, input);
                false
            },
            SceneType::RPGMenu(menu) => menu.consume(shared_state, input),
        }
    }

    /// Puts the map that is now on display in order.
    pub fn update_map(&mut self, shared_state: &mut State)
        requires
            old(self)@.wf(),
            old(shared_state)@.is_rpg,
            old(shared_state)@.rpg.wf(),
            old(shared_state)@.primitives.map_index < crate::map::MAP_COUNT,
        ensures
            (SceneStepped { scene: final(self)@, state: final(shared_state)@, store: false })
                == old(self)@.map_updated(old(shared_state)@),
            final(self)@.wf(),
            final(self)@.home() == old(self)@.home(),
    {
        match &mut self.scene_type {
            SceneType::RPGField(field) => {
                field.update_map(shared_state);
            },
            _ => {},
        }
    }

    /// Takes an envelope that arrived over the channel.
    pub fn consume_channel_message(
        &mut self,
        shared_state: &mut State,
        message: &ChannelMessage,
        payload: Payload,
    )
        requires
            old(shared_state)@.wf(),
        ensures
            final(shared_state)@ == old(self)@.channel_message_consumed(
                old(shared_state)@,
                message@,
                payload@,
            ),
            final(shared_state)@.wf(),
            final(self)@ == old(self)@,
    {
        match &mut self.scene_type {
            SceneType::RPGField(field) => {
                field.consume_channel_message(shared_state, message, payload);
            },
            _ => {},
        }
    }
}

} // verus!
