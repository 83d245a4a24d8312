//! The engine: it hands key presses to the scene on display, runs the
//! animations frame by frame, merges what arrives over the channel, and
//! alone commits the scene and the map that were asked for, never while
//! an animation holds transitions up.

use crate::animation::{queue_view, AnimationView, MessageBoxView, References};
use crate::animation_queue::{
    advance_animations, advanced, any_blocking, has_animation_blocking_scene_update,
};
use crate::input::{input_of_key, Input};

use crate::message::{
    ChannelMessage, ChannelMessageView, OutboundMessage, OutboundMessageView, Payload, PayloadView,
};
use crate::save_data::{SaveData, SaveDataView};
use crate::scene::{scenes_view, Scene, SceneStepped, SceneType, SceneTypeView, SceneView};
use crate::state::{Primitives, State, StateView, FIELD_SCENE, MENU_SCENE, SCENE_COUNT, TITLE_SCENE};
use crate::title::stored_view;
use vstd::prelude::*;

verus! {

/// What is known of the transport: whether it was opened, whether it was
/// closed since, and whether the player joined the channel.
#[derive(Clone, Copy, Debug, PartialEq, Eq, Structural)]
pub struct WebSocketState {
    pub is_opened: bool,
    pub is_closed: bool,
    pub is_joined: bool,
}

impl WebSocketState {
    /// Whether the transport takes messages.
    pub open spec fn ready(self) -> bool {
        self.is_opened && !self.is_closed
    }
}

/// An envelope that arrived, with what its text holds.
#[derive(Debug)]
pub struct InboundMessage {
    pub envelope: ChannelMessage,
    pub payload: Payload,
}

/// Mathematical value of an `InboundMessage`.
pub struct InboundMessageView {
    pub envelope: ChannelMessageView,
    pub payload: PayloadView,
}

impl View for InboundMessage {
    type V = InboundMessageView;

    open spec fn view(&self) -> InboundMessageView {
        InboundMessageView { envelope: self.envelope@, payload: self.payload@ }
    }
}

/// Views of a list of arrived envelopes, element by element.
pub open spec fn inbound_view(messages: Seq<InboundMessage>) -> Seq<InboundMessageView> {
    messages.map_values(|m: InboundMessage| m@)
}

/// The engine's side of the channel: the state of the transport, the
/// envelopes that arrived and wait for the next frame, and the player's
/// name.
#[derive(Debug)]
pub struct WebSocketWrapper {
    pub state: WebSocketState,
    pub messages: Vec<InboundMessage>,
    pub user_name: String,
}

/// Mathematical value of a `WebSocketWrapper`.
pub struct WebSocketWrapperView {
    pub state: WebSocketState,
    pub messages: Seq<InboundMessageView>,
    pub user_name: Seq<char>,
}

impl View for WebSocketWrapper {
    type V = WebSocketWrapperView;

    open spec fn view(&self) -> WebSocketWrapperView {
        WebSocketWrapperView {
            state: self.state,
            messages: inbound_view(self.messages@),
            user_name: self.user_name@,
        }
    }
}

/// What the engine asks its caller to do.
#[derive(Debug)]
pub enum EngineAction {
    /// Open the transport again.
    Reconnect,
    /// Announce the player on the channel.
    Join,
    /// Announce that the player left the channel.
    Left,
    /// Send a report over the channel.
    Send(OutboundMessage),
    /// Write the snapshot kept to the store.
    StoreSave,
}

/// Mathematical value of an `EngineAction`.
pub enum EngineActionView {
    Reconnect,
    Join,
    Left,
    Send(OutboundMessageView),
    StoreSave,
}

impl View for EngineAction {
    type V = EngineActionView;

    open spec fn view(&self) -> EngineActionView {
        match self {
            EngineAction::Reconnect => EngineActionView::Reconnect,
            EngineAction::Join => EngineActionView::Join,
            EngineAction::Left => EngineActionView::Left,
            EngineAction::Send(message) => EngineActionView::Send(message@),
            EngineAction::StoreSave => EngineActionView::StoreSave,
        }
    }
}

/// Views of a list of actions, element by element.
pub open spec fn actions_view(actions: Seq<EngineAction>) -> Seq<EngineActionView> {
    actions.map_values(|a: EngineAction| a@)
}

/// The engine: all scenes, the channel and the shared state.
#[derive(Debug)]
pub struct Engine {
    pub scenes: Vec<Scene>,
    pub web_socket_wrapper: WebSocketWrapper,
    pub shared_state: State,
}

/// Mathematical value of an `Engine`.
pub struct EngineView {
    pub scenes: Seq<SceneView>,
    pub web_socket_wrapper: WebSocketWrapperView,
    pub shared_state: StateView,
}

impl View for Engine {
    type V = EngineView;

    open spec fn view(&self) -> EngineView {
        EngineView {
            scenes: scenes_view(self.scenes@),
            web_socket_wrapper: self.web_socket_wrapper@,
            shared_state: self.shared_state@,
        }
    }
}

/// What a call leaves of the engine, and what it asks the caller to do.
pub struct Outcome {
    pub engine: EngineView,
    pub actions: Seq<EngineActionView>,
}

/// Every scene but the one at `keep` taken off display.
pub open spec fn others_concealed(scenes: Seq<SceneView>, keep: int) -> Seq<SceneView> {
    Seq::new(
        scenes.len(),
        |i: int|
            if i == keep {
                scenes[i]
            } else {
                scenes[i].concealed()
            },
    )
}

/// The reports that wait to be sent, each as the action that sends it.
pub open spec fn send_actions(queue: Seq<OutboundMessageView>) -> Seq<EngineActionView> {
    queue.map_values(|m: OutboundMessageView| EngineActionView::Send(m))
}

impl EngineView {
    /// The part of the invariant that holds at every moment: the five
    /// scenes stand in their order, each well-formed, and the shared state
    /// is well-formed.
    pub open spec fn sound(self) -> bool {
        &&& self.scenes.len() == SCENE_COUNT
        &&& forall|i: int|
            0 <= i < self.scenes.len() ==> (#[trigger] self.scenes[i]).wf() && self.scenes[i].home()
                == i
        &&& self.shared_state.wf()
    }

    /// The invariant of the engine between two calls.
    ///
    /// The engine is sound. What is asked for is on display unless an
    /// animation holds transitions up. Another map is only ever asked for
    /// while the field is on display and asked for.
    pub open spec fn wf(self) -> bool {
        &&& self.sound()
        &&& self.shared_state.blocked() || self.shared_state.settled()
        &&& self.shared_state.primitives.requested_map_index
            != self.shared_state.primitives.map_index ==> self.shared_state.primitives.scene_index
            == FIELD_SCENE && self.shared_state.primitives.requested_scene_index == FIELD_SCENE
    }

    /// Whether the key press can be taken: where the field is on display,
    /// the step that the key asks for stays within the machine's integers.
    pub open spec fn within_limits(self, key: Seq<char>) -> bool {
        self.shared_state.primitives.scene_index == FIELD_SCENE
            ==> self.shared_state.rpg.within_limits(input_of_key(key))
    }

    /// Whether the key press reads the store: it is taken by the title,
    /// and it is enter on the entry that loads a game.
    pub open spec fn reads_store(self, key: Seq<char>) -> bool {
        &&& !self.shared_state.references.has_message
        &&& !self.shared_state.blocked()
        &&& self.active_scene().scene_type matches SceneTypeView::RPGTitle(title)
        &&& input_of_key(key) == Input::Enter
        &&& title.loads_game()
    }

    /// The scene on display.
    pub open spec fn active_scene(self) -> SceneView {
        self.scenes[self.shared_state.primitives.scene_index as int]
    }

    /// The engine with the scene at `index` and the shared state replaced.
    pub open spec fn with_scene(self, index: int, stepped: SceneStepped) -> EngineView {
        EngineView {
            scenes: self.scenes.update(index, stepped.scene),
            shared_state: stepped.state,
            ..self
        }
    }

    /// The commit of the scene asked for.
    ///
    /// Nothing happens where it is on display already. Else it becomes the
    /// scene on display, the channel is joined on leaving the title and
    /// left on returning to it, every other scene is taken off display
    /// unless the new one is the menu, and the new scene is entered.
    pub open spec fn scene_committed(self) -> Outcome {
        let primitives = self.shared_state.primitives;
        if primitives.scene_index == primitives.requested_scene_index {
            Outcome { engine: self, actions: Seq::empty() }
        } else {
            let index = primitives.requested_scene_index;
            let joined = self.web_socket_wrapper.state.is_joined;
            let now_joined = index != TITLE_SCENE;
            let scenes = if index != MENU_SCENE {
                others_concealed(self.scenes, index as int)
            } else {
                self.scenes
            };
            let state = StateView {
                primitives: Primitives { scene_index: index, ..primitives },
                ..self.shared_state
            };
            Outcome {
                engine: EngineView {
                    scenes,
                    web_socket_wrapper: WebSocketWrapperView {
                        state: WebSocketState {
                            is_joined: now_joined,
                            ..self.web_socket_wrapper.state
                        },
                        ..self.web_socket_wrapper
                    },
                    shared_state: state,
                }.with_scene(index as int, scenes[index as int].entered(state)),
                actions: if now_joined && !joined {
                    seq![EngineActionView::Join]
                } else if !now_joined && joined {
                    seq![EngineActionView::Left]
                } else {
                    Seq::empty()
                },
            }
        }
    }

    /// The commit of the map asked for: nothing where it is on display
    /// already; else it becomes the map on display, and the scene on
    /// display puts it in order.
    pub open spec fn map_committed(self) -> EngineView {
        let primitives = self.shared_state.primitives;
        if primitives.map_index == primitives.requested_map_index {
            self
        } else {
            let state = StateView {
                primitives: Primitives { map_index: primitives.requested_map_index, ..primitives },
                ..self.shared_state
            };
            self.with_scene(
                primitives.scene_index as int,
                self.active_scene().map_updated(state),
            )
        }
    }

    /// The commit of what was asked for, unless an animation holds
    /// transitions up: first the scene, then the map.
    pub open spec fn committed_if_free(self) -> Outcome {
        if self.shared_state.blocked() {
            Outcome { engine: self, actions: Seq::empty() }
        } else {
            Outcome {
                engine: self.scene_committed().engine.map_committed(),
                actions: self.scene_committed().actions,
            }
        }
    }

    /// The engine after a key press. `stored` is the snapshot that the
    /// store holds, `escaped` the outcome of an attempt to escape.
    ///
    /// While a message is on display, the key only releases the display,
    /// and hides the box unless more of the message follows. While an
    /// animation holds transitions up, the key is dropped. Else the scene
    /// on display takes the input, and what it asked for is committed
    /// unless an animation now holds transitions up.
    pub open spec fn key_pressed(
        self,
        key: Seq<char>,
        stored: Option<SaveDataView>,
        escaped: bool,
    ) -> Outcome {
        let state = self.shared_state;
        if state.references.has_message {
            Outcome {
                engine: EngineView {
                    shared_state: StateView {
                        references: References { has_message: false, ..state.references },
                        message_box: MessageBoxView {
                            visible: state.message_box.visible
                                && state.references.has_continuous_message,
                            ..state.message_box
                        },
                        ..state
                    },
                    ..self
                },
                actions: Seq::empty(),
            }
        } else if state.blocked() {
            Outcome { engine: self, actions: Seq::empty() }
        } else {
            let stepped = self.active_scene().consumed(
                state,
                input_of_key(key),
                stored,
                escaped,
            );
            let consumed = self.with_scene(state.primitives.scene_index as int, stepped);
            Outcome {
                engine: consumed.committed_if_free().engine,
                actions: (if stepped.store {
                    seq![EngineActionView::StoreSave]
                } else {
                    Seq::empty()
                }) + consumed.committed_if_free().actions,
            }
        }
    }

    /// The engine after the envelopes that arrived were handed to the
    /// field scene, in the order of their arrival.
    pub open spec fn drained(self) -> EngineView
        decreases self.web_socket_wrapper.messages.len(),
    {
        let messages = self.web_socket_wrapper.messages;
        if messages.len() == 0 {
            self
        } else {
            let before = EngineView {
                web_socket_wrapper: WebSocketWrapperView {
                    messages: messages.drop_last(),
                    ..self.web_socket_wrapper
                },
                ..self
            }.drained();
            EngineView {
                shared_state: before.scenes[FIELD_SCENE as int].channel_message_consumed(
                    before.shared_state,
                    messages.last().envelope,
                    messages.last().payload,
                ),
                ..before
            }
        }
    }

    /// The engine after a frame at `step`.
    ///
    /// A transport that is not ready while reports wait is asked to be
    /// opened again. The envelopes that arrived are merged. A ready
    /// transport takes every waiting report, in order. The animation queue
    /// runs its frame. Then what was asked for is committed, unless an
    /// animation holds transitions up.
    pub open spec fn animated(self, step: i64) -> Outcome {
        let ready = self.web_socket_wrapper.state.ready();
        let reconnect = if !ready && self.shared_state.to_send_channel_messages.len() > 0 {
            seq![EngineActionView::Reconnect]
        } else {
            Seq::<EngineActionView>::empty()
        };
        let merged = self.drained();
        let waiting = merged.shared_state.to_send_channel_messages;
        let sent = if ready {
            send_actions(waiting)
        } else {
            Seq::empty()
        };
        let frame = advanced(
            merged.shared_state.interrupt_animations,
            merged.shared_state.references,
            merged.shared_state.message_box,
            merged.shared_state.rpg.online_users,
            merged.shared_state.primitives.map_index,
            step,
        );
        let after = EngineView {
            shared_state: StateView {
                to_send_channel_messages: if ready {
                    Seq::empty()
                } else {
                    waiting
                },
                interrupt_animations: frame.queue,
                references: frame.references,
                message_box: frame.message_box,
                ..merged.shared_state
            },
            ..merged
        };
        Outcome {
            engine: after.committed_if_free().engine,
            actions: reconnect + sent + after.committed_if_free().actions,
        }
    }
}

/// A chain added to the queue leaves the heads of the other chains as
/// they are: a queue that holds transitions up still does, and a chain
/// whose head holds them up makes the queue do so.
pub proof fn lemma_chain_added(queue: Seq<Seq<AnimationView>>, chain: Seq<AnimationView>)
    requires
        chain.len() > 0,
    ensures
        any_blocking(queue) ==> any_blocking(queue.push(chain)),
        chain[0].block_scene_update ==> any_blocking(queue.push(chain)),
        !chain[0].block_scene_update && !any_blocking(queue) ==> !any_blocking(queue.push(chain)),
{
    let longer = queue.push(chain);
    if any_blocking(queue) {
        let i = choose|i: int| 0 <= i < queue.len() && (#[trigger] queue[i])[0].block_scene_update;
        assert(longer[i] == queue[i]);
    }
    if chain[0].block_scene_update {
        assert(longer[queue.len() as int] == chain);
    }
    if any_blocking(longer) {
        let i = choose|i: int| 0 <= i < longer.len() && (#[trigger] longer[i])[0].block_scene_update;
        if i < queue.len() {
            assert(longer[i] == queue[i]);
        }
    }
}

/// Entering a scene leaves the scene and the map on display and the map
/// asked for as they are; where it asks for another scene, it also queues
/// an animation that holds transitions up.
pub proof fn lemma_entered_links(scene: SceneView, state: StateView)
    requires
        scene.wf(),
        state.wf(),
    ensures
        ({
            let after = scene.entered(state).state.primitives;
            &&& after.scene_index == state.primitives.scene_index
            &&& after.map_index == state.primitives.map_index
            &&& after.requested_map_index == state.primitives.requested_map_index
            &&& after.requested_scene_index == state.primitives.requested_scene_index
                || scene.entered(state).state.blocked()
        }),
{
    match scene.scene_type {
        SceneTypeView::RPGEvent(_) => {
            let requested = state.requesting_scene(FIELD_SCENE);
            lemma_chain_added(
                requested.interrupt_animations,
                seq![
                    AnimationView::multi_line_messages(crate::event::opening_lines()),
                    crate::field::default_fade(),
                ],
            );
        },
        _ => {},
    }
}

/// An input leaves the scene on display as it is, and asks for another
/// map only from the field, which then stays the scene asked for.
pub proof fn lemma_consumed_links(
    scene: SceneView,
    state: StateView,
    input: Input,
    stored: Option<SaveDataView>,
    escaped: bool,
)
    requires
        scene.wf(),
        state.wf(),
        state.settled(),
        state.primitives.requested_scene_index == scene.home(),
    ensures
        ({
            let after = scene.consumed(state, input, stored, escaped).state.primitives;
            &&& after.scene_index == state.primitives.scene_index
            &&& after.requested_map_index != after.map_index ==> scene.home() == FIELD_SCENE
                && after.requested_scene_index == FIELD_SCENE
        }),
{
}

impl WebSocketWrapper {
    /// The channel of the player `user_name`, before the transport opened.
    pub fn new(user_name: String) -> (link: WebSocketWrapper)
        ensures
            link@ == (WebSocketWrapperView {
                state: WebSocketState { is_opened: false, is_closed: false, is_joined: false },
                messages: Seq::empty(),
                user_name: user_name@,
            }),
    {
        let link = WebSocketWrapper {
            state: WebSocketState { is_opened: false, is_closed: false, is_joined: false },
            messages: Vec::new(),
            user_name,
        };
        assert(link@.messages =~= Seq::empty());
        link
    }

    /// Whether the transport takes messages: it was opened, and not
    /// closed since.
    pub fn is_ready(&self) -> (ready: bool)
        ensures
            ready == self@.state.ready(),
    {
        self.state.is_opened && !self.state.is_closed
    }

    /// Notes that the transport opened: the player has yet to join.
    pub fn opened(&mut self)
        ensures
            final(self)@ == (WebSocketWrapperView {
                state: WebSocketState { is_opened: true, is_closed: false, is_joined: false },
                ..old(self)@
            }),
    {
        self.state.is_opened = true;
        self.state.is_closed = false;
        self.state.is_joined = false;
    }

    /// Notes that the transport closed.
    pub fn closed(&mut self)
        ensures
            final(self)@ == (WebSocketWrapperView {
                state: WebSocketState { is_closed: true, ..old(self)@.state },
                ..old(self)@
            }),
    {
        self.state.is_closed = true;
    }

    /// Keeps an envelope that arrived for the next frame, unless it is the
    /// player's own.
    pub fn accept(&mut self, envelope: ChannelMessage, payload: Payload)
        ensures
            final(self)@ == (if envelope@.user_name == old(self)@.user_name {
                old(self)@
            } else {
                WebSocketWrapperView {
                    messages: old(self)@.messages.push(
                        InboundMessageView { envelope: envelope@, payload: payload@ },
                    ),
                    ..old(self)@
                }
            }),
    {
        if envelope.user_name != self.user_name {
            self.messages.push(InboundMessage { envelope, payload });
            assert(final(self)@.messages =~= old(self)@.messages.push(
                InboundMessageView { envelope: envelope@, payload: payload@ },
            ));
        }
    }
}

impl Engine {
    /// An engine over the given parts.
    pub fn new(shared_state: State, scenes: Vec<Scene>, web_socket_wrapper: WebSocketWrapper) -> (engine:
        Engine)
        ensures
            engine@ == (EngineView {
                scenes: scenes_view(scenes@),
                web_socket_wrapper: web_socket_wrapper@,
                shared_state: shared_state@,
            }),
    {
        Engine { scenes, shared_state, web_socket_wrapper }
    }

    /// Whether an animation holds up scene and map transitions.
    pub fn has_animation_blocking_scene_update(&self) -> (blocking: bool)
        requires
            self@.shared_state.wf(),
        ensures
            blocking == self@.shared_state.blocked(),
    {
        has_animation_blocking_scene_update(&self.shared_state.interrupt_animations)
    }

    /// Whether the key press can be taken.
    pub fn is_within_limits(&self, key: &String) -> (within: bool)
        requires
            self@.shared_state.wf(),
        ensures
            within == self@.within_limits(key@),
    {
        if self.shared_state.primitives.scene_index != FIELD_SCENE {
            return true;
        }
        let input = Input::from(key.clone());
        match &self.shared_state.state_type {
            crate::state::StateType::RPGShared(rpg) => rpg.characters[0].position.can_step(input),
            crate::state::StateType::TBDStateType => true,
        }
    }

    /// Whether the key press reads the store. The caller reads the store
    /// for such a key press alone: every other key press is taken the same
    /// way whatever the store holds.
    pub fn reads_store(&self, key: &String) -> (reads: bool)
        requires
            self@.wf(),
        ensures
            reads == self@.reads_store(key@),
    {
        if self.shared_state.references.has_message
            || self.has_animation_blocking_scene_update() {
            return false;
        }
        let scene_index = self.shared_state.primitives.scene_index;
        assert(self@.scenes[scene_index as int] == self.scenes@[scene_index as int]@);
        match &self.scenes[scene_index].scene_type {
            SceneType::RPGTitle(title) => {
                match Input::from(key.clone()) {
                    Input::Enter => title.cursor.chose_index != crate::title::NO_ENTRY
                        && title.cursor.chose_index != crate::title::NEW_GAME,
                    _ => false,
                }
            },
            _ => false,
        }
    }

    /// Commits the scene asked for.
    fn on_scene_update(&mut self, actions: &mut Vec<EngineAction>)
        requires
            old(self)@.sound(),
        ensures
            final(self)@ == old(self)@.scene_committed().engine,
            actions_view(final(actions)@) == actions_view(old(actions)@) + old(
                self,
            )@.scene_committed().actions,
            final(self)@.sound(),
    {
        if self.shared_state.primitives.scene_index
            == self.shared_state.primitives.requested_scene_index {
            assert(actions_view(actions@) + Seq::<EngineActionView>::empty() =~= actions_view(
                actions@,
            ));
            return ;
        }
        self.shared_state.primitives.scene_index =
            self.shared_state.primitives.requested_scene_index;
        let scene_index = self.shared_state.primitives.scene_index;
        let ghost actions_before = actions_view(actions@);
        if scene_index != TITLE_SCENE && !self.web_socket_wrapper.state.is_joined {
            self.web_socket_wrapper.state.is_joined = true;
            actions.push(EngineAction::Join);
            assert(actions_view(actions@) =~= actions_before + seq![EngineActionView::Join]);
        } else if scene_index == TITLE_SCENE && self.web_socket_wrapper.state.is_joined {
            self.web_socket_wrapper.state.is_joined = false;
            actions.push(EngineAction::Left);
            assert(actions_view(actions@) =~= actions_before + seq![EngineActionView::Left]);
        } else {
            assert(actions_view(actions@) =~= actions_before + Seq::<EngineActionView>::empty());
        }
        let ghost scenes_before = self@.scenes;
        let ghost state_now = self@.shared_state;
        let ghost link_now = self@.web_socket_wrapper;
        if scene_index != MENU_SCENE {
            let mut i: usize = 0;
            while i < self.scenes.len()
                invariant
                    i <= self.scenes.len(),
                    self.scenes.len() == scenes_before.len(),
                    scene_index < self.scenes.len(),
                    forall|j: int|
                        0 <= j < i ==> self@.scenes[j] == others_concealed(
                            scenes_before,
                            scene_index as int,
                        )[j],
                    forall|j: int| i <= j < self.scenes.len() ==> self@.scenes[j] == scenes_before[j],
                    self@.shared_state == state_now,
                    self@.web_socket_wrapper == link_now,
                decreases self.scenes.len() - i,
            {
                if i != scene_index {
                    let ghost before = self@.scenes;
                    self.scenes[i].conceal();
                    proof {
                        assert forall|j: int| 0 <= j < self.scenes.len() implies #[trigger] self@.scenes[j]
                            == (if j == i {
                            before[j].concealed()
                        } else {
                            before[j]
                        }) by {
                            assert(self@.scenes[j] == self.scenes@[j]@);
                        }
                    }
                }
                i += 1;
            }
            assert(self@.scenes =~= others_concealed(scenes_before, scene_index as int));
        }
        let ghost scenes_now = self@.scenes;
        assert(scenes_now[scene_index as int].wf() && scenes_now[scene_index as int].home()
            == scene_index);
        self.scenes[scene_index].init(&mut self.shared_state);
        proof {
            assert(self@.scenes =~= scenes_now.update(
                scene_index as int,
                self@.scenes[scene_index as int],
            ));
        }
    }

    /// Commits the map asked for.
    fn on_map_update(&mut self)
        requires
            old(self)@.sound(),
        ensures
            final(self)@ == old(self)@.map_committed(),
            old(self)@.shared_state.primitives.map_index == old(
                self,
            )@.shared_state.primitives.requested_map_index || old(
                self,
            )@.shared_state.primitives.scene_index == FIELD_SCENE ==> final(self)@.sound(),
    {
        if self.shared_state.primitives.map_index
            == self.shared_state.primitives.requested_map_index {
            return ;
        }
        self.shared_state.primitives.map_index = self.shared_state.primitives.requested_map_index;
        let scene_index = self.shared_state.primitives.scene_index;
        let ghost scenes_now = self@.scenes;
        assert(scenes_now[scene_index as int].wf());
        self.scenes[scene_index].update_map(&mut self.shared_state);
        proof {
            assert(self@.scenes =~= scenes_now.update(
                scene_index as int,
                self@.scenes[scene_index as int],
            ));
        }
    }
}

impl Engine {
    /// Commits what was asked for, unless an animation holds transitions
    /// up.
    fn commit_if_free(&mut self, actions: &mut Vec<EngineAction>)
        requires
            old(self)@.sound(),
            old(self)@.shared_state.primitives.requested_map_index != old(
                self,
            )@.shared_state.primitives.map_index ==> old(self)@.shared_state.primitives.scene_index
                == FIELD_SCENE && old(self)@.shared_state.primitives.requested_scene_index
                == FIELD_SCENE,
        ensures
            final(self)@ == old(self)@.committed_if_free().engine,
            actions_view(final(actions)@) == actions_view(old(actions)@) + old(
                self,
            )@.committed_if_free().actions,
            final(self)@.wf(),
    {
        if self.has_animation_blocking_scene_update() {
            assert(actions_view(actions@) + Seq::<EngineActionView>::empty() =~= actions_view(
                actions@,
            ));
            return ;
        }
        proof {
            let requested = self@.shared_state.primitives.requested_scene_index;
            if requested != self@.shared_state.primitives.scene_index {
                let scenes = if requested != MENU_SCENE {
                    others_concealed(self@.scenes, requested as int)
                } else {
                    self@.scenes
                };
                let state = StateView {
                    primitives: Primitives {
                        scene_index: requested,
                        ..self@.shared_state.primitives
                    },
                    ..self@.shared_state
                };
                assert(scenes[requested as int].scene_type == self@.scenes[requested as int].scene_type);
                lemma_entered_links(scenes[requested as int], state);
            }
        }
        self.on_scene_update(actions);
        self.on_map_update();
    }

    /// Hands an envelope that arrived to the field scene.
    fn receive_channel_message(&mut self, inbound: InboundMessage)
        requires
            old(self)@.wf(),
        ensures
            final(self)@ == (EngineView {
                shared_state: old(self)@.scenes[FIELD_SCENE as int].channel_message_consumed(
                    old(self)@.shared_state,
                    inbound@.envelope,
                    inbound@.payload,
                ),
                ..old(self)@
            }),
            final(self)@.wf(),
    {
        let ghost scenes_now = self@.scenes;
        let ghost queue = self@.shared_state.interrupt_animations;
        proof {
            if inbound@.payload is Emote && self@.shared_state.primitives.map_index
                == inbound@.payload->Emote_0.map_index {
                let emote = inbound@.payload->Emote_0;
                lemma_chain_added(
                    queue,
                    seq![
                        AnimationView::emote(
                            emote.user_name,
                            emote.emote,
                            self@.shared_state.user_name == emote.user_name,
                        ),
                    ],
                );
            }
        }
        assert(scenes_now[FIELD_SCENE as int].home() == FIELD_SCENE);
        self.scenes[FIELD_SCENE].consume_channel_message(
            &mut self.shared_state,
            &inbound.envelope,
            inbound.payload,
        );
        proof {
            assert(self@.scenes =~= scenes_now);
        }
    }

    /// Takes a key press with `escaped` as the outcome of an attempt to
    /// escape from a battle. `stored` is the snapshot that the store holds
    /// at this moment, if it holds one. The result lists what the caller
    /// is to do, in order.
    pub fn keydown_rolled(&mut self, key: String, stored: Option<SaveData>, escaped: bool) -> (actions:
        Vec<EngineAction>)
        requires
            old(self)@.wf(),
            old(self)@.within_limits(key@),
            stored matches Some(found) ==> found@.playable(),
        ensures
            (Outcome { engine: final(self)@, actions: actions_view(actions@) })
                == old(self)@.key_pressed(key@, stored_view(stored), escaped),
            final(self)@.wf(),
    {
        let mut actions: Vec<EngineAction> = Vec::new();
        assert(actions_view(actions@) =~= Seq::empty());
        let input = Input::from(key);
        if self.shared_state.references.has_message {
            if !self.shared_state.references.has_continuous_message {
                self.shared_state.elements.message.visible = false;
            }
            self.shared_state.references.has_message = false;
            return actions;
        }
        if self.has_animation_blocking_scene_update() {
            return actions;
        }
        let scene_index = self.shared_state.primitives.scene_index;
        let ghost scenes_now = self@.scenes;
        proof {
            assert(scenes_now[scene_index as int].wf() && scenes_now[scene_index as int].home()
                == scene_index);
            lemma_consumed_links(
                scenes_now[scene_index as int],
                self@.shared_state,
                input,
                stored_view(stored),
                escaped,
            );
        }
        let store = self.scenes[scene_index].consume_rolled(
            &mut self.shared_state,
            input,
            stored,
            escaped,
        );
        proof {
            assert(self@.scenes =~= scenes_now.update(
                scene_index as int,
                self@.scenes[scene_index as int],
            ));
        }
        if store {
            actions.push(EngineAction::StoreSave);
            assert(actions_view(actions@) =~= seq![EngineActionView::StoreSave]);
        }
        self.commit_if_free(&mut actions);
        actions
    }

    /// Takes a key press. `stored` is the snapshot that the store holds at
    /// this moment, if it holds one. The result lists what the caller is to
    /// do, in order. An attempt to escape from a battle is drawn by chance:
    /// the engine is left as one of the two outcomes leaves it.
    pub fn keydown(&mut self, key: String, stored: Option<SaveData>) -> (actions: Vec<EngineAction>)
        requires
            old(self)@.wf(),
            old(self)@.within_limits(key@),
            stored matches Some(found) ==> found@.playable(),
        ensures
            (Outcome { engine: final(self)@, actions: actions_view(actions@) })
                == old(self)@.key_pressed(key@, stored_view(stored), true) || (Outcome {
                engine: final(self)@,
                actions: actions_view(actions@),
            }) == old(self)@.key_pressed(key@, stored_view(stored), false),
            final(self)@.wf(),
    {
        let mut actions: Vec<EngineAction> = Vec::new();
        assert(actions_view(actions@) =~= Seq::empty());
        let input = Input::from(key);
        if self.shared_state.references.has_message {
            if !self.shared_state.references.has_continuous_message {
                self.shared_state.elements.message.visible = false;
            }
            self.shared_state.references.has_message = false;
            return actions;
        }
        if self.has_animation_blocking_scene_update() {
            return actions;
        }
        let scene_index = self.shared_state.primitives.scene_index;
        let ghost scenes_now = self@.scenes;
        proof {
            assert(scenes_now[scene_index as int].wf() && scenes_now[scene_index as int].home()
                == scene_index);
            lemma_consumed_links(
                scenes_now[scene_index as int],
                self@.shared_state,
                input,
                stored_view(stored),
                true,
            );
            lemma_consumed_links(
                scenes_now[scene_index as int],
                self@.shared_state,
                input,
                stored_view(stored),
                false,
            );
        }
        let store = self.scenes[scene_index].consume(&mut self.shared_state, input, stored);
        proof {
            assert(self@.scenes =~= scenes_now.update(
                scene_index as int,
                self@.scenes[scene_index as int],
            ));
        }
        if store {
            actions.push(EngineAction::StoreSave);
            assert(actions_view(actions@) =~= seq![EngineActionView::StoreSave]);
        }
        self.commit_if_free(&mut actions);
        actions
    }
}

impl EngineView {
    /// The engine with other envelopes waiting.
    pub open spec fn with_messages(self, messages: Seq<InboundMessageView>) -> EngineView {
        EngineView {
            web_socket_wrapper: WebSocketWrapperView { messages, ..self.web_socket_wrapper },
            ..self
        }
    }
}

/// Merging the envelopes that arrived touches the shared state alone, and
/// leaves no envelope waiting.
pub proof fn lemma_drained_keeps(engine: EngineView)
    ensures
        engine.drained().scenes == engine.scenes,
        engine.drained().web_socket_wrapper == (WebSocketWrapperView {
            messages: Seq::empty(),
            ..engine.web_socket_wrapper
        }),
    decreases engine.web_socket_wrapper.messages.len(),
{
    let messages = engine.web_socket_wrapper.messages;
    if messages.len() > 0 {
        lemma_drained_keeps(engine.with_messages(messages.drop_last()));
    } else {
        assert(messages =~= Seq::empty());
    }
}

impl Engine {
    /// Merges the envelopes that arrived, in the order of their arrival.
    fn drain_messages(&mut self)
        requires
            old(self)@.wf(),
        ensures
            final(self)@ == old(self)@.drained(),
            final(self)@.wf(),
    {
        let ghost start = self@;
        let ghost all = start.web_socket_wrapper.messages;
        let ghost mut merged: int = 0;
        proof {
            assert(all.take(0) =~= Seq::empty());
            assert(all.skip(0) =~= all);
            assert(start.with_messages(all.take(0)).drained() == start.with_messages(
                Seq::empty(),
            ));
        }
        while self.web_socket_wrapper.messages.len() > 0
            invariant
                0 <= merged <= all.len(),
                all == start.web_socket_wrapper.messages,
                self@.wf(),
                self@ == start.with_messages(all.take(merged)).drained().with_messages(
                    all.skip(merged),
                ),
            decreases self.web_socket_wrapper.messages.len(),
        {
            let ghost before = self@;
            let ghost done = start.with_messages(all.take(merged)).drained();
            let ghost waiting = self.web_socket_wrapper.messages@;
            proof {
                assert(before.web_socket_wrapper.messages == all.skip(merged));
                assert(before.web_socket_wrapper.messages.len() == waiting.len());
                assert(all.skip(merged).len() == all.len() - merged);
                assert(merged < all.len());
            }
            let inbound = self.web_socket_wrapper.messages.remove(0);
            proof {
                lemma_drained_keeps(start.with_messages(all.take(merged)));
                assert(inbound@ == before.web_socket_wrapper.messages[0]);
                assert(inbound@ == all.skip(merged)[0]);
                assert(self.web_socket_wrapper.messages@ =~= waiting.skip(1));
                assert forall|j: int|
                    0 <= j < self@.web_socket_wrapper.messages.len() implies self@.web_socket_wrapper.messages[j]
                    == all.skip(merged + 1)[j] by {
                    assert(self@.web_socket_wrapper.messages[j] == waiting[j + 1]@);
                    assert(before.web_socket_wrapper.messages[j + 1] == all.skip(merged)[j + 1]);
                }
                assert(inbound@ == all[merged]);
                assert(self@.web_socket_wrapper.messages =~= all.skip(merged + 1));
                lemma_chain_free(before, self@);
                assert(all.take(merged + 1).drop_last() =~= all.take(merged));
                assert(all.take(merged + 1).last() == all[merged]);
                assert(start.with_messages(all.take(merged + 1)).with_messages(
                    all.take(merged + 1).drop_last(),
                ) == start.with_messages(all.take(merged)));
            }
            self.receive_channel_message(inbound);
            proof {
                lemma_drained_keeps(start.with_messages(all.take(merged + 1)));
                merged = merged + 1;
            }
        }
        proof {
            lemma_drained_keeps(start.with_messages(all.take(merged)));
            assert(self@.web_socket_wrapper.messages == all.skip(merged));
            assert(self@.web_socket_wrapper.messages.len() == 0);
            assert(all.skip(merged).len() == all.len() - merged);
            assert(all.take(merged) =~= all);
            assert(all.skip(merged) =~= Seq::empty());
            assert(start.with_messages(all) == start);
        }
    }
}

/// The invariant of the engine does not depend on the envelopes that
/// wait.
proof fn lemma_chain_free(before: EngineView, after: EngineView)
    requires
        before.wf(),
        after.scenes == before.scenes,
        after.shared_state == before.shared_state,
    ensures
        after.wf(),
{
}

impl Engine {
    /// Hands every waiting report to the caller for sending, in order.
    fn send_waiting(&mut self, actions: &mut Vec<EngineAction>)
        ensures
            final(self)@ == (EngineView {
                shared_state: StateView {
                    to_send_channel_messages: Seq::empty(),
                    ..old(self)@.shared_state
                },
                ..old(self)@
            }),
            actions_view(final(actions)@) == actions_view(old(actions)@) + send_actions(
                old(self)@.shared_state.to_send_channel_messages,
            ),
    {
        let ghost start = self@;
        let ghost waiting = start.shared_state.to_send_channel_messages;
        let ghost base = actions_view(actions@);
        let ghost mut handed: int = 0;
        proof {
            assert(waiting.skip(0) =~= waiting);
            assert(base + send_actions(waiting.take(0)) =~= base);
        }
        while self.shared_state.to_send_channel_messages.len() > 0
            invariant
                0 <= handed <= waiting.len(),
                self@.shared_state.to_send_channel_messages == waiting.skip(handed),
                self@ == (EngineView {
                    shared_state: StateView {
                        to_send_channel_messages: waiting.skip(handed),
                        ..start.shared_state
                    },
                    ..start
                }),
                actions_view(actions@) == base + send_actions(waiting.take(handed)),
            decreases self.shared_state.to_send_channel_messages.len(),
        {
            let ghost queue = self.shared_state.to_send_channel_messages@;
            let ghost queue_view_before = self@.shared_state.to_send_channel_messages;
            let ghost actions_before = actions_view(actions@);
            proof {
                assert(queue_view_before.len() == queue.len());
                assert(waiting.skip(handed).len() == waiting.len() - handed);
                assert(handed < waiting.len());
            }
            let message = self.shared_state.to_send_channel_messages.remove(0);
            proof {
                assert(message@ == queue_view_before[0]);
                assert(message@ == waiting.skip(handed)[0]);
                assert(self.shared_state.to_send_channel_messages@ =~= queue.skip(1));
                assert forall|j: int|
                    0 <= j < self@.shared_state.to_send_channel_messages.len() implies self@.shared_state.to_send_channel_messages[j]
                    == waiting.skip(handed + 1)[j] by {
                    assert(self@.shared_state.to_send_channel_messages[j] == queue[j + 1]@);
                    assert(queue_view_before[j + 1] == waiting.skip(handed)[j + 1]);
                }
                assert(self@.shared_state.to_send_channel_messages =~= waiting.skip(handed + 1));
            }
            actions.push(EngineAction::Send(message));
            proof {
                assert(actions_view(actions@) =~= actions_before.push(
                    EngineActionView::Send(message@),
                ));
                assert(send_actions(waiting.take(handed + 1)) =~= send_actions(
                    waiting.take(handed),
                ).push(EngineActionView::Send(waiting[handed])));
                assert(actions_view(actions@) =~= base + send_actions(waiting.take(handed + 1)));
                handed = handed + 1;
            }
        }
        proof {
            assert(self@.shared_state.to_send_channel_messages.len() == 0);
            assert(waiting.skip(handed).len() == waiting.len() - handed);
            assert(waiting.take(handed) =~= waiting);
            assert(waiting.skip(handed) =~= Seq::empty());
        }
    }

    /// Runs the frame of the animation queue.
    fn advance_queue(&mut self, step: i64)
        requires
            old(self)@.shared_state.wf(),
            0 <= step,
        ensures
            final(self)@ == ({
                let state = old(self)@.shared_state;
                let frame = advanced(
                    state.interrupt_animations,
                    state.references,
                    state.message_box,
                    state.rpg.online_users,
                    state.primitives.map_index,
                    step,
                );
                EngineView {
                    shared_state: StateView {
                        interrupt_animations: frame.queue,
                        references: frame.references,
                        message_box: frame.message_box,
                        ..state
                    },
                    ..old(self)@
                }
            }),
            final(self)@.shared_state.wf(),
    {
        let map_index = self.shared_state.primitives.map_index;
        match &self.shared_state.state_type {
            crate::state::StateType::RPGShared(rpg) => {
                advance_animations(
                    &mut self.shared_state.interrupt_animations,
                    &mut self.shared_state.references,
                    &mut self.shared_state.elements.message,
                    &rpg.online_users,
                    map_index,
                    step,
                );
            },
            crate::state::StateType::TBDStateType => {},
        }
    }

    /// Runs one frame at `step`. The result lists what the caller is to
    /// do, in order.
    pub fn animate(&mut self, step: i64) -> (actions: Vec<EngineAction>)
        requires
            old(self)@.wf(),
            0 <= step,
        ensures
            (Outcome { engine: final(self)@, actions: actions_view(actions@) })
                == old(self)@.animated(step),
            final(self)@.wf(),
    {
        let mut actions: Vec<EngineAction> = Vec::new();
        let ready = self.web_socket_wrapper.is_ready();
        assert(actions_view(actions@) =~= Seq::empty());
        if !ready && self.shared_state.to_send_channel_messages.len() > 0 {
            actions.push(EngineAction::Reconnect);
            assert(actions_view(actions@) =~= seq![EngineActionView::Reconnect]);
        }
        proof {
            lemma_drained_keeps(self@);
        }
        self.drain_messages();
        let ghost merged = self@;
        let ghost reconnect = actions_view(actions@);
        if ready {
            self.send_waiting(&mut actions);
        } else {
            assert(actions_view(actions@) =~= reconnect + Seq::<EngineActionView>::empty());
        }
        self.advance_queue(step);
        self.commit_if_free(&mut actions);
        proof {
            let outcome = old(self)@.animated(step);
            assert(actions_view(actions@) =~= outcome.actions);
        }
        actions
    }
}

/// A frame in which no animation holds transitions up any more commits
/// what was asked for: the scene and the map asked for before the frame
/// are on display after it.
pub proof fn lemma_free_frame_commits(engine: EngineView, step: i64)
    requires
        engine.wf(),
        !engine.frame_blocked(step),
    ensures
        engine.animated(step).engine.shared_state.primitives.scene_index
            == engine.shared_state.primitives.requested_scene_index,
        engine.animated(step).engine.shared_state.primitives.map_index
            == engine.shared_state.primitives.requested_map_index,
{
    lemma_drained_primitives(engine);
    lemma_drained_keeps(engine);
    let merged = engine.drained();
    let requested = merged.shared_state.primitives.requested_scene_index;
    if requested != merged.shared_state.primitives.scene_index {
        let scenes = if requested != MENU_SCENE {
            others_concealed(merged.scenes, requested as int)
        } else {
            merged.scenes
        };
        assert(scenes[requested as int].scene_type == merged.scenes[requested as int].scene_type);
    }
}

/// Merging the envelopes that arrived changes neither what is on display
/// nor what is asked for, and keeps the shared state well-formed.
pub proof fn lemma_drained_primitives(engine: EngineView)
    requires
        engine.wf(),
    ensures
        engine.drained().shared_state.primitives == engine.shared_state.primitives,
        engine.drained().shared_state.wf(),
        engine.drained().sound(),
    decreases engine.web_socket_wrapper.messages.len(),
{
    let messages = engine.web_socket_wrapper.messages;
    if messages.len() > 0 {
        let shorter = engine.with_messages(messages.drop_last());
        lemma_drained_primitives(shorter);
        lemma_drained_keeps(shorter);
        let before = shorter.drained();
        let last = messages.last();
        if last.payload is Emote {
            let emote = last.payload->Emote_0;
            lemma_chain_added(
                before.shared_state.interrupt_animations,
                seq![
                    AnimationView::emote(
                        emote.user_name,
                        emote.emote,
                        before.shared_state.user_name == emote.user_name,
                    ),
                ],
            );
        }
        assert(before.scenes[FIELD_SCENE as int].home() == FIELD_SCENE);
    }
}

impl EngineView {
    /// The engine as it is mounted for the player `user_name`: the title
    /// on display, a party that is not placed yet, the blinking of the
    /// marked elements as the only animation, and a transport that has yet
    /// to open.
    pub open spec fn mounted(user_name: Seq<char>) -> EngineView {
        EngineView {
            scenes: seq![
                SceneView {
                    visible: true,
                    scene_type: SceneTypeView::RPGTitle(
                        crate::title::TitleState { cursor: crate::cursor::Cursor::spec_new(2, 60) },
                    ),
                    is_partial_scene: false,
                },
                SceneView {
                    visible: false,
                    scene_type: SceneTypeView::RPGEvent(crate::event::EventState {  }),
                    is_partial_scene: false,
                },
                SceneView {
                    visible: false,
                    scene_type: SceneTypeView::RPGField(
                        crate::field::FieldStateView {
                            wrapper_translate_x: 0,
                            wrapper_translate_y: 0,
                            maps: crate::maps::shipped_maps(),
                            character_direction: Seq::empty(),
                        },
                    ),
                    is_partial_scene: false,
                },
                SceneView {
                    visible: false,
                    scene_type: SceneTypeView::RPGBattle(crate::battle::BattleStateView::fresh()),
                    is_partial_scene: false,
                },
                SceneView {
                    visible: false,
                    scene_type: SceneTypeView::RPGMenu(crate::menu::MenuStateView::fresh()),
                    is_partial_scene: true,
                },
            ],
            web_socket_wrapper: WebSocketWrapperView {
                state: WebSocketState { is_opened: false, is_closed: false, is_joined: false },
                messages: Seq::empty(),
                user_name,
            },
            shared_state: StateView {
                user_name,
                to_send_channel_messages: Seq::empty(),
                rpg: crate::state::RPGSharedStateView {
                    treasure_box_opened: seq![Seq::empty()],
                    save_data: SaveDataView::empty(),
                    online_users: Seq::empty(),
                    characters: crate::character::starting_party(),
                },
                is_rpg: true,
                message_box: MessageBoxView {
                    visible: false,
                    line_1: Seq::empty(),
                    line_2: Seq::empty(),
                    continuous_mark: false,
                },
                interrupt_animations: seq![seq![AnimationView::always_blink()]],
                primitives: Primitives {
                    scene_index: 0,
                    requested_scene_index: 0,
                    map_index: 0,
                    requested_map_index: 0,
                },
                references: References { has_message: false, has_continuous_message: false },
            },
        }
    }
}

/// Draws a number for the name of a player.
///
/// Calls `Rng::random::<u16>` of the `rand` crate on the generator of the
/// thread. Nothing is claimed of the number drawn: two calls may differ.
#[verifier::external_body]
fn random_number() -> u16 {
    rand::Rng::random::<u16>(&mut rand::rng())
}

/// Mounts the engine for the player `user_name`.
pub fn mount_as(user_name: String) -> (engine: Engine)
    ensures
        engine@ == EngineView::mounted(user_name@),
        engine@.wf(),
{
    let mut characters: Vec<crate::character::Character> = Vec::new();
    characters.push(crate::character::Character::starting());
    let mut treasure_box_opened: Vec<Vec<usize>> = Vec::new();
    treasure_box_opened.push(Vec::new());
    let rpg = crate::state::RPGSharedState {
        treasure_box_opened,
        save_data: SaveData::empty(),
        online_users: Vec::new(),
        characters,
    };
    let mut blink: Vec<crate::animation::Animation> = Vec::new();
    blink.push(crate::animation::Animation::always_blink());
    assert(crate::animation::chain_view(blink@) =~= seq![AnimationView::always_blink()]);
    let mut interrupt_animations: Vec<Vec<crate::animation::Animation>> = Vec::new();
    interrupt_animations.push(blink);
    assert(queue_view(interrupt_animations@) =~= seq![seq![AnimationView::always_blink()]]);
    let shared_state = State {
        user_name: user_name.clone(),
        to_send_channel_messages: Vec::new(),
        state_type: crate::state::StateType::RPGShared(rpg),
        elements: crate::state::SharedElements { message: crate::animation::MessageBox::new() },
        interrupt_animations,
        primitives: Primitives {
            scene_index: 0,
            requested_scene_index: 0,
            map_index: 0,
            requested_map_index: 0,
        },
        references: References { has_message: false, has_continuous_message: false },
    };
    let mut title = Scene::new(SceneType::RPGTitle(crate::title::TitleState::new()), false);
    title.show();
    let mut scenes: Vec<Scene> = Vec::new();
    scenes.push(title);
    scenes.push(Scene::new(SceneType::RPGEvent(crate::event::EventState::new()), false));
    scenes.push(Scene::new(SceneType::RPGField(crate::field::FieldState::new()), false));
    scenes.push(Scene::new(SceneType::RPGBattle(crate::battle::BattleState::new()), false));
    scenes.push(Scene::new(SceneType::RPGMenu(crate::menu::MenuState::new()), true));
    let engine = Engine::new(shared_state, scenes, WebSocketWrapper::new(user_name));
    proof {
        let goal = EngineView::mounted(user_name@);
        assert(engine@.scenes =~= goal.scenes);
        assert(engine@.shared_state.to_send_channel_messages =~= Seq::empty());
        assert(engine@.shared_state.rpg.treasure_box_opened =~= goal.shared_state.rpg.treasure_box_opened);
        assert(engine@.shared_state.rpg.online_users =~= Seq::empty());
        assert(engine@.shared_state.rpg.characters =~= crate::character::starting_party());
        assert(engine@.shared_state.interrupt_animations
            =~= goal.shared_state.interrupt_animations);
        assert(engine@.shared_state == goal.shared_state);
        assert(goal.shared_state.interrupt_animations[0][0] == AnimationView::always_blink());
        assert(!any_blocking(goal.shared_state.interrupt_animations)) by {
            assert forall|i: int| 0 <= i < goal.shared_state.interrupt_animations.len() implies !(
            #[trigger] goal.shared_state.interrupt_animations[i])[0].block_scene_update by {}
        }
        assert(goal.shared_state.rpg.save_data.playable());
    }
    engine
}

/// Mounts the engine for a player whose name is a number drawn by chance.
pub fn mount() -> (engine: Engine)
    ensures
        exists|number: u16| engine@ == EngineView::mounted(#[trigger] crate::text::decimal(number as nat)),
        engine@.wf(),
{
    let number = random_number();
    mount_as(crate::text::decimal_text(number))
}

impl EngineView {
    /// Whether an animation still holds transitions up once the frame at
    /// `step` has merged what arrived and polled the animations.
    pub open spec fn frame_blocked(self, step: i64) -> bool {
        let merged = self.drained().shared_state;
        any_blocking(
            advanced(
                merged.interrupt_animations,
                merged.references,
                merged.message_box,
                merged.rpg.online_users,
                merged.primitives.map_index,
                step,
            ).queue,
        )
    }

    /// The engine after the frames at `steps` ran one after the other.
    pub open spec fn frames(self, steps: Seq<i64>) -> EngineView
        decreases steps.len(),
    {
        if steps.len() == 0 {
            self
        } else {
            self.frames(steps.drop_last()).animated(steps.last()).engine
        }
    }

    /// Whether in each of the frames at `steps` an animation still holds
    /// transitions up.
    pub open spec fn frames_blocked(self, steps: Seq<i64>) -> bool
        decreases steps.len(),
    {
        steps.len() == 0 || (self.frames_blocked(steps.drop_last()) && self.frames(
            steps.drop_last(),
        ).frame_blocked(steps.last()))
    }
}

/// A frame in which an animation still holds transitions up commits
/// nothing: the scene and the map on display stay, whatever is asked for,
/// and the invariant of the engine is kept.
pub proof fn lemma_blocked_frame_keeps_wf(engine: EngineView, step: i64)
    requires
        engine.wf(),
        0 <= step,
        engine.frame_blocked(step),
    ensures
        engine.animated(step).engine.wf(),
        engine.animated(step).engine.shared_state.primitives == engine.shared_state.primitives,
{
    lemma_drained_primitives(engine);
    lemma_drained_keeps(engine);
    let merged = engine.drained().shared_state;
    crate::animation_queue::lemma_advanced_keeps_wf(
        merged.interrupt_animations,
        merged.references,
        merged.message_box,
        merged.rpg.online_users,
        merged.primitives.map_index,
        step,
    );
}

/// While animations hold transitions up, frames commit nothing: however
/// many frames run, and whatever is asked for, the scene and the map on
/// display stay as they are, as long as each frame ends with an animation
/// that still holds transitions up.
pub proof fn lemma_blocked_frames_commit_nothing(engine: EngineView, steps: Seq<i64>)
    requires
        engine.wf(),
        forall|k: int| 0 <= k < steps.len() ==> 0 <= #[trigger] steps[k],
        engine.frames_blocked(steps),
    ensures
        engine.frames(steps).shared_state.primitives == engine.shared_state.primitives,
        engine.frames(steps).wf(),
    decreases steps.len(),
{
    if steps.len() > 0 {
        let earlier = steps.drop_last();
        assert forall|k: int| 0 <= k < earlier.len() implies 0 <= #[trigger] earlier[k] by {
            assert(earlier[k] == steps[k]);
        }
        lemma_blocked_frames_commit_nothing(engine, earlier);
        assert(0 <= steps[steps.len() - 1]);
        lemma_blocked_frame_keeps_wf(engine.frames(earlier), steps.last());
    }
}

/// What the store holds matters to a key press only where the key press
/// reads the store: every other key press leaves the engine and asks of the
/// caller the same, whatever snapshot is handed in with it.
pub proof fn lemma_store_matters_only_on_load(
    engine: EngineView,
    key: Seq<char>,
    stored: Option<SaveDataView>,
    escaped: bool,
)
    requires
        !engine.reads_store(key),
    ensures
        engine.key_pressed(key, stored, escaped) == engine.key_pressed(key, None, escaped),
{
}

} // verus!
