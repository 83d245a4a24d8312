//! The menu scene: items, emotes, saving and the way back to the title,
//! each a path through the menu's choice tree.

use crate::animation::{Animation, AnimationSpan, AnimationView};
use crate::character::{characters_view, CharacterView};
use crate::choice_kind::{ChoiceKind, ChoiceKindView};
use crate::choice_setting::{menu_choices, root_over, ChoiceSetting};
use crate::choice_tree::ChoiceTreeView;
use crate::cursor::Cursor;
use crate::input::Input;
use crate::item::{hp_after_use, is_item_name, item_of_name, ItemType};
use crate::message::{EmoteMessage, EmoteMessageView, OutboundMessage, OutboundMessageView};
use crate::renderer::{RendererController, RendererControllerView, SvgRenderer, SvgRendererView};
use crate::state::{RPGSharedState, State, StateType, StateView, MENU_SCENE, TITLE_SCENE};
use crate::text::{clone_texts, join_texts, texts_view};
use vstd::prelude::*;

verus! {

/// The state of the menu scene: the lists of the menu with their tree,
/// and the emotes that can be sent.
#[derive(Debug)]
pub struct MenuState {
    pub renderer_controller: RendererController,
    pub emotes: Vec<String>,
}

/// Mathematical value of a `MenuState`.
pub struct MenuStateView {
    pub renderer_controller: RendererControllerView,
    pub emotes: Seq<Seq<char>>,
}

impl View for MenuState {
    type V = MenuStateView;

    open spec fn view(&self) -> MenuStateView {
        MenuStateView {
            renderer_controller: self.renderer_controller@,
            emotes: texts_view(self.emotes@),
        }
    }
}

/// What an input leaves of the menu scene and the shared state, and
/// whether the snapshot kept is to be written to the store.
pub struct MenuStepped {
    pub menu: MenuStateView,
    pub state: StateView,
    pub store: bool,
}

/// The emotes that can be sent, in the order of the grid.
pub open spec fn emote_list() -> Seq<Seq<char>> {
    seq!["👉"@, "👆"@, "👈"@, "👇"@, "👍"@, "🤨"@, "😆"@, "🤩"@, "🥺"@, "☺️"@]
}

/// The renderers of the menu as they are created.
pub open spec fn menu_renderers() -> Seq<SvgRendererView> {
    seq![
        SvgRendererView::fresh(ChoiceKindView::Menu, "menu"@, 45),
        SvgRendererView::fresh(ChoiceKindView::ItemInventory, "menu-inventory"@, 45),
        SvgRendererView::fresh(ChoiceKindView::ItemOperation, "menu-item-operation"@, 50),
        SvgRendererView::fresh(ChoiceKindView::Confirm, "menu-common-confirm"@, 50),
        SvgRendererView {
            cursor: Cursor::spec_new(0, 45).with_box(5, 2),
            ..SvgRendererView::fresh(ChoiceKindView::Emote, "menu-emote"@, 45)
        },
    ]
}

impl CharacterView {
    /// The character without the item in slot `index`.
    pub open spec fn without_item(self, index: int) -> CharacterView {
        CharacterView { inventory: self.inventory.remove(index), ..self }
    }

    /// The character after the item in slot `index` was used up.
    pub open spec fn after_use(self, index: int) -> CharacterView {
        CharacterView {
            current_hp: hp_after_use(self.inventory[index], self.current_hp, self.max_hp),
            ..self.without_item(index)
        }
    }
}

impl StateView {
    /// The state with a message queued.
    pub open spec fn with_message(self, text: Seq<char>) -> StateView {
        self.with_chain(seq![AnimationView::message(text)])
    }

    /// The state with another first party member.
    pub open spec fn with_hero(self, hero: CharacterView) -> StateView {
        self.with_rpg(self.rpg.with_character(hero))
    }

    /// The emote that the player sends from where the character stands.
    pub open spec fn own_emote(self, emote: Seq<char>) -> EmoteMessageView {
        EmoteMessageView {
            user_name: self.user_name,
            position_x: self.rpg.hero().position.x,
            position_y: self.rpg.hero().position.y,
            map_index: self.primitives.map_index,
            emote,
        }
    }
}

impl RendererControllerView {
    /// The inventory list after an item left the inventory: closed where
    /// nothing is carried any more, showing what is carried otherwise.
    pub open spec fn inventory_shown(self, hero: CharacterView) -> RendererControllerView {
        if hero.inventory.len() == 0 {
            self.close_delegated()
        } else {
            self.rendered_with(hero.inventory_names(), Seq::empty())
        }
    }

    /// The controller after an item left the inventory: back from the
    /// operation on the item to the inventory list.
    pub open spec fn after_item_left(self, hero: CharacterView) -> RendererControllerView {
        self.undone().close_delegated().undone().inventory_shown(hero)
    }
}

impl MenuStateView {
    /// The invariant of the menu scene: that of its controller.
    pub open spec fn wf(self) -> bool {
        self.renderer_controller.wf()
    }

    /// The menu scene as it is created.
    pub open spec fn fresh() -> MenuStateView {
        MenuStateView {
            renderer_controller: RendererControllerView {
                renderers: menu_renderers(),
                choice_tree: ChoiceTreeView::fresh(root_over(ChoiceKindView::Menu, menu_choices())),
                confirm_index: Some(3usize),
            },
            emotes: emote_list(),
        }
    }

    /// The scene with another controller.
    pub open spec fn with_controller(self, renderer_controller: RendererControllerView) -> MenuStateView {
        MenuStateView { renderer_controller, ..self }
    }

    /// The scene once the menu is entered: its entries are shown.
    pub open spec fn entered(self) -> MenuStateView {
        self.with_controller(self.renderer_controller.initially_rendered())
    }

    /// Cancel: at the top of the menu the scene two before the menu is
    /// asked for; elsewhere the list on display is closed, and the tree
    /// steps back once more where the list is an item operation or a
    /// confirmation.
    pub open spec fn cancelled(self, state: StateView) -> MenuStepped {
        let controller = self.renderer_controller;
        match controller.now_kind() {
            ChoiceKindView::Menu => MenuStepped {
                menu: self,
                state: state.requesting_scene(
                    (state.primitives.requested_scene_index - 2) as usize,
                ),
                store: false,
            },
            ChoiceKindView::ItemOperation | ChoiceKindView::Confirm => MenuStepped {
                menu: self.with_controller(controller.close_delegated().undone()),
                state,
                store: false,
            },
            _ => MenuStepped {
                menu: self.with_controller(controller.close_delegated()),
                state,
                store: false,
            },
        }
    }

    /// The item picked is used. Nothing happens where no slot was picked
    /// or the slot is empty. A weapon and a key cannot be used. Anything
    /// else is used up: it takes effect, leaves the inventory, and the
    /// menu returns to the inventory list.
    pub open spec fn item_used(self, state: StateView) -> MenuStepped {
        let controller = self.renderer_controller;
        let hero = state.rpg.hero();
        match controller.choice_tree.chose_nth() {
            Some(index) => if index >= hero.inventory.len() {
                MenuStepped { menu: self, state, store: false }
            } else {
                match hero.inventory[index as int].item_type {
                    ItemType::Weapon => MenuStepped {
                        menu: self.with_controller(controller.undone()),
                        state: state.with_message("武器は使用できません"@),
                        store: false,
                    },
                    ItemType::Key => MenuStepped {
                        menu: self.with_controller(controller.undone()),
                        state: state.with_message("ここでは使用できません"@),
                        store: false,
                    },
                    ItemType::Consumable => MenuStepped {
                        menu: self.with_controller(
                            controller.after_item_left(hero.after_use(index as int)),
                        ),
                        state: state.with_message("薬草を使用しました。HPが30回復"@).with_hero(
                            hero.after_use(index as int),
                        ),
                        store: false,
                    },
                }
            },
            None => MenuStepped { menu: self, state, store: false },
        }
    }

    /// The emote picked is queued for sending, and the menu returns to the
    /// emote list. Nothing happens where no emote was picked or there is no
    /// such emote.
    pub open spec fn emote_sent(self, state: StateView) -> MenuStepped {
        let controller = self.renderer_controller;
        match controller.choice_tree.chose_nth() {
            Some(index) => if index >= self.emotes.len() {
                MenuStepped { menu: self, state, store: false }
            } else {
                MenuStepped {
                    menu: self.with_controller(controller.undone().undone()),
                    state: StateView {
                        to_send_channel_messages: state.to_send_channel_messages.push(
                            OutboundMessageView::Emote(state.own_emote(self.emotes[index as int])),
                        ),
                        ..state
                    },
                    store: false,
                }
            },
            None => MenuStepped { menu: self, state, store: false },
        }
    }

    /// The item picked is dropped. Nothing happens where no slot was
    /// picked or the slot is empty. A key cannot be dropped. Anything else
    /// leaves the inventory, and the menu returns to the inventory list.
    pub open spec fn item_dropped(self, state: StateView) -> MenuStepped {
        let controller = self.renderer_controller;
        let hero = state.rpg.hero();
        match controller.choice_tree.chose_nth() {
            Some(index) => if index >= hero.inventory.len() {
                MenuStepped { menu: self, state, store: false }
            } else if hero.inventory[index as int].item_type == ItemType::Key {
                MenuStepped {
                    menu: self.with_controller(controller.undone()),
                    state: state.with_message("鍵は捨てられません"@),
                    store: false,
                }
            } else {
                MenuStepped {
                    menu: self.with_controller(
                        controller.after_item_left(hero.without_item(index as int)),
                    ),
                    state: state.with_hero(hero.without_item(index as int)).with_message(
                        hero.inventory[index as int].name + "を捨てた"@,
                    ),
                    store: false,
                }
            },
            None => MenuStepped { menu: self, state, store: false },
        }
    }

    /// What was confirmed is carried out: the game is saved, the title is
    /// asked for, or the item picked is dropped.
    pub open spec fn confirmed(self, state: StateView) -> MenuStepped {
        let controller = self.renderer_controller;
        match controller.now_kind() {
            ChoiceKindView::Save => MenuStepped {
                menu: self.with_controller(controller.undone()),
                state: state.saved().with_message("セーブしました"@),
                store: true,
            },
            ChoiceKindView::Title => MenuStepped {
                menu: self.with_controller(controller.all_closed()),
                state: state.requesting_scene(TITLE_SCENE).with_chain(
                    seq![AnimationView::fade_out_in(AnimationSpan::FadeOutInMedium)],
                ),
                store: false,
            },
            ChoiceKindView::DropItem => self.item_dropped(state),
            _ => MenuStepped { menu: self, state, store: false },
        }
    }

    /// The node that the tree stands at after enter is acted on.
    pub open spec fn acted(self, state: StateView) -> MenuStepped {
        let controller = self.renderer_controller;
        match controller.now_kind() {
            ChoiceKindView::CloseMenu => MenuStepped {
                menu: self.with_controller(controller.undone().close_delegated()),
                state: state.requesting_scene(
                    (state.primitives.requested_scene_index - 2) as usize,
                ),
                store: false,
            },
            ChoiceKindView::Emote => MenuStepped {
                menu: self.with_controller(controller.rendered_with(self.emotes, Seq::empty())),
                state,
                store: false,
            },
            ChoiceKindView::ItemInventory => if state.rpg.hero().inventory.len() == 0 {
                MenuStepped {
                    menu: self.with_controller(controller.undone()),
                    state: state.with_message("何も持っていない！"@),
                    store: false,
                }
            } else {
                MenuStepped {
                    menu: self.with_controller(
                        controller.rendered_with(state.rpg.hero().inventory_names(), Seq::empty()),
                    ),
                    state,
                    store: false,
                }
            },
            ChoiceKindView::ItemOperation => MenuStepped {
                menu: self.with_controller(controller.initially_rendered()),
                state,
                store: false,
            },
            ChoiceKindView::Equip | ChoiceKindView::Chat => MenuStepped {
                menu: self.with_controller(controller.undone()),
                state: state.with_message("Coming soon..."@),
                store: false,
            },
            ChoiceKindView::UseItem => self.item_used(state),
            ChoiceKindView::SendEmote => self.emote_sent(state),
            ChoiceKindView::Save | ChoiceKindView::Title | ChoiceKindView::DropItem => MenuStepped {
                menu: self.with_controller(controller.confirm_delegated()),
                state,
                store: false,
            },
            ChoiceKindView::Undo => MenuStepped {
                menu: self.with_controller(controller.undone().close_delegated().undone()),
                state,
                store: false,
            },
            ChoiceKindView::Decide => self.with_controller(
                controller.undone().close_delegated(),
            ).confirmed(state),
            _ => MenuStepped { menu: self, state, store: false },
        }
    }

    /// The scene and the state after an input: an arrow moves the cursor
    /// of the list on display, cancel steps back, enter enters the entry
    /// under the cursor and acts on the node reached; every other input
    /// does nothing.
    pub open spec fn consumed(self, state: StateView, input: Input) -> MenuStepped {
        if input.spec_is_arrow() {
            MenuStepped {
                menu: self.with_controller(self.renderer_controller.input_delegated(input)),
                state,
                store: false,
            }
        } else if input == Input::Cancel {
            self.cancelled(state)
        } else if input == Input::Enter {
            self.with_controller(self.renderer_controller.enter_delegated()).acted(state)
        } else {
            MenuStepped { menu: self, state, store: false }
        }
    }
}

/// A character stays well-formed when an item leaves the inventory, be it
/// used or dropped.
pub proof fn lemma_item_leaves(hero: CharacterView, index: int)
    requires
        hero.wf(),
        0 <= index < hero.inventory.len(),
    ensures
        hero.without_item(index).wf(),
        hero.after_use(index).wf(),
        hero.after_use(index).position == hero.position,
        hero.without_item(index).position == hero.position,
{
    let rest = hero.inventory.remove(index);
    assert forall|i: int| 0 <= i < rest.len() implies is_item_name(#[trigger] rest[i].name)
        && rest[i] == item_of_name(rest[i].name) by {
        if i < index {
            assert(rest[i] == hero.inventory[i]);
        } else {
            assert(rest[i] == hero.inventory[i + 1]);
        }
    }
}

/// Takes the item in slot `index` out of the inventory of the first party
/// member; where `used` holds, the item takes effect first.
fn take_item(rpg: &mut RPGSharedState, index: usize, used: bool)
    requires
        old(rpg)@.wf(),
        index < old(rpg)@.hero().inventory.len(),
    ensures
        final(rpg)@ == old(rpg)@.with_character(
            if used {
                old(rpg)@.hero().after_use(index as int)
            } else {
                old(rpg)@.hero().without_item(index as int)
            },
        ),
        final(rpg)@.wf(),
{
    let ghost party_before = characters_view(rpg.characters@);
    let ghost hero_before = rpg.characters@[0]@;
    proof {
        lemma_item_leaves(hero_before, index as int);
    }
    if used {
        assert(hero_before.inventory[index as int] == rpg.characters@[0].inventory@[index as int]@);
        let hp = rpg.characters[0].inventory[index].consume(
            rpg.characters[0].current_hp,
            rpg.characters[0].max_hp,
        );
        rpg.characters[0].current_hp = hp;
    }
    rpg.characters[0].inventory.remove(index);
    proof {
        let hero_after = if used {
            hero_before.after_use(index as int)
        } else {
            hero_before.without_item(index as int)
        };
        assert(rpg.characters@[0]@.inventory =~= hero_after.inventory);
        assert(characters_view(rpg.characters@) =~= party_before.update(0, hero_after));
    }
}

/// The emotes that can be sent, in the order of the grid.
fn emotes() -> (list: Vec<String>)
    ensures
        texts_view(list@) == emote_list(),
{
    let mut list: Vec<String> = Vec::new();
    list.push("👉".to_owned());
    list.push("👆".to_owned());
    list.push("👈".to_owned());
    list.push("👇".to_owned());
    list.push("👍".to_owned());
    list.push("🤨".to_owned());
    list.push("😆".to_owned());
    list.push("🤩".to_owned());
    list.push("🥺".to_owned());
    list.push("☺️".to_owned());
    assert(texts_view(list@) =~= emote_list());
    list
}

impl MenuState {
    /// The menu scene with its lists and its tree.
    pub fn new() -> (menu: MenuState)
        ensures
            menu@ == MenuStateView::fresh(),
            menu@.wf(),
    {
        let mut emote_renderer = SvgRenderer::new(ChoiceKind::Emote, "menu-emote".to_owned(), 45);
        emote_renderer.cursor.set_box_length(5, 2);
        let mut renderers: Vec<SvgRenderer> = Vec::new();
        renderers.push(SvgRenderer::new(ChoiceKind::Menu, "menu".to_owned(), 45));
        renderers.push(SvgRenderer::new(ChoiceKind::ItemInventory, "menu-inventory".to_owned(), 45));
        renderers.push(
            SvgRenderer::new(ChoiceKind::ItemOperation, "menu-item-operation".to_owned(), 50),
        );
        renderers.push(SvgRenderer::new(ChoiceKind::Confirm, "menu-common-confirm".to_owned(), 50));
        renderers.push(emote_renderer);
        let menu = MenuState {
            renderer_controller: RendererController {
                choice_tree: ChoiceSetting::get_menu_setting().get_menu_choice_tree(),
                confirm_index: Some(3),
                renderers,
            },
            emotes: emotes(),
        };
        proof {
            assert(menu@.renderer_controller.renderers =~= menu_renderers());
        }
        menu
    }

    /// Enters the menu.
    pub fn init(&mut self, shared_state: &mut State)
        requires
            old(self)@.wf(),
        ensures
            final(self)@ == old(self)@.entered(),
            final(self)@.wf(),
            final(shared_state)@ == old(shared_state)@,
    {
        self.renderer_controller.initial_render();
    }

    /// Shows what is carried in the inventory list, or closes the list
    /// where nothing is carried.
    fn show_inventory(&mut self, shared_state: &State)
        requires
            old(self)@.wf(),
            shared_state@.wf(),
        ensures
            final(self)@ == old(self)@.with_controller(
                old(self)@.renderer_controller.inventory_shown(shared_state@.rpg.hero()),
            ),
            final(self)@.wf(),
    {
        match &shared_state.state_type {
            StateType::RPGShared(rpg) => {
                if rpg.characters[0].inventory.len() == 0 {
                    self.renderer_controller.delegate_close();
                } else {
                    let names = rpg.characters[0].inventory_names();
                    self.renderer_controller.render_with(names, String::new());
                }
            },
            StateType::TBDStateType => {},
        }
    }

    /// Returns from the operation on an item to the inventory list.
    fn back_to_inventory(&mut self, shared_state: &State)
        requires
            old(self)@.wf(),
            shared_state@.wf(),
        ensures
            final(self)@ == old(self)@.with_controller(
                old(self)@.renderer_controller.after_item_left(shared_state@.rpg.hero()),
            ),
            final(self)@.wf(),
    {
        self.renderer_controller.undo_choice_tree();
        self.renderer_controller.delegate_close();
        self.renderer_controller.undo_choice_tree();
        self.show_inventory(shared_state);
    }

    /// What kind of item the slot `index` holds, if it holds one.
    fn item_type_at(shared_state: &State, index: usize) -> (found: Option<ItemType>)
        requires
            shared_state@.wf(),
        ensures
            match found {
                Some(item_type) => index < shared_state@.rpg.hero().inventory.len()
                    && item_type == shared_state@.rpg.hero().inventory[index as int].item_type,
                None => index >= shared_state@.rpg.hero().inventory.len(),
            },
    {
        match &shared_state.state_type {
            StateType::RPGShared(rpg) => {
                if index < rpg.characters[0].inventory.len() {
                    assert(shared_state@.rpg.hero().inventory[index as int]
                        == rpg.characters@[0].inventory@[index as int]@);
                    Some(rpg.characters[0].inventory[index].item_type)
                } else {
                    None
                }
            },
            StateType::TBDStateType => None,
        }
    }

    /// Uses the item picked.
    fn use_item(&mut self, shared_state: &mut State)
        requires
            old(self)@.wf(),
            old(shared_state)@.wf(),
        ensures
            (MenuStepped { menu: final(self)@, state: final(shared_state)@, store: false })
                == old(self)@.item_used(old(shared_state)@),
            final(self)@.wf(),
            final(shared_state)@.wf(),
    {
        let index = match self.renderer_controller.get_chose_nth() {
            Some(index) => index,
            None => {
                return ;
            },
        };
        let item_type = match MenuState::item_type_at(shared_state, index) {
            Some(item_type) => item_type,
            None => {
                return ;
            },
        };
        match item_type {
            ItemType::Weapon => {
                shared_state.push_animation(
                    Animation::create_message("武器は使用できません".to_owned()),
                );
                self.renderer_controller.undo_choice_tree();
            },
            ItemType::Key => {
                shared_state.push_animation(
                    Animation::create_message("ここでは使用できません".to_owned()),
                );
                self.renderer_controller.undo_choice_tree();
            },
            ItemType::Consumable => {
                shared_state.push_animation(
                    Animation::create_message("薬草を使用しました。HPが30回復".to_owned()),
                );
                match &mut shared_state.state_type {
                    StateType::RPGShared(rpg) => {
                        take_item(rpg, index, true);
                    },
                    StateType::TBDStateType => {},
                }
                self.back_to_inventory(shared_state);
            },
        }
    }

    /// Queues the emote picked for sending.
    fn send_emote(&mut self, shared_state: &mut State)
        requires
            old(self)@.wf(),
            old(shared_state)@.wf(),
        ensures
            (MenuStepped { menu: final(self)@, state: final(shared_state)@, store: false })
                == old(self)@.emote_sent(old(shared_state)@),
            final(self)@.wf(),
            final(shared_state)@.wf(),
    {
        let index = match self.renderer_controller.get_chose_nth() {
            Some(index) => index,
            None => {
                return ;
            },
        };
        if index >= self.emotes.len() {
            return ;
        }
        let position = match &shared_state.state_type {
            StateType::RPGShared(rpg) => rpg.characters[0].position,
            StateType::TBDStateType => {
                return ;
            },
        };
        let message = EmoteMessage {
            user_name: shared_state.user_name.clone(),
            position_x: position.x,
            position_y: position.y,
            map_index: shared_state.primitives.map_index,
            emote: self.emotes[index].clone(),
        };
        let ghost queue_before = shared_state@.to_send_channel_messages;
        shared_state.to_send_channel_messages.push(OutboundMessage::Emote(message));
        proof {
            assert(shared_state@.to_send_channel_messages =~= queue_before.push(
                OutboundMessageView::Emote(old(shared_state)@.own_emote(old(self)@.emotes[index as int])),
            ));
        }
        self.renderer_controller.undo_choice_tree();
        self.renderer_controller.undo_choice_tree();
    }

    /// Drops the item picked.
    fn drop_item(&mut self, shared_state: &mut State)
        requires
            old(self)@.wf(),
            old(shared_state)@.wf(),
        ensures
            (MenuStepped { menu: final(self)@, state: final(shared_state)@, store: false })
                == old(self)@.item_dropped(old(shared_state)@),
            final(self)@.wf(),
            final(shared_state)@.wf(),
    {
        let index = match self.renderer_controller.get_chose_nth() {
            Some(index) => index,
            None => {
                return ;
            },
        };
        let item_type = match MenuState::item_type_at(shared_state, index) {
            Some(item_type) => item_type,
            None => {
                return ;
            },
        };
        if item_type == ItemType::Key {
            shared_state.push_animation(Animation::create_message("鍵は捨てられません".to_owned()));
            self.renderer_controller.undo_choice_tree();
            return ;
        }
        let mut text = String::new();
        match &mut shared_state.state_type {
            StateType::RPGShared(rpg) => {
                assert(old(shared_state)@.rpg.hero().inventory[index as int]
                    == rpg.characters@[0].inventory@[index as int]@);
                text = join_texts(rpg.characters[0].inventory[index].name.as_str(), "を捨てた");
                take_item(rpg, index, false);
            },
            StateType::TBDStateType => {},
        }
        shared_state.push_animation(Animation::create_message(text));
        self.back_to_inventory(shared_state);
    }

    /// Carries out what was confirmed.
    fn confirm(&mut self, shared_state: &mut State) -> (store: bool)
        requires
            old(self)@.wf(),
            old(shared_state)@.wf(),
        ensures
            (MenuStepped { menu: final(self)@, state: final(shared_state)@, store })
                == old(self)@.confirmed(old(shared_state)@),
            final(self)@.wf(),
            final(shared_state)@.wf(),
    {
        match self.renderer_controller.now_choice_kind() {
            ChoiceKind::Save => {
                RPGSharedState::update_save_data(shared_state);
                shared_state.push_animation(Animation::create_message("セーブしました".to_owned()));
                self.renderer_controller.undo_choice_tree();
                true
            },
            ChoiceKind::Title => {
                self.renderer_controller.close_all();
                shared_state.primitives.requested_scene_index = TITLE_SCENE;
                shared_state.push_animation(
                    Animation::create_fade_out_in_with_span(AnimationSpan::FadeOutInMedium),
                );
                false
            },
            ChoiceKind::DropItem => {
                self.drop_item(shared_state);
                false
            },
            _ => false,
        }
    }

    /// Acts on the node that the tree stands at after enter.
    fn act(&mut self, shared_state: &mut State) -> (store: bool)
        requires
            old(self)@.wf(),
            old(shared_state)@.wf(),
            old(shared_state)@.primitives.requested_scene_index == MENU_SCENE,
        ensures
            (MenuStepped { menu: final(self)@, state: final(shared_state)@, store })
                == old(self)@.acted(old(shared_state)@),
            final(self)@.wf(),
            final(shared_state)@.wf(),
    {
        match self.renderer_controller.now_choice_kind() {
            ChoiceKind::CloseMenu => {
                self.renderer_controller.undo_choice_tree();
                self.renderer_controller.delegate_close();
                shared_state.primitives.requested_scene_index -= 2;
                false
            },
            ChoiceKind::Emote => {
                let list = clone_texts(&self.emotes);
                self.renderer_controller.render_with(list, String::new());
                false
            },
            ChoiceKind::ItemInventory => {
                let empty = match &shared_state.state_type {
                    StateType::RPGShared(rpg) => rpg.characters[0].inventory.len() == 0,
                    StateType::TBDStateType => true,
                };
                if empty {
                    self.renderer_controller.undo_choice_tree();
                    shared_state.push_animation(
                        Animation::create_message("何も持っていない！".to_owned()),
                    );
                } else {
                    self.show_inventory(shared_state);
                }
                false
            },
            ChoiceKind::ItemOperation => {
                self.renderer_controller.initial_render();
                false
            },
            ChoiceKind::Equip | ChoiceKind::Chat => {
                shared_state.push_animation(Animation::create_message("Coming soon...".to_owned()));
                self.renderer_controller.undo_choice_tree();
                false
            },
            ChoiceKind::UseItem => {
                self.use_item(shared_state);
                false
            },
            ChoiceKind::SendEmote => {
                self.send_emote(shared_state);
                false
            },
            ChoiceKind::Save | ChoiceKind::Title | ChoiceKind::DropItem => {
                self.renderer_controller.delegate_confirm();
                false
            },
            ChoiceKind::Undo => {
                self.renderer_controller.undo_choice_tree();
                self.renderer_controller.delegate_close();
                self.renderer_controller.undo_choice_tree();
                false
            },
            ChoiceKind::Decide => {
                self.renderer_controller.undo_choice_tree();
                self.renderer_controller.delegate_close();
                self.confirm(shared_state)
            },
            _ => false,
        }
    }

    /// Takes an input while the menu is on display. The result says
    /// whether the snapshot kept is to be written to the store.
    pub fn consume(&mut self, shared_state: &mut State, input: Input) -> (store: bool)
        requires
            old(self)@.wf(),
            old(shared_state)@.wf(),
            old(shared_state)@.primitives.requested_scene_index == MENU_SCENE,
        ensures
            (MenuStepped { menu: final(self)@, state: final(shared_state)@, store })
                == old(self)@.consumed(old(shared_state)@, input),
            final(self)@.wf(),
            final(shared_state)@.wf(),
    {
        if input.is_arrow() {
            self.renderer_controller.delegate_input(input);
            return false;
        }
        match input {
            Input::Cancel => {
                match self.renderer_controller.now_choice_kind() {
                    ChoiceKind::Menu => {
                        shared_state.primitives.requested_scene_index -= 2;
                    },
                    ChoiceKind::ItemOperation | ChoiceKind::Confirm => {
                        self.renderer_controller.delegate_close();
                        self.renderer_controller.undo_choice_tree();
                    },
                    _ => {
                        self.renderer_controller.delegate_close();
                    },
                }
                false
            },
            Input::Enter => {
                self.renderer_controller.delegate_enter();
                self.act(shared_state)
            },
            _ => false,
        }
    }
}

} // verus!
