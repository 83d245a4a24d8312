use svg_quest::animation::{AnimationKind, AnimationSpan};
use svg_quest::battle::{BattleState, ESCAPE_CHANCES, ESCAPE_OUT_OF};
use svg_quest::character::Character;
use svg_quest::choice_kind::ChoiceKind;
use svg_quest::engine::mount_as;
use svg_quest::event::EventState;
use svg_quest::input::Input;
use svg_quest::item::Item;
use svg_quest::menu::MenuState;
use svg_quest::message::OutboundMessage;
use svg_quest::position::Position;
use svg_quest::save_data::SaveData;
use svg_quest::state::{RPGSharedState, State, StateType, BATTLE_SCENE, MENU_SCENE};
use svg_quest::title::TitleState;

fn state_at(scene_index: usize) -> State {
    let engine = mount_as("7".to_string());
    let mut state = engine.shared_state;
    state.primitives.scene_index = scene_index;
    state.primitives.requested_scene_index = scene_index;
    state.interrupt_animations.clear();
    if let StateType::RPGShared(rpg) = &mut state.state_type {
        rpg.characters[0].position = Position::new(360, 280);
    }
    state
}

fn hero(state: &State) -> &Character {
    match &state.state_type {
        StateType::RPGShared(rpg) => &rpg.characters[0],
        StateType::TBDStateType => panic!(),
    }
}

fn hero_mut(state: &mut State) -> &mut Character {
    match &mut state.state_type {
        StateType::RPGShared(rpg) => &mut rpg.characters[0],
        StateType::TBDStateType => panic!(),
    }
}

fn rpg(state: &State) -> &RPGSharedState {
    match &state.state_type {
        StateType::RPGShared(rpg) => rpg,
        StateType::TBDStateType => panic!(),
    }
}

fn messages(state: &State) -> Vec<Vec<String>> {
    state
        .interrupt_animations
        .iter()
        .map(|chain| chain.iter().flat_map(|a| a.messages.clone()).collect())
        .collect()
}

fn kinds(state: &State) -> Vec<Vec<AnimationKind>> {
    state.interrupt_animations.iter().map(|chain| chain.iter().map(|a| a.kind).collect()).collect()
}

fn names(list: &[&str]) -> Vec<String> {
    list.iter().map(|s| s.to_string()).collect()
}

fn saved_game(opening_seen: bool) -> SaveData {
    let character = Character {
        current_hp: 17,
        max_hp: 80,
        position: Position::new(120, -40),
        inventory: vec![Item::new("薬草"), Item::new("棍棒")],
        event_flags: if opening_seen { vec![true, false] } else { vec![false] },
    };
    let mut save = SaveData::empty();
    save.update(&vec![character], &vec![vec![0], vec![]], 1);
    save
}

/// A menu that was entered, with the given items carried.
fn menu_with(items: &[&str]) -> (MenuState, State) {
    let mut state = state_at(MENU_SCENE);
    for name in items {
        hero_mut(&mut state).inventory.push(Item::new(name));
    }
    let mut menu = MenuState::new();
    menu.init(&mut state);
    (menu, state)
}

fn press(menu: &mut MenuState, state: &mut State, inputs: &[Input]) -> bool {
    let mut store = false;
    for input in inputs {
        store = menu.consume(state, *input);
    }
    store
}

const DOWN: Input = Input::ArrowDown;
const ENTER: Input = Input::Enter;

#[test]
fn the_title_cursor_moves_over_two_entries() {
    let mut title = TitleState::new();
    let mut state = state_at(0);
    title.consume(&mut state, Input::ArrowDown, None);
    assert_eq!(title.cursor.chose_index, 1);
    title.consume(&mut state, Input::ArrowDown, None);
    assert_eq!(title.cursor.chose_index, 0);
    title.consume(&mut state, Input::ArrowUp, None);
    assert_eq!(title.cursor.chose_index, 1);
    assert_eq!(state.primitives.requested_scene_index, 0);
    assert!(state.interrupt_animations.is_empty());
}

#[test]
fn a_new_game_starts_on_the_field() {
    let mut title = TitleState::new();
    let mut state = state_at(0);
    hero_mut(&mut state).inventory.push(Item::new("棍棒"));
    hero_mut(&mut state).current_hp = 3;
    title.consume(&mut state, Input::Enter, Some(saved_game(true)));
    assert_eq!(state.primitives.requested_scene_index, 2);
    assert_eq!(state.primitives.scene_index, 0);
    assert_eq!((state.primitives.map_index, state.primitives.requested_map_index), (0, 0));
    assert_eq!(hero(&state).current_hp, 25);
    assert_eq!(hero(&state).max_hp, 80);
    assert_eq!(hero(&state).position, Position::new(360, 280));
    assert!(hero(&state).inventory.is_empty());
    assert!(hero(&state).event_flags.is_empty());
    assert_eq!(rpg(&state).treasure_box_opened, vec![Vec::<usize>::new()]);
    assert_eq!(kinds(&state), vec![vec![AnimationKind::FadeOutIn]]);
    assert_eq!(state.interrupt_animations[0][0].span, AnimationSpan::FadeOutInDefault);
}

#[test]
fn a_loaded_game_skips_an_opening_that_was_seen() {
    let mut title = TitleState::new();
    let mut state = state_at(0);
    title.consume(&mut state, Input::ArrowDown, None);
    title.consume(&mut state, Input::Enter, Some(saved_game(true)));
    assert_eq!(state.primitives.requested_scene_index, 2);
    assert_eq!((state.primitives.map_index, state.primitives.requested_map_index), (1, 1));
    assert_eq!(hero(&state).current_hp, 17);
    assert_eq!(hero(&state).position, Position::new(120, -40));
    assert_eq!(hero(&state).inventory_names(), names(&["薬草", "棍棒"]));
    assert_eq!(hero(&state).event_flags, vec![true, false]);
    assert_eq!(rpg(&state).treasure_box_opened, vec![vec![0usize], Vec::<usize>::new()]);
    assert_eq!(rpg(&state).save_data.map_usize, vec![1]);
    assert_eq!(kinds(&state), vec![vec![AnimationKind::FadeOutIn]]);
}

#[test]
fn a_loaded_game_shows_an_opening_that_was_not_seen() {
    let mut title = TitleState::new();
    let mut state = state_at(0);
    title.consume(&mut state, Input::ArrowDown, None);
    title.consume(&mut state, Input::Enter, Some(saved_game(false)));
    assert_eq!(state.primitives.requested_scene_index, 1);
    assert_eq!(hero(&state).current_hp, 17);
}

#[test]
fn loading_without_a_stored_game_reads_the_snapshot_kept() {
    let mut title = TitleState::new();
    let mut state = state_at(0);
    hero_mut(&mut state).current_hp = 3;
    title.consume(&mut state, Input::ArrowDown, None);
    title.consume(&mut state, Input::Enter, None);
    assert_eq!(state.primitives.requested_scene_index, 1);
    assert_eq!(hero(&state).current_hp, 25);
    assert_eq!(hero(&state).position, Position::new(360, 280));
}

#[test]
fn the_third_entry_of_the_title_does_nothing() {
    let mut title = TitleState::new();
    title.cursor.update_choice_length(3);
    title.cursor.consume(Input::ArrowUp);
    assert_eq!(title.cursor.chose_index, 2);
    let mut state = state_at(0);
    title.consume(&mut state, Input::Enter, None);
    assert_eq!(state.primitives.requested_scene_index, 0);
    assert!(state.interrupt_animations.is_empty());
}

#[test]
fn the_opening_is_shown_and_marked_as_seen() {
    let mut state = state_at(1);
    let mut event = EventState::new();
    event.init(&mut state);
    assert_eq!(state.primitives.requested_scene_index, 2);
    assert_eq!(kinds(&state), vec![vec![AnimationKind::MultiLineMessages, AnimationKind::FadeOutIn]]);
    assert_eq!(
        state.interrupt_animations[0][0].messages,
        names(&[
            "SVG QUEST へようこそ！",
            "",
            "ここは本来オープニングの画面ですが、",
            "まだ用意がありません。",
            "それではごゆっくりお楽しみください。"
        ])
    );
    assert_eq!(hero(&state).event_flags, vec![true]);
    hero_mut(&mut state).event_flags = vec![false, true];
    event.init(&mut state);
    assert_eq!(hero(&state).event_flags, vec![true, true]);
    event.consume(&mut state, Input::Enter);
    assert_eq!(state.primitives.requested_scene_index, 2);
}

#[test]
fn entering_a_battle_shows_the_commands() {
    let mut state = state_at(BATTLE_SCENE);
    let mut battle = BattleState::new();
    assert!(!battle.renderer_controller.renderers[0].visible);
    battle.init(&mut state);
    assert!(battle.renderer_controller.renderers[0].visible);
    assert_eq!(battle.renderer_controller.renderers[0].labels, names(&["たたかう", "にげる"]));
    assert_eq!(battle.renderer_controller.renderers[0].target_id, "battle");
    assert_eq!(messages(&state), vec![names(&["ピエンが現れた！"])]);
}

#[test]
fn a_fight_is_lost() {
    let mut state = state_at(BATTLE_SCENE);
    let mut battle = BattleState::new();
    battle.init(&mut state);
    state.interrupt_animations.clear();
    battle.consume(&mut state, Input::Enter);
    assert_eq!(state.primitives.requested_scene_index, 0);
    assert_eq!(kinds(&state), vec![vec![AnimationKind::MultiLineMessages, AnimationKind::FadeOutIn]]);
    assert_eq!(
        state.interrupt_animations[0][0].messages,
        names(&["もう戦えない！", "", "目の前が真っ暗になった…"])
    );
    assert_eq!(state.interrupt_animations[0][1].span, AnimationSpan::FadeOutInLong);
    assert!(!battle.renderer_controller.renderers[0].visible);
    assert!(battle.renderer_controller.now_choice_kind().same_as(&ChoiceKind::Root));
}

#[test]
fn an_escape_that_succeeds_leads_back_to_the_field() {
    let mut state = state_at(BATTLE_SCENE);
    let mut battle = BattleState::new();
    battle.init(&mut state);
    state.interrupt_animations.clear();
    battle.consume_rolled(&mut state, Input::ArrowDown, true);
    assert_eq!(battle.renderer_controller.renderers[0].cursor.chose_index, 1);
    assert!(state.interrupt_animations.is_empty());
    battle.consume_rolled(&mut state, Input::Enter, true);
    assert_eq!(state.primitives.requested_scene_index, 2);
    assert_eq!(kinds(&state), vec![vec![AnimationKind::Message, AnimationKind::FadeOutIn]]);
    assert_eq!(messages(&state), vec![names(&["逃げ出した"])]);
    assert!(!battle.renderer_controller.renderers[0].visible);
    assert_eq!(battle.renderer_controller.renderers[0].cursor.chose_index, 0);
    assert!(battle.renderer_controller.choice_tree.choice_indexes.is_empty());
}

#[test]
fn an_escape_that_fails_returns_to_the_commands() {
    let mut state = state_at(BATTLE_SCENE);
    let mut battle = BattleState::new();
    battle.init(&mut state);
    state.interrupt_animations.clear();
    battle.consume_rolled(&mut state, Input::ArrowDown, false);
    battle.consume_rolled(&mut state, Input::Enter, false);
    assert_eq!(state.primitives.requested_scene_index, BATTLE_SCENE);
    assert_eq!(messages(&state), vec![names(&["逃げられなかった！"])]);
    assert!(battle.renderer_controller.renderers[0].visible);
    assert_eq!(battle.renderer_controller.renderers[0].cursor.chose_index, 1);
    assert!(battle.renderer_controller.now_choice_kind().same_as(&ChoiceKind::Root));
}

#[test]
fn other_inputs_do_nothing_in_a_battle() {
    let mut state = state_at(BATTLE_SCENE);
    let mut battle = BattleState::new();
    battle.init(&mut state);
    state.interrupt_animations.clear();
    battle.consume(&mut state, Input::Cancel);
    battle.consume(&mut state, Input::NoInput);
    assert_eq!(state.primitives.requested_scene_index, BATTLE_SCENE);
    assert!(state.interrupt_animations.is_empty());
}

#[test]
fn seven_escapes_in_ten_succeed() {
    assert_eq!((ESCAPE_CHANCES, ESCAPE_OUT_OF), (7, 10));
    let mut state = state_at(BATTLE_SCENE);
    let mut battle = BattleState::new();
    battle.init(&mut state);
    let mut escaped = 0;
    for _ in 0..10_000 {
        state.interrupt_animations.clear();
        state.primitives.requested_scene_index = BATTLE_SCENE;
        battle.renderer_controller.initial_render();
        battle.consume(&mut state, Input::ArrowDown);
        battle.consume(&mut state, Input::Enter);
        if state.primitives.requested_scene_index == 2 {
            escaped += 1;
            assert_eq!(messages(&state), vec![names(&["逃げ出した"])]);
        } else {
            assert_eq!(state.primitives.requested_scene_index, BATTLE_SCENE);
            assert_eq!(messages(&state), vec![names(&["逃げられなかった！"])]);
            // The cursor stays on the escape command.
            battle.consume(&mut state, Input::ArrowUp);
        }
    }
    assert!(6700 < escaped && escaped < 7300, "{} of 10000 escapes succeeded", escaped);
}

#[test]
fn the_menu_as_it_is_created() {
    let menu = MenuState::new();
    let ids: Vec<&str> =
        menu.renderer_controller.renderers.iter().map(|r| r.target_id.as_str()).collect();
    assert_eq!(
        ids,
        vec!["menu", "menu-inventory", "menu-item-operation", "menu-common-confirm", "menu-emote"]
    );
    assert_eq!(menu.renderer_controller.confirm_index, Some(3));
    assert_eq!(menu.renderer_controller.renderers[4].cursor.x_length, 5);
    assert_eq!(menu.renderer_controller.renderers[4].cursor.y_length, 2);
    assert_eq!(menu.renderer_controller.renderers[2].cursor.step_length, 50);
    assert_eq!(menu.emotes, names(&["👉", "👆", "👈", "👇", "👍", "🤨", "😆", "🤩", "🥺", "☺️"]));
}

#[test]
fn entering_the_menu_shows_its_entries() {
    let (menu, state) = menu_with(&[]);
    assert!(menu.renderer_controller.renderers[0].visible);
    assert_eq!(
        menu.renderer_controller.renderers[0].labels,
        names(&["どうぐ", "そうび", "エモート", "チャット", "セーブ", "タイトル", "とじる"])
    );
    assert!(state.interrupt_animations.is_empty());
}

#[test]
fn cancel_at_the_top_of_the_menu_returns_to_the_field() {
    let (mut menu, mut state) = menu_with(&[]);
    assert!(!press(&mut menu, &mut state, &[Input::Cancel]));
    assert_eq!(state.primitives.requested_scene_index, 2);
    assert!(menu.renderer_controller.renderers[0].visible);
}

#[test]
fn closing_the_menu_returns_to_the_field() {
    let (mut menu, mut state) = menu_with(&[]);
    press(&mut menu, &mut state, &[Input::ArrowUp, ENTER]);
    assert_eq!(state.primitives.requested_scene_index, 2);
    assert!(!menu.renderer_controller.renderers[0].visible);
    assert_eq!(menu.renderer_controller.renderers[0].cursor.chose_index, 0);
    assert!(menu.renderer_controller.now_choice_kind().same_as(&ChoiceKind::Menu));
}

#[test]
fn an_empty_inventory_is_not_opened() {
    let (mut menu, mut state) = menu_with(&[]);
    press(&mut menu, &mut state, &[ENTER]);
    assert_eq!(messages(&state), vec![names(&["何も持っていない！"])]);
    assert!(!menu.renderer_controller.renderers[1].visible);
    assert!(menu.renderer_controller.now_choice_kind().same_as(&ChoiceKind::Menu));
}

#[test]
fn the_inventory_lists_what_is_carried() {
    let (mut menu, mut state) = menu_with(&["薬草", "棍棒"]);
    press(&mut menu, &mut state, &[ENTER]);
    assert!(menu.renderer_controller.renderers[1].visible);
    assert_eq!(menu.renderer_controller.renderers[1].labels, names(&["薬草", "棍棒"]));
    assert!(menu.renderer_controller.now_choice_kind().same_as(&ChoiceKind::ItemInventory));
    press(&mut menu, &mut state, &[DOWN, ENTER]);
    assert!(menu.renderer_controller.now_choice_kind().same_as(&ChoiceKind::ItemOperation));
    assert!(menu.renderer_controller.renderers[2].visible);
    assert_eq!(menu.renderer_controller.renderers[2].labels, names(&["つかう", "すてる"]));
    assert_eq!(menu.renderer_controller.get_chose_nth(), Some(1));
    // Cancel leads back to the inventory.
    press(&mut menu, &mut state, &[Input::Cancel]);
    assert!(!menu.renderer_controller.renderers[2].visible);
    assert!(menu.renderer_controller.now_choice_kind().same_as(&ChoiceKind::ItemInventory));
    press(&mut menu, &mut state, &[Input::Cancel]);
    assert!(!menu.renderer_controller.renderers[1].visible);
    assert!(menu.renderer_controller.now_choice_kind().same_as(&ChoiceKind::Menu));
}

#[test]
fn using_the_herb_heals_and_uses_it_up() {
    let (mut menu, mut state) = menu_with(&["棍棒", "薬草"]);
    press(&mut menu, &mut state, &[ENTER, DOWN, ENTER, ENTER]);
    assert_eq!(hero(&state).current_hp, 55);
    assert_eq!(hero(&state).inventory_names(), names(&["棍棒"]));
    assert_eq!(messages(&state), vec![names(&["薬草を使用しました。HPが30回復"])]);
    assert!(menu.renderer_controller.now_choice_kind().same_as(&ChoiceKind::ItemInventory));
    assert!(!menu.renderer_controller.renderers[2].visible);
    assert!(menu.renderer_controller.renderers[1].visible);
    assert_eq!(menu.renderer_controller.renderers[1].labels, names(&["棍棒"]));
    assert_eq!(menu.renderer_controller.renderers[1].cursor.chose_index, 0);
}

#[test]
fn using_the_last_item_closes_the_inventory() {
    let (mut menu, mut state) = menu_with(&["薬草"]);
    hero_mut(&mut state).current_hp = 70;
    press(&mut menu, &mut state, &[ENTER, ENTER, ENTER]);
    assert_eq!(hero(&state).current_hp, 80);
    assert!(hero(&state).inventory.is_empty());
    assert!(!menu.renderer_controller.renderers[1].visible);
    assert!(menu.renderer_controller.now_choice_kind().same_as(&ChoiceKind::Menu));
}

#[test]
fn a_weapon_and_a_key_cannot_be_used() {
    let (mut menu, mut state) = menu_with(&["棍棒", "最初の鍵"]);
    press(&mut menu, &mut state, &[ENTER, ENTER, ENTER]);
    assert_eq!(messages(&state), vec![names(&["武器は使用できません"])]);
    assert!(menu.renderer_controller.now_choice_kind().same_as(&ChoiceKind::ItemOperation));
    press(&mut menu, &mut state, &[Input::Cancel, DOWN, ENTER, ENTER]);
    assert_eq!(
        messages(&state),
        vec![names(&["武器は使用できません"]), names(&["ここでは使用できません"])]
    );
    assert_eq!(hero(&state).inventory.len(), 2);
    assert_eq!(hero(&state).current_hp, 25);
}

#[test]
fn dropping_an_item_asks_first() {
    let (mut menu, mut state) = menu_with(&["薬草", "棍棒"]);
    press(&mut menu, &mut state, &[ENTER, DOWN, ENTER, DOWN, ENTER]);
    assert!(menu.renderer_controller.now_choice_kind().same_as(&ChoiceKind::Confirm));
    assert!(menu.renderer_controller.renderers[3].visible);
    assert_eq!(menu.renderer_controller.renderers[3].description, "本当に捨てますか？");
    assert_eq!(hero(&state).inventory.len(), 2);
    // "No" leads back to the operations on the item.
    press(&mut menu, &mut state, &[DOWN, ENTER]);
    assert!(!menu.renderer_controller.renderers[3].visible);
    assert!(menu.renderer_controller.now_choice_kind().same_as(&ChoiceKind::ItemOperation));
    assert_eq!(hero(&state).inventory.len(), 2);
    // "Yes" drops the item.
    press(&mut menu, &mut state, &[ENTER, ENTER]);
    assert_eq!(hero(&state).inventory_names(), names(&["薬草"]));
    assert_eq!(messages(&state), vec![names(&["棍棒を捨てた"])]);
    assert!(menu.renderer_controller.now_choice_kind().same_as(&ChoiceKind::ItemInventory));
    assert_eq!(menu.renderer_controller.renderers[1].labels, names(&["薬草"]));
    assert!(!menu.renderer_controller.renderers[2].visible);
    assert!(!menu.renderer_controller.renderers[3].visible);
}

#[test]
fn a_key_cannot_be_dropped() {
    let (mut menu, mut state) = menu_with(&["最初の鍵"]);
    press(&mut menu, &mut state, &[ENTER, ENTER, DOWN, ENTER, ENTER]);
    assert_eq!(messages(&state), vec![names(&["鍵は捨てられません"])]);
    assert_eq!(hero(&state).inventory.len(), 1);
    assert!(menu.renderer_controller.now_choice_kind().same_as(&ChoiceKind::ItemOperation));
}

#[test]
fn what_is_to_come_says_so() {
    let (mut menu, mut state) = menu_with(&[]);
    press(&mut menu, &mut state, &[DOWN, ENTER]);
    press(&mut menu, &mut state, &[DOWN, DOWN, ENTER]);
    assert_eq!(messages(&state), vec![names(&["Coming soon..."]), names(&["Coming soon..."])]);
    assert!(menu.renderer_controller.now_choice_kind().same_as(&ChoiceKind::Menu));
}

#[test]
fn an_emote_is_queued_for_sending() {
    let (mut menu, mut state) = menu_with(&[]);
    state.primitives.map_index = 2;
    press(&mut menu, &mut state, &[DOWN, DOWN, ENTER]);
    assert!(menu.renderer_controller.renderers[4].visible);
    assert_eq!(menu.renderer_controller.renderers[4].labels.len(), 10);
    press(&mut menu, &mut state, &[Input::ArrowRight, DOWN, ENTER]);
    assert_eq!(state.to_send_channel_messages.len(), 1);
    match &state.to_send_channel_messages[0] {
        OutboundMessage::Emote(sent) => {
            assert_eq!(sent.user_name, "7");
            assert_eq!(sent.emote, "😆");
            assert_eq!((sent.position_x, sent.position_y, sent.map_index), (360, 280, 2));
        }
        _ => panic!(),
    }
    assert!(menu.renderer_controller.now_choice_kind().same_as(&ChoiceKind::Emote));
    assert!(menu.renderer_controller.renderers[4].visible);
    press(&mut menu, &mut state, &[Input::Cancel]);
    assert!(!menu.renderer_controller.renderers[4].visible);
    assert!(menu.renderer_controller.now_choice_kind().same_as(&ChoiceKind::Menu));
}

#[test]
fn saving_asks_first_and_then_fills_the_snapshot() {
    let (mut menu, mut state) = menu_with(&["薬草"]);
    hero_mut(&mut state).current_hp = 40;
    hero_mut(&mut state).position = Position::new(80, 120);
    assert!(!press(&mut menu, &mut state, &[DOWN, DOWN, DOWN, DOWN, ENTER]));
    assert!(menu.renderer_controller.now_choice_kind().same_as(&ChoiceKind::Confirm));
    assert_eq!(rpg(&state).save_data.character_u32, vec![25, 80]);
    assert!(press(&mut menu, &mut state, &[ENTER]));
    assert_eq!(rpg(&state).save_data.character_u32, vec![40, 80]);
    assert_eq!(rpg(&state).save_data.map_i32, vec![80, 120]);
    assert_eq!(rpg(&state).save_data.inventory_string, names(&["薬草"]));
    assert_eq!(messages(&state), vec![names(&["セーブしました"])]);
    assert!(menu.renderer_controller.now_choice_kind().same_as(&ChoiceKind::Menu));
    assert!(!menu.renderer_controller.renderers[3].visible);
    assert!(menu.renderer_controller.renderers[0].visible);
}

#[test]
fn a_save_that_is_not_confirmed_does_not_happen() {
    let (mut menu, mut state) = menu_with(&[]);
    hero_mut(&mut state).current_hp = 40;
    assert!(!press(&mut menu, &mut state, &[DOWN, DOWN, DOWN, DOWN, ENTER, DOWN, ENTER]));
    assert_eq!(rpg(&state).save_data.character_u32, vec![25, 80]);
    assert!(state.interrupt_animations.is_empty());
    assert!(menu.renderer_controller.now_choice_kind().same_as(&ChoiceKind::Menu));
    assert!(!press(&mut menu, &mut state, &[ENTER, Input::Cancel]));
    assert!(menu.renderer_controller.now_choice_kind().same_as(&ChoiceKind::Menu));
    assert_eq!(rpg(&state).save_data.character_u32, vec![25, 80]);
}

#[test]
fn the_way_back_to_the_title_asks_first() {
    let (mut menu, mut state) = menu_with(&[]);
    press(&mut menu, &mut state, &[Input::ArrowUp, Input::ArrowUp, ENTER]);
    assert_eq!(
        menu.renderer_controller.renderers[3].description,
        "タイトルに戻ります。よろしいですか？"
    );
    assert_eq!(state.primitives.requested_scene_index, MENU_SCENE);
    press(&mut menu, &mut state, &[ENTER]);
    assert_eq!(state.primitives.requested_scene_index, 0);
    assert_eq!(kinds(&state), vec![vec![AnimationKind::FadeOutIn]]);
    assert_eq!(state.interrupt_animations[0][0].span, AnimationSpan::FadeOutInMedium);
    assert!(menu.renderer_controller.renderers.iter().all(|r| !r.visible));
    assert!(menu.renderer_controller.choice_tree.choice_indexes.is_empty());
}

#[test]
fn other_inputs_do_nothing_in_the_menu() {
    let (mut menu, mut state) = menu_with(&[]);
    assert!(!press(&mut menu, &mut state, &[Input::Context, Input::NoInput]));
    assert_eq!(state.primitives.requested_scene_index, MENU_SCENE);
    assert!(menu.renderer_controller.now_choice_kind().same_as(&ChoiceKind::Menu));
}
