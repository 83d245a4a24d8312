use svg_quest::animation::AnimationKind;
use svg_quest::engine::mount_as;
use svg_quest::field::{direction_string, find_user, merge_online_user, FieldState};
use svg_quest::input::Input;
use svg_quest::item::Item;
use svg_quest::map::EventType;
use svg_quest::message::{
    ChannelMessage, EmoteMessage, MessageType, OutboundMessage, Payload, PositionMessage,
};
use svg_quest::position::Position;
use svg_quest::state::{State, StateType, FIELD_SCENE};

/// A field and a shared state in which the field is on display, with the
/// character on the given tile of the given map.
fn standing(map_index: usize, x: i32, y: i32) -> (FieldState, State) {
    let engine = mount_as("7".to_string());
    let mut state = engine.shared_state;
    state.primitives.scene_index = FIELD_SCENE;
    state.primitives.requested_scene_index = FIELD_SCENE;
    state.primitives.map_index = map_index;
    state.primitives.requested_map_index = map_index;
    if let StateType::RPGShared(rpg) = &mut state.state_type {
        rpg.characters[0].position = Position::new(x, y);
        while rpg.treasure_box_opened.len() <= map_index {
            rpg.treasure_box_opened.push(vec![]);
        }
    }
    state.interrupt_animations.clear();
    let mut field = FieldState::new();
    field.update_character_position(x, y);
    (field, state)
}

fn position(state: &State) -> Position {
    match &state.state_type {
        StateType::RPGShared(rpg) => rpg.characters[0].position,
        StateType::TBDStateType => panic!(),
    }
}

fn inventory(state: &State) -> Vec<String> {
    match &state.state_type {
        StateType::RPGShared(rpg) => rpg.characters[0].inventory_names(),
        StateType::TBDStateType => panic!(),
    }
}

fn opened(state: &State) -> Vec<Vec<usize>> {
    match &state.state_type {
        StateType::RPGShared(rpg) => rpg.treasure_box_opened.clone(),
        StateType::TBDStateType => panic!(),
    }
}

fn give(state: &mut State, name: &str) {
    if let StateType::RPGShared(rpg) = &mut state.state_type {
        rpg.characters[0].inventory.push(Item::new(name));
    }
}

fn users(state: &State) -> Vec<(String, Input, i32, i32, usize)> {
    match &state.state_type {
        StateType::RPGShared(rpg) => rpg
            .online_users
            .iter()
            .map(|u| (u.user_name.clone(), u.direction, u.position_x, u.position_y, u.map_index))
            .collect(),
        StateType::TBDStateType => panic!(),
    }
}

fn messages(state: &State) -> Vec<Vec<String>> {
    state
        .interrupt_animations
        .iter()
        .map(|chain| chain.iter().flat_map(|a| a.messages.clone()).collect())
        .collect()
}

fn report(user_name: &str, direction: Input, x: i32, y: i32, map_index: usize) -> PositionMessage {
    PositionMessage {
        user_name: user_name.to_string(),
        direction,
        position_x: x,
        position_y: y,
        map_index,
    }
}

fn envelope(user_name: &str, message_type: MessageType) -> ChannelMessage {
    ChannelMessage { user_name: user_name.to_string(), message_type, message: "".to_string() }
}

#[test]
fn the_field_starts_with_the_camera_at_rest() {
    let field = FieldState::new();
    assert_eq!((field.wrapper_translate_x, field.wrapper_translate_y), (0, 0));
    assert_eq!(field.maps.len(), 4);
    assert_eq!(field.character_direction, "");
}

#[test]
fn direction_glyphs() {
    assert_eq!(direction_string(Input::ArrowUp), "↑");
    assert_eq!(direction_string(Input::ArrowDown), "↓");
    assert_eq!(direction_string(Input::ArrowRight), "→");
    assert_eq!(direction_string(Input::ArrowLeft), "←");
    assert_eq!(direction_string(Input::Enter), "");
}

#[test]
fn entering_puts_an_unplaced_character_on_the_spawn_tile() {
    let engine = mount_as("7".to_string());
    let mut state = engine.shared_state;
    let mut field = FieldState::new();
    field.init(&mut state);
    assert_eq!(position(&state), Position::new(360, 280));
    // The camera stands on the tile on which the character was placed.
    assert_eq!((field.wrapper_translate_x, field.wrapper_translate_y), (0, 0));
    assert_eq!(state.to_send_channel_messages.len(), 1);
    match &state.to_send_channel_messages[0] {
        OutboundMessage::Position(sent) => {
            assert_eq!(sent.user_name, "7");
            assert_eq!(sent.direction, Input::ArrowDown);
            assert_eq!((sent.position_x, sent.position_y), (360, 280));
            assert_eq!(sent.map_index, 0);
        }
        _ => panic!(),
    }
}

#[test]
fn entering_keeps_a_placed_character_where_it_is() {
    let (mut field, mut state) = standing(1, -440, -360);
    field.reset_translate(3, 4);
    field.init(&mut state);
    assert_eq!(position(&state), Position::new(-440, -360));
    assert_eq!((field.wrapper_translate_x, field.wrapper_translate_y), (800, 640));
}

#[test]
fn a_step_onto_a_free_tile_moves_the_character_and_the_camera() {
    let engine = mount_as("7".to_string());
    let mut state = engine.shared_state;
    state.primitives.scene_index = FIELD_SCENE;
    state.primitives.requested_scene_index = FIELD_SCENE;
    let mut field = FieldState::new();
    field.init(&mut state);
    field.move_to(&mut state, Input::ArrowRight);
    assert_eq!(position(&state), Position::new(400, 280));
    assert_eq!((field.wrapper_translate_x, field.wrapper_translate_y), (-40, 0));
    field.move_to(&mut state, Input::ArrowUp);
    assert_eq!(position(&state), Position::new(400, 240));
    assert_eq!((field.wrapper_translate_x, field.wrapper_translate_y), (-40, 40));
    field.move_to(&mut state, Input::ArrowLeft);
    field.move_to(&mut state, Input::ArrowDown);
    assert_eq!(position(&state), Position::new(360, 280));
    assert_eq!((field.wrapper_translate_x, field.wrapper_translate_y), (0, 0));
}

#[test]
fn an_obstacle_stops_the_character() {
    let (mut field, mut state) = standing(0, 120, 240);
    field.move_to(&mut state, Input::ArrowLeft);
    assert_eq!(position(&state), Position::new(120, 240));
    assert_eq!((field.wrapper_translate_x, field.wrapper_translate_y), (240, 40));
    assert!(state.interrupt_animations.is_empty());
    assert_eq!(state.primitives.requested_scene_index, FIELD_SCENE);
}

#[test]
fn an_enemy_starts_a_battle() {
    let (mut field, mut state) = standing(0, 440, 280);
    field.move_to(&mut state, Input::ArrowDown);
    assert_eq!(position(&state), Position::new(440, 280));
    assert_eq!((field.wrapper_translate_x, field.wrapper_translate_y), (-80, 0));
    assert_eq!(state.primitives.requested_scene_index, 3);
    assert_eq!(state.primitives.scene_index, FIELD_SCENE);
    assert_eq!(state.interrupt_animations.len(), 1);
    assert_eq!(state.interrupt_animations[0][0].kind, AnimationKind::FadeOutIn);
    assert!(state.interrupt_animations[0][0].block_scene_update);
}

#[test]
fn a_treasure_box_is_opened_once() {
    let (mut field, mut state) = standing(0, 320, 160);
    field.move_to(&mut state, Input::ArrowUp);
    assert_eq!(position(&state), Position::new(320, 160));
    assert_eq!((field.wrapper_translate_x, field.wrapper_translate_y), (40, 120));
    assert_eq!(inventory(&state), vec!["薬草".to_string()]);
    assert_eq!(opened(&state), vec![vec![0usize]]);
    assert_eq!(messages(&state), vec![vec!["薬草を手に入れた".to_string()]]);
    field.move_to(&mut state, Input::ArrowUp);
    assert_eq!(inventory(&state), vec!["薬草".to_string()]);
    assert_eq!(opened(&state), vec![vec![0usize]]);
    assert_eq!(messages(&state), vec![vec!["薬草を手に入れた".to_string()]]);
    assert_eq!(position(&state), Position::new(320, 160));
    assert_eq!((field.wrapper_translate_x, field.wrapper_translate_y), (40, 120));
}

#[test]
fn a_locked_box_stays_closed_without_its_key() {
    let (mut field, mut state) = standing(1, -480, -440);
    field.move_to(&mut state, Input::ArrowUp);
    assert!(inventory(&state).is_empty());
    assert_eq!(opened(&state), vec![Vec::<usize>::new(), Vec::<usize>::new()]);
    assert_eq!(messages(&state), vec![vec!["鍵がかかっている".to_string()]]);
    assert_eq!(position(&state), Position::new(-480, -440));
    assert_eq!((field.wrapper_translate_x, field.wrapper_translate_y), (840, 720));
}

#[test]
fn a_locked_box_opens_with_its_key_and_the_key_is_kept() {
    let (mut field, mut state) = standing(1, -480, -440);
    give(&mut state, "最初の鍵");
    field.move_to(&mut state, Input::ArrowUp);
    assert_eq!(inventory(&state), vec!["最初の鍵".to_string(), "棍棒".to_string()]);
    assert_eq!(opened(&state), vec![Vec::<usize>::new(), vec![0usize]]);
    assert_eq!(
        messages(&state),
        vec![vec!["最初の鍵を使用した".to_string()], vec!["棍棒を手に入れた".to_string()]]
    );
    field.move_to(&mut state, Input::ArrowUp);
    assert_eq!(inventory(&state).len(), 2);
    assert_eq!(messages(&state).len(), 2);
}

#[test]
fn a_door_stays_locked_without_its_key() {
    let (mut field, mut state) = standing(0, 520, -120);
    let events = field.maps[0].event_positions.len();
    field.move_to(&mut state, Input::ArrowUp);
    assert_eq!(messages(&state), vec![vec!["鍵がかかっている".to_string()]]);
    assert_eq!(field.maps[0].event_positions.len(), events);
    assert_eq!(position(&state), Position::new(520, -120));
    assert_eq!((field.wrapper_translate_x, field.wrapper_translate_y), (-160, 400));
}

#[test]
fn a_door_opens_for_good_with_its_key() {
    let (mut field, mut state) = standing(0, 520, -120);
    give(&mut state, "最初の鍵");
    let events = field.maps[0].event_positions.len();
    field.move_to(&mut state, Input::ArrowUp);
    assert_eq!(messages(&state), vec![vec!["最初の鍵を使用した".to_string()]]);
    assert_eq!(field.maps[0].event_positions.len(), events - 1);
    assert!(!field.maps[0].event_positions.iter().any(|e| matches!(e.1, EventType::Gate(_))));
    assert_eq!(inventory(&state), vec!["最初の鍵".to_string()]);
    // The character has not moved, and the camera is where it was.
    assert_eq!(position(&state), Position::new(520, -120));
    assert_eq!((field.wrapper_translate_x, field.wrapper_translate_y), (-160, 400));
    // Behind the door lies the link to the fourth map.
    state.interrupt_animations.clear();
    field.move_to(&mut state, Input::ArrowUp);
    assert_eq!(position(&state), Position::new(-440, -360));
    assert_eq!(state.primitives.requested_map_index, 3);
    assert_eq!(state.primitives.map_index, 0);
}

#[test]
fn a_link_leads_to_another_map() {
    let (mut field, mut state) = standing(0, 120, 0);
    field.move_to(&mut state, Input::ArrowUp);
    assert_eq!(position(&state), Position::new(-440, -360));
    assert_eq!(state.primitives.requested_map_index, 1);
    assert_eq!(state.primitives.map_index, 0);
    assert_eq!(state.primitives.requested_scene_index, FIELD_SCENE);
    assert_eq!((field.wrapper_translate_x, field.wrapper_translate_y), (240, 280));
    assert_eq!(state.interrupt_animations.len(), 1);
    assert_eq!(state.interrupt_animations[0][0].kind, AnimationKind::FadeOutIn);
}

#[test]
fn a_link_leads_back_to_where_it_came_from() {
    let (mut field, mut state) = standing(2, -440, -360);
    field.move_to(&mut state, Input::ArrowDown);
    assert_eq!(position(&state), Position::new(600, 240));
    assert_eq!(state.primitives.requested_map_index, 0);
}

#[test]
fn an_arrow_turns_steps_and_reports() {
    let (mut field, mut state) = standing(0, 360, 280);
    field.consume(&mut state, Input::ArrowLeft);
    assert_eq!(field.character_direction, "←");
    assert_eq!(position(&state), Position::new(320, 280));
    assert_eq!(state.to_send_channel_messages.len(), 1);
    match &state.to_send_channel_messages[0] {
        OutboundMessage::Position(sent) => {
            assert_eq!(sent.direction, Input::ArrowLeft);
            assert_eq!((sent.position_x, sent.position_y, sent.map_index), (320, 280, 0));
        }
        _ => panic!(),
    }
}

#[test]
fn the_report_after_a_link_names_the_map_asked_for() {
    let (mut field, mut state) = standing(0, 120, 0);
    field.consume(&mut state, Input::ArrowUp);
    match &state.to_send_channel_messages[0] {
        OutboundMessage::Position(sent) => {
            assert_eq!((sent.position_x, sent.position_y, sent.map_index), (-440, -360, 1));
        }
        _ => panic!(),
    }
}

#[test]
fn cancel_asks_for_the_menu() {
    let (mut field, mut state) = standing(0, 360, 280);
    field.consume(&mut state, Input::Cancel);
    assert_eq!(state.primitives.requested_scene_index, 4);
    assert_eq!(position(&state), Position::new(360, 280));
    assert!(state.to_send_channel_messages.is_empty());
    assert!(state.interrupt_animations.is_empty());
}

#[test]
fn other_inputs_do_nothing_in_the_field() {
    let (mut field, mut state) = standing(0, 360, 280);
    for input in [Input::Enter, Input::Context, Input::NoInput] {
        field.consume(&mut state, input);
    }
    assert_eq!(state.primitives.requested_scene_index, FIELD_SCENE);
    assert_eq!(position(&state), Position::new(360, 280));
    assert!(state.to_send_channel_messages.is_empty());
    assert_eq!(field.character_direction, "");
}

#[test]
fn a_new_map_gets_its_list_of_opened_boxes() {
    let (mut field, mut state) = standing(0, -440, -360);
    state.primitives.map_index = 2;
    state.primitives.requested_map_index = 2;
    if let StateType::RPGShared(rpg) = &mut state.state_type {
        rpg.treasure_box_opened = vec![vec![0]];
    }
    field.update_map(&mut state);
    assert_eq!(opened(&state), vec![vec![0usize], Vec::<usize>::new(), Vec::<usize>::new()]);
    assert_eq!((field.wrapper_translate_x, field.wrapper_translate_y), (800, 640));
    field.update_map(&mut state);
    assert_eq!(opened(&state), vec![vec![0usize], Vec::<usize>::new(), Vec::<usize>::new()]);
}

#[test]
fn an_emote_is_shown_on_its_map_only() {
    let (mut field, mut state) = standing(1, 0, 0);
    let emote = EmoteMessage {
        user_name: "9".to_string(),
        position_x: 0,
        position_y: 0,
        map_index: 0,
        emote: "🥺".to_string(),
    };
    field.consume_emote_message(emote.clone(), &mut state);
    assert!(state.interrupt_animations.is_empty());
    let mut here = emote.clone();
    here.map_index = 1;
    field.consume_emote_message(here, &mut state);
    assert_eq!(state.interrupt_animations.len(), 1);
    let shown = &state.interrupt_animations[0][0];
    assert_eq!(shown.kind, AnimationKind::Emote);
    assert_eq!(shown.messages, vec!["9".to_string(), "🥺".to_string()]);
    assert!(!shown.is_own_emote());
    let mut own = emote;
    own.map_index = 1;
    own.user_name = "7".to_string();
    field.consume_emote_message(own, &mut state);
    assert!(state.interrupt_animations[1][0].is_own_emote());
}

#[test]
fn an_emote_in_an_envelope_is_shown_whoever_sent_it() {
    let (mut field, mut state) = standing(0, 0, 0);
    let emote = EmoteMessage {
        user_name: "7".to_string(),
        position_x: 0,
        position_y: 0,
        map_index: 0,
        emote: "👍".to_string(),
    };
    field.consume_channel_message(
        &mut state,
        &envelope("7", MessageType::Message),
        Payload::Emote(emote),
    );
    assert_eq!(state.interrupt_animations.len(), 1);
    assert!(users(&state).is_empty());
}

#[test]
fn a_report_of_another_player_is_merged() {
    let (mut field, mut state) = standing(0, 0, 0);
    let message = envelope("9", MessageType::Message);
    field.consume_channel_message(
        &mut state,
        &message,
        Payload::Position(report("9", Input::ArrowUp, 40, 80, 0)),
    );
    assert_eq!(users(&state), vec![("9".to_string(), Input::ArrowUp, 40, 80, 0)]);
    field.consume_channel_message(
        &mut state,
        &envelope("8", MessageType::Message),
        Payload::Position(report("8", Input::ArrowLeft, 0, 0, 1)),
    );
    field.consume_channel_message(
        &mut state,
        &message,
        Payload::Position(report("someone", Input::ArrowDown, 80, 80, 2)),
    );
    assert_eq!(
        users(&state),
        vec![
            ("9".to_string(), Input::ArrowDown, 80, 80, 2),
            ("8".to_string(), Input::ArrowLeft, 0, 0, 1)
        ]
    );
    assert!(state.to_send_channel_messages.is_empty());
}

#[test]
fn ones_own_envelopes_are_ignored() {
    let (mut field, mut state) = standing(0, 0, 0);
    field.consume_channel_message(
        &mut state,
        &envelope("7", MessageType::Message),
        Payload::Position(report("7", Input::ArrowUp, 40, 80, 0)),
    );
    field.consume_channel_message(&mut state, &envelope("7", MessageType::Join), Payload::Unreadable);
    assert!(users(&state).is_empty());
    assert!(state.to_send_channel_messages.is_empty());
}

#[test]
fn a_player_who_left_is_taken_off_the_list() {
    let (mut field, mut state) = standing(0, 0, 0);
    for name in ["8", "9"] {
        field.consume_channel_message(
            &mut state,
            &envelope(name, MessageType::Message),
            Payload::Position(report(name, Input::ArrowUp, 40, 80, 0)),
        );
    }
    field.consume_channel_message(&mut state, &envelope("8", MessageType::Left), Payload::Unreadable);
    assert_eq!(users(&state).len(), 1);
    assert_eq!(users(&state)[0].0, "9");
    // A farewell may also come inside a message.
    field.consume_channel_message(
        &mut state,
        &envelope("9", MessageType::Message),
        Payload::Channel(envelope("9", MessageType::Left)),
    );
    assert!(users(&state).is_empty());
    // A farewell of someone unknown changes nothing.
    field.consume_channel_message(&mut state, &envelope("5", MessageType::Left), Payload::Unreadable);
    assert!(users(&state).is_empty());
}

#[test]
fn what_cannot_be_read_is_dropped() {
    let (mut field, mut state) = standing(0, 0, 0);
    field.consume_channel_message(
        &mut state,
        &envelope("9", MessageType::Message),
        Payload::Unreadable,
    );
    field.consume_channel_message(
        &mut state,
        &envelope("9", MessageType::Message),
        Payload::Channel(envelope("9", MessageType::Join)),
    );
    assert!(users(&state).is_empty());
    assert!(state.to_send_channel_messages.is_empty());
    assert!(state.interrupt_animations.is_empty());
}

#[test]
fn a_join_is_answered_with_ones_own_position() {
    let (mut field, mut state) = standing(0, 40, 80);
    field.consume_channel_message(&mut state, &envelope("9", MessageType::Join), Payload::Unreadable);
    assert!(users(&state).is_empty());
    assert_eq!(state.to_send_channel_messages.len(), 1);
    match &state.to_send_channel_messages[0] {
        OutboundMessage::Position(sent) => {
            assert_eq!(sent.user_name, "7");
            assert_eq!(sent.direction, Input::ArrowDown);
            assert_eq!((sent.position_x, sent.position_y), (40, 80));
        }
        _ => panic!(),
    }
}

#[test]
fn users_are_found_and_merged_by_name() {
    let mut list = vec![report("a", Input::ArrowUp, 0, 0, 0), report("b", Input::ArrowUp, 0, 0, 0)];
    assert_eq!(find_user(&list, &"b".to_string()), Some(1));
    assert_eq!(find_user(&list, &"c".to_string()), None);
    merge_online_user(&mut list, &"a".to_string(), MessageType::Join, Payload::Unreadable);
    assert_eq!(list.len(), 2);
    merge_online_user(&mut list, &"a".to_string(), MessageType::Left, Payload::Unreadable);
    assert_eq!(list.len(), 1);
    assert_eq!(list[0].user_name, "b");
}
