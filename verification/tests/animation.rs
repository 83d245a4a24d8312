use svg_quest::animation::{
    Animation, AnimationKind, AnimationSpan, MessageBox, References, MOVE_STEPS, NOT_STARTED,
};
use svg_quest::animation_queue::{
    advance_animations, has_animation_blocking_scene_update, is_user_on_map,
};
use svg_quest::input::Input;
use svg_quest::message::{EmoteMessage, PositionMessage};

fn free() -> References {
    References { has_message: false, has_continuous_message: false }
}

fn emote(user_name: &str, text: &str) -> EmoteMessage {
    EmoteMessage {
        user_name: user_name.to_string(),
        position_x: 0,
        position_y: 0,
        map_index: 0,
        emote: text.to_string(),
    }
}

fn report(user_name: &str, map_index: usize) -> PositionMessage {
    PositionMessage {
        user_name: user_name.to_string(),
        direction: Input::ArrowDown,
        position_x: 40,
        position_y: 80,
        map_index,
    }
}

#[test]
fn spans_in_steps() {
    assert_eq!(AnimationSpan::FadeOutInDefault.steps(), 500);
    assert_eq!(AnimationSpan::FadeOutInLong.steps(), 2000);
    assert_eq!(AnimationSpan::FadeOutInMedium.steps(), 1000);
    assert_eq!(AnimationSpan::EmoteDefault.steps(), 5000);
    assert_eq!(AnimationSpan::Unset.steps(), 0);
}

#[test]
fn a_new_animation_has_not_started() {
    let fade = Animation::create_fade_out_in();
    assert_eq!(fade.start_step, NOT_STARTED);
    assert_eq!(fade.start_step, -1);
    assert_eq!(fade.kind, AnimationKind::FadeOutIn);
    assert_eq!(fade.span, AnimationSpan::FadeOutInDefault);
    assert!(fade.block_scene_update);
    let blink = Animation::always_blink();
    assert!(!blink.block_scene_update);
    assert_eq!(blink.kind, AnimationKind::AlwaysBlink);
    let message = Animation::create_message("やあ".to_string());
    assert!(message.block_scene_update);
    assert_eq!(message.messages, vec!["やあ".to_string()]);
    let moving = Animation::create_move(1, 2, 3, 4);
    assert_eq!(moving.args_i32, vec![1, 2, 3, 4]);
    assert!(moving.block_scene_update);
}

#[test]
fn init_step_fixes_the_start_once() {
    let mut fade = Animation::create_fade_out_in();
    fade.init_step(120);
    assert_eq!(fade.start_step, 120);
    fade.init_step(300);
    assert_eq!(fade.start_step, 120);
    assert_eq!(fade.get_step_gap(300), 180);
}

#[test]
fn a_fade_blocks_for_half_its_span_and_ends_after_it() {
    let mut fade = Animation::create_fade_out_in();
    let mut references = free();
    let mut message_box = MessageBox::new();
    assert!(!fade.poll(&mut references, &mut message_box, true, 1000));
    assert_eq!(fade.start_step, 1000);
    assert!(fade.block_scene_update);
    assert!(!fade.poll(&mut references, &mut message_box, true, 1250));
    assert!(fade.block_scene_update);
    assert!(!fade.poll(&mut references, &mut message_box, true, 1251));
    assert!(!fade.block_scene_update);
    assert!(!fade.poll(&mut references, &mut message_box, true, 1500));
    assert!(fade.poll(&mut references, &mut message_box, true, 1501));
    assert_eq!(references, free());
    assert!(!message_box.visible);
}

#[test]
fn a_long_fade_takes_four_times_as_long() {
    let mut fade = Animation::create_fade_out_in_with_span(AnimationSpan::FadeOutInLong);
    let mut references = free();
    let mut message_box = MessageBox::new();
    assert!(!fade.poll(&mut references, &mut message_box, true, 0));
    assert!(!fade.poll(&mut references, &mut message_box, true, 1000));
    assert!(fade.block_scene_update);
    assert!(!fade.poll(&mut references, &mut message_box, true, 1001));
    assert!(!fade.block_scene_update);
    assert!(!fade.poll(&mut references, &mut message_box, true, 2000));
    assert!(fade.poll(&mut references, &mut message_box, true, 2001));
}

#[test]
fn blinking_never_ends() {
    let mut blink = Animation::always_blink();
    let mut references = free();
    let mut message_box = MessageBox::new();
    assert!(!blink.poll(&mut references, &mut message_box, true, 5));
    assert!(!blink.poll(&mut references, &mut message_box, true, 5_000_000));
    assert_eq!(blink.start_step, 5);
    assert!(!blink.block_scene_update);
}

#[test]
fn a_move_ends_after_its_steps() {
    let mut moving = Animation::create_move(0, 0, 40, 0);
    let mut references = free();
    let mut message_box = MessageBox::new();
    assert_eq!(MOVE_STEPS, 150);
    assert!(!moving.poll(&mut references, &mut message_box, true, 10));
    assert!(!moving.poll(&mut references, &mut message_box, true, 159));
    assert!(moving.poll(&mut references, &mut message_box, true, 160));
}

#[test]
fn a_message_claims_the_box_then_ends_once_released() {
    let mut message = Animation::create_message("開いた".to_string());
    let mut references = References { has_message: false, has_continuous_message: true };
    let mut message_box = MessageBox::new();
    message_box.line_2 = "old".to_string();
    assert!(!message.poll(&mut references, &mut message_box, true, 0));
    assert!(references.has_message);
    // A single message leaves the mark of a running message as it is.
    assert!(references.has_continuous_message);
    assert!(message_box.visible);
    assert_eq!(message_box.line_1, "開いた");
    assert_eq!(message_box.line_2, "");
    assert!(message.messages.is_empty());
    assert!(message.block_scene_update);
    // While the message is on display the animation waits.
    assert!(!message.poll(&mut references, &mut message_box, true, 16));
    assert!(message.block_scene_update);
    references.has_message = false;
    assert!(message.poll(&mut references, &mut message_box, true, 32));
    assert!(!message.block_scene_update);
    assert!(!references.has_message);
}

#[test]
fn lines_are_shown_two_at_a_time() {
    let lines: Vec<String> = ["一", "二", "三"].iter().map(|s| s.to_string()).collect();
    let mut animation = Animation::create_multi_line_messages(lines);
    let mut references = free();
    let mut message_box = MessageBox::new();
    assert!(!animation.poll(&mut references, &mut message_box, true, 0));
    assert_eq!(message_box.line_1, "一");
    assert_eq!(message_box.line_2, "二");
    assert!(message_box.continuous_mark);
    assert_eq!(references, References { has_message: true, has_continuous_message: true });
    references.has_message = false;
    assert!(!animation.poll(&mut references, &mut message_box, true, 1));
    assert_eq!(message_box.line_1, "三");
    assert_eq!(message_box.line_2, "");
    assert!(!message_box.continuous_mark);
    assert_eq!(references, References { has_message: true, has_continuous_message: false });
    references.has_message = false;
    assert!(animation.poll(&mut references, &mut message_box, true, 2));
    assert!(!animation.block_scene_update);
}

#[test]
fn an_animation_without_lines_ends_at_once() {
    let mut animation = Animation::create_multi_line_messages(vec![]);
    let mut references = free();
    let mut message_box = MessageBox::new();
    assert!(animation.poll(&mut references, &mut message_box, true, 0));
    assert!(!message_box.visible);
    assert!(!references.has_message);
}

#[test]
fn of_two_messages_the_first_claims_and_the_second_waits() {
    let mut queue = vec![
        vec![Animation::create_message("first".to_string())],
        vec![Animation::create_message("second".to_string())],
    ];
    let mut references = free();
    let mut message_box = MessageBox::new();
    let users = vec![];
    advance_animations(&mut queue, &mut references, &mut message_box, &users, 0, 0);
    assert!(references.has_message);
    assert_eq!(message_box.line_1, "first");
    assert_eq!(queue.len(), 2);
    assert!(queue[0][0].messages.is_empty());
    assert_eq!(queue[1][0].messages, vec!["second".to_string()]);
    // Frames pass; nothing changes while the first message is on display.
    advance_animations(&mut queue, &mut references, &mut message_box, &users, 0, 16);
    assert_eq!(message_box.line_1, "first");
    assert_eq!(queue[1][0].messages, vec!["second".to_string()]);
    // The display is released: the first ends, the second appears.
    references.has_message = false;
    advance_animations(&mut queue, &mut references, &mut message_box, &users, 0, 32);
    assert_eq!(queue.len(), 1);
    assert!(references.has_message);
    assert_eq!(message_box.line_1, "second");
    references.has_message = false;
    advance_animations(&mut queue, &mut references, &mut message_box, &users, 0, 48);
    assert!(queue.is_empty());
    assert!(!references.has_message);
}

#[test]
fn a_chain_runs_its_steps_one_after_the_other() {
    let mut queue = vec![vec![
        Animation::create_message("逃げ出した".to_string()),
        Animation::create_fade_out_in(),
    ]];
    let mut references = free();
    let mut message_box = MessageBox::new();
    let users = vec![];
    advance_animations(&mut queue, &mut references, &mut message_box, &users, 0, 100);
    assert_eq!(queue[0].len(), 2);
    // The fade is not polled while the message is the head.
    assert_eq!(queue[0][1].start_step, -1);
    references.has_message = false;
    advance_animations(&mut queue, &mut references, &mut message_box, &users, 0, 200);
    assert_eq!(queue[0].len(), 1);
    assert_eq!(queue[0][0].kind, AnimationKind::FadeOutIn);
    assert_eq!(queue[0][0].start_step, -1);
    advance_animations(&mut queue, &mut references, &mut message_box, &users, 0, 300);
    assert_eq!(queue[0][0].start_step, 300);
    advance_animations(&mut queue, &mut references, &mut message_box, &users, 0, 801);
    assert!(queue.is_empty());
}

#[test]
fn only_heads_hold_transitions_up() {
    let blocking_later = vec![vec![
        Animation::always_blink(),
        Animation::create_fade_out_in(),
    ]];
    assert!(!has_animation_blocking_scene_update(&blocking_later));
    let blocking_head = vec![
        vec![Animation::always_blink()],
        vec![Animation::create_fade_out_in(), Animation::always_blink()],
    ];
    assert!(has_animation_blocking_scene_update(&blocking_head));
    assert!(!has_animation_blocking_scene_update(&vec![]));
}

#[test]
fn an_emote_of_ones_own_lasts_its_span() {
    let mut animation = Animation::show_emote(emote("me", "👍"), true);
    assert!(animation.is_own_emote());
    assert_eq!(animation.args_i32, vec![1]);
    assert_eq!(animation.messages, vec!["me".to_string(), "👍".to_string()]);
    assert!(!animation.block_scene_update);
    let mut queue = vec![vec![animation]];
    let mut references = free();
    let mut message_box = MessageBox::new();
    let users = vec![];
    advance_animations(&mut queue, &mut references, &mut message_box, &users, 0, 10);
    assert_eq!(queue.len(), 1);
    advance_animations(&mut queue, &mut references, &mut message_box, &users, 0, 5010);
    assert_eq!(queue.len(), 1);
    advance_animations(&mut queue, &mut references, &mut message_box, &users, 0, 5011);
    assert!(queue.is_empty());
    animation = Animation::show_emote(emote("you", "👍"), false);
    assert!(!animation.is_own_emote());
    assert_eq!(animation.args_i32, vec![-1]);
}

#[test]
fn an_emote_of_a_player_who_is_not_on_the_map_ends_at_once() {
    let mut references = free();
    let mut message_box = MessageBox::new();
    let users = vec![report("you", 1)];
    let mut queue = vec![vec![Animation::show_emote(emote("you", "🥺"), false)]];
    advance_animations(&mut queue, &mut references, &mut message_box, &users, 0, 10);
    assert!(queue.is_empty());
    let mut queue = vec![vec![Animation::show_emote(emote("you", "🥺"), false)]];
    advance_animations(&mut queue, &mut references, &mut message_box, &users, 1, 10);
    assert_eq!(queue.len(), 1);
}

#[test]
fn users_are_found_by_name_and_map() {
    let users = vec![report("a", 0), report("b", 2)];
    assert!(is_user_on_map(&users, &"a".to_string(), 0));
    assert!(!is_user_on_map(&users, &"a".to_string(), 2));
    assert!(is_user_on_map(&users, &"b".to_string(), 2));
    assert!(!is_user_on_map(&users, &"c".to_string(), 0));
}
