use svg_quest::choice_kind::ChoiceKind;
use svg_quest::choice_setting::ChoiceSetting;
use svg_quest::cursor::Cursor;
use svg_quest::input::Input;
use svg_quest::renderer::{RendererController, SvgRenderer};
use svg_quest::text::decimal_text;

fn controller() -> RendererController {
    RendererController {
        renderers: vec![
            SvgRenderer::new(ChoiceKind::Menu, "menu".to_string(), 45),
            SvgRenderer::new(ChoiceKind::ItemInventory, "menu-inventory".to_string(), 45),
            SvgRenderer::new(ChoiceKind::ItemOperation, "menu-item-operation".to_string(), 50),
            SvgRenderer::new(ChoiceKind::Confirm, "menu-common-confirm".to_string(), 50),
        ],
        choice_tree: ChoiceSetting::get_menu_setting().get_menu_choice_tree(),
        confirm_index: Some(3),
    }
}

fn names(list: &[&str]) -> Vec<String> {
    list.iter().map(|s| s.to_string()).collect()
}

#[test]
fn a_new_cursor_marks_the_first_entry() {
    let cursor = Cursor::new(3, 60);
    assert_eq!(cursor.chose_index, 0);
    assert_eq!(cursor.choice_length, 3);
    assert_eq!(cursor.x_length, 1);
    assert_eq!(cursor.step_length, 60);
}

#[test]
fn a_list_cursor_moves_up_and_down_and_wraps() {
    let mut cursor = Cursor::new(3, 60);
    cursor.consume(Input::ArrowDown);
    assert_eq!(cursor.chose_index, 1);
    cursor.consume(Input::ArrowDown);
    assert_eq!(cursor.chose_index, 2);
    cursor.consume(Input::ArrowDown);
    assert_eq!(cursor.chose_index, 0);
    cursor.consume(Input::ArrowUp);
    assert_eq!(cursor.chose_index, 2);
    cursor.consume(Input::ArrowUp);
    assert_eq!(cursor.chose_index, 1);
}

#[test]
fn a_list_cursor_ignores_everything_else() {
    let mut cursor = Cursor::new(3, 60);
    cursor.consume(Input::ArrowDown);
    for input in [Input::ArrowLeft, Input::ArrowRight, Input::Enter, Input::Cancel, Input::NoInput] {
        cursor.consume(input);
        assert_eq!(cursor.chose_index, 1);
    }
}

#[test]
fn a_cursor_without_entries_stays_put() {
    let mut cursor = Cursor::new(0, 45);
    cursor.consume(Input::ArrowDown);
    cursor.consume(Input::ArrowUp);
    assert_eq!(cursor.chose_index, 0);
    let mut single = Cursor::new(1, 45);
    single.consume(Input::ArrowDown);
    assert_eq!(single.chose_index, 0);
}

#[test]
fn a_grid_cursor_moves_in_rows_and_columns() {
    let mut cursor = Cursor::new(10, 45);
    cursor.set_box_length(5, 2);
    assert_eq!((cursor.x_length, cursor.y_length), (5, 2));
    cursor.consume(Input::ArrowRight);
    assert_eq!(cursor.chose_index, 1);
    cursor.consume(Input::ArrowDown);
    assert_eq!(cursor.chose_index, 6);
    cursor.consume(Input::ArrowDown);
    assert_eq!(cursor.chose_index, 1);
    cursor.consume(Input::ArrowUp);
    assert_eq!(cursor.chose_index, 6);
    cursor.consume(Input::ArrowLeft);
    assert_eq!(cursor.chose_index, 5);
    cursor.consume(Input::ArrowLeft);
    assert_eq!(cursor.chose_index, 4);
    let mut last = Cursor::new(10, 45);
    last.set_box_length(5, 2);
    last.consume(Input::ArrowLeft);
    assert_eq!(last.chose_index, 9);
    last.consume(Input::ArrowRight);
    assert_eq!(last.chose_index, 0);
}

#[test]
fn reset_and_length() {
    let mut cursor = Cursor::new(4, 45);
    cursor.consume(Input::ArrowUp);
    assert_eq!(cursor.chose_index, 3);
    cursor.update_choice_length(5);
    assert_eq!(cursor.chose_index, 3);
    assert_eq!(cursor.choice_length, 5);
    cursor.update_choice_length(3);
    assert_eq!(cursor.chose_index, 0);
    cursor.consume(Input::ArrowDown);
    cursor.reset();
    assert_eq!(cursor.chose_index, 0);
    assert_eq!(cursor.choice_length, 3);
}

#[test]
fn a_renderer_shows_and_closes() {
    let mut renderer = SvgRenderer::new(ChoiceKind::Menu, "menu".to_string(), 45);
    assert!(!renderer.visible);
    assert_eq!(renderer.target_id, "menu");
    assert_eq!(renderer.cursor.choice_length, 0);
    renderer.render(names(&["a", "b"]), "which".to_string());
    assert!(renderer.visible);
    assert_eq!(renderer.labels, names(&["a", "b"]));
    assert_eq!(renderer.description, "which");
    assert_eq!(renderer.cursor.choice_length, 2);
    renderer.cursor.consume(Input::ArrowDown);
    renderer.close();
    assert!(!renderer.visible);
    assert_eq!(renderer.cursor.chose_index, 0);
    assert_eq!(renderer.labels, names(&["a", "b"]));
}

#[test]
fn the_first_list_shows_the_entries_of_the_root() {
    let mut controller = controller();
    assert_eq!(controller.active_renderer(), Some(0));
    controller.initial_render();
    assert!(controller.renderers[0].visible);
    assert_eq!(controller.renderers[0].labels.len(), 7);
    assert_eq!(controller.renderers[0].labels[0], "どうぐ");
    assert_eq!(controller.renderers[0].cursor.choice_length, 7);
    assert_eq!(controller.renderers[0].description, "");
}

#[test]
fn arrows_go_to_the_list_on_display() {
    let mut controller = controller();
    controller.initial_render();
    controller.delegate_input(Input::ArrowDown);
    controller.delegate_input(Input::ArrowDown);
    assert_eq!(controller.renderers[0].cursor.chose_index, 2);
    assert_eq!(controller.renderers[1].cursor.chose_index, 0);
}

#[test]
fn enter_descends_where_the_cursor_stands() {
    let mut controller = controller();
    controller.initial_render();
    controller.delegate_input(Input::ArrowDown);
    controller.delegate_enter();
    assert!(controller.now_choice_kind().same_as(&ChoiceKind::Equip));
    assert_eq!(controller.choice_tree.choice_indexes, vec![1]);
    // A leaf has no list of its own.
    assert_eq!(controller.active_renderer(), None);
    controller.delegate_enter();
    assert_eq!(controller.choice_tree.choice_indexes, vec![1]);
}

#[test]
fn enter_passes_through_the_record_of_a_pick() {
    let mut controller = controller();
    controller.initial_render();
    controller.delegate_enter();
    assert!(controller.now_choice_kind().same_as(&ChoiceKind::ItemInventory));
    controller.render_with(names(&["薬草", "棍棒", "最初の鍵"]), "".to_string());
    assert_eq!(controller.renderers[1].cursor.choice_length, 3);
    controller.delegate_input(Input::ArrowDown);
    controller.delegate_input(Input::ArrowDown);
    controller.delegate_enter();
    assert!(controller.now_choice_kind().same_as(&ChoiceKind::ItemOperation));
    assert_eq!(controller.choice_tree.choice_indexes, vec![0, 2, 0]);
    assert_eq!(controller.get_chose_nth(), Some(2));
}

#[test]
fn closing_hides_the_list_and_steps_back() {
    let mut controller = controller();
    controller.initial_render();
    controller.delegate_enter();
    controller.render_with(names(&["薬草"]), "".to_string());
    controller.delegate_close();
    assert!(!controller.renderers[1].visible);
    assert!(controller.renderers[0].visible);
    assert!(controller.now_choice_kind().same_as(&ChoiceKind::Menu));
}

#[test]
fn a_confirmation_is_shown_with_its_question() {
    let mut controller = controller();
    controller.initial_render();
    for _ in 0..4 {
        controller.delegate_input(Input::ArrowDown);
    }
    controller.delegate_enter();
    assert!(controller.now_choice_kind().same_as(&ChoiceKind::Save));
    controller.delegate_confirm();
    assert!(controller.now_choice_kind().same_as(&ChoiceKind::Confirm));
    assert!(controller.renderers[3].visible);
    assert_eq!(controller.renderers[3].labels, names(&["はい", "いいえ"]));
    assert_eq!(controller.renderers[3].description, "セーブを上書きします。よろしいですか？");
    assert_eq!(controller.choice_tree.choice_indexes, vec![4, 0]);
}

#[test]
fn without_a_list_for_confirmations_nothing_is_asked() {
    let mut controller = controller();
    controller.confirm_index = None;
    controller.initial_render();
    for _ in 0..4 {
        controller.delegate_input(Input::ArrowDown);
    }
    controller.delegate_enter();
    controller.delegate_confirm();
    assert!(controller.now_choice_kind().same_as(&ChoiceKind::Save));
    controller.confirm_index = Some(9);
    controller.delegate_confirm();
    assert!(controller.now_choice_kind().same_as(&ChoiceKind::Save));
}

#[test]
fn close_all_hides_everything_and_returns_to_the_root() {
    let mut controller = controller();
    controller.initial_render();
    controller.delegate_enter();
    controller.render_with(names(&["薬草"]), "".to_string());
    controller.close_all();
    assert!(controller.renderers.iter().all(|r| !r.visible));
    assert!(controller.renderers.iter().all(|r| r.cursor.chose_index == 0));
    assert!(controller.now_choice_kind().same_as(&ChoiceKind::Menu));
    assert!(controller.choice_tree.choice_indexes.is_empty());
}

#[test]
fn undo_steps_the_tree_back() {
    let mut controller = controller();
    controller.initial_render();
    controller.delegate_enter();
    controller.undo_choice_tree();
    assert!(controller.now_choice_kind().same_as(&ChoiceKind::Menu));
    assert!(controller.renderers[0].visible);
}

#[test]
fn numbers_as_decimal_text() {
    assert_eq!(decimal_text(0), "0");
    assert_eq!(decimal_text(7), "7");
    assert_eq!(decimal_text(10), "10");
    assert_eq!(decimal_text(409), "409");
    assert_eq!(decimal_text(12345), "12345");
    assert_eq!(decimal_text(65535), "65535");
}
