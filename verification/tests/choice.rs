use svg_quest::choice::Choice;
use svg_quest::choice_kind::ChoiceKind;
use svg_quest::choice_setting::ChoiceSetting;
use svg_quest::choice_tree::ChoiceTree;

fn menu_tree() -> ChoiceTree {
    ChoiceSetting::get_menu_setting().get_menu_choice_tree()
}

fn same_choice(a: &Choice, b: &Choice) -> bool {
    if !a.own_token.same_as(&b.own_token) || a.label != b.label {
        return false;
    }
    if a.branch_description != b.branch_description {
        return false;
    }
    match (&a.branch, &b.branch) {
        (None, None) => true,
        (Some(x), Some(y)) => {
            x.len() == y.len() && x.iter().zip(y.iter()).all(|(p, q)| same_choice(p, q))
        }
        _ => false,
    }
}

fn same_tree(a: &ChoiceTree, b: &ChoiceTree) -> bool {
    a.chose_kinds.len() == b.chose_kinds.len()
        && a.chose_kinds.iter().zip(b.chose_kinds.iter()).all(|(p, q)| p.same_as(q))
        && a.choice_list == b.choice_list
        && a.choice_indexes == b.choice_indexes
        && same_choice(&a.now_choice, &b.now_choice)
        && same_choice(&a.root_choice, &b.root_choice)
}

#[test]
fn choice_strings() {
    assert_eq!(ChoiceKind::UseItem.get_choice_string(), "つかう");
    assert_eq!(ChoiceKind::DropItem.get_choice_string(), "すてる");
    assert_eq!(ChoiceKind::Yes.get_choice_string(), "はい");
    assert_eq!(ChoiceKind::No.get_choice_string(), "いいえ");
    assert_eq!(ChoiceKind::Battle.get_choice_string(), "たたかう");
    assert_eq!(ChoiceKind::Escape.get_choice_string(), "にげる");
    assert_eq!(ChoiceKind::Special.get_choice_string(), "とくぎ");
    assert_eq!(ChoiceKind::ItemInventory.get_choice_string(), "どうぐ");
    assert_eq!(ChoiceKind::Spell.get_choice_string(), "じゅもん");
    assert_eq!(ChoiceKind::Equip.get_choice_string(), "そうび");
    assert_eq!(ChoiceKind::Save.get_choice_string(), "セーブ");
    assert_eq!(ChoiceKind::Title.get_choice_string(), "タイトル");
    assert_eq!(ChoiceKind::CloseMenu.get_choice_string(), "とじる");
    assert_eq!(ChoiceKind::Emote.get_choice_string(), "エモート");
    assert_eq!(ChoiceKind::Chat.get_choice_string(), "チャット");
    assert_eq!(ChoiceKind::Root.get_choice_string(), "");
    assert_eq!(ChoiceKind::Menu.get_choice_string(), "");
    assert_eq!(ChoiceKind::Confirm.get_choice_string(), "");
    assert_eq!(ChoiceKind::Nth("x".to_string()).get_choice_string(), "");
    assert_eq!(ChoiceKind::ChoseNth("x".to_string(), Some(1)).get_choice_string(), "");
}

#[test]
fn tokens_compare_by_tag_and_index() {
    let a = ChoiceKind::ChoseNth("Item".to_string(), Some(2));
    assert!(a.same_as(&ChoiceKind::ChoseNth("Item".to_string(), Some(2))));
    assert!(!a.same_as(&ChoiceKind::ChoseNth("Item".to_string(), Some(3))));
    assert!(!a.same_as(&ChoiceKind::ChoseNth("Item".to_string(), None)));
    assert!(!a.same_as(&ChoiceKind::ChoseNth("Emote".to_string(), Some(2))));
    assert!(!a.same_as(&ChoiceKind::Nth("Item".to_string())));
    assert!(ChoiceKind::Menu.same_as(&ChoiceKind::Menu));
    assert!(!ChoiceKind::Menu.same_as(&ChoiceKind::Root));
}

#[test]
fn confirm_choice_offers_decide_and_undo() {
    let confirm = Choice::confirm_choice();
    assert!(confirm.own_token.same_as(&ChoiceKind::Confirm));
    assert_eq!(confirm.label, "");
    assert_eq!(confirm.get_branch_labels(), vec!["はい".to_string(), "いいえ".to_string()]);
    let branch = confirm.branch.unwrap();
    assert!(branch[0].own_token.same_as(&ChoiceKind::Decide));
    assert!(branch[1].own_token.same_as(&ChoiceKind::Undo));
    assert!(branch[0].branch.is_none());
}

#[test]
fn leaf_is_labelled_by_its_token() {
    let leaf = Choice::no_choice_from(ChoiceKind::Escape);
    assert_eq!(leaf.label, "にげる");
    assert!(leaf.branch.is_none());
    assert!(leaf.branch_description.is_none());
    assert!(leaf.get_branch_labels().is_empty());
}

#[test]
fn label_or_token_string_prefers_the_label() {
    let labelled = Choice::no_choice_from_with_label(ChoiceKind::Save, "書く".to_string());
    assert_eq!(labelled.label_or_token_string(), "書く");
    let bare = Choice::no_choice_from_with_label(ChoiceKind::Save, "".to_string());
    assert_eq!(bare.label_or_token_string(), "セーブ");
}

#[test]
fn battle_tree_has_two_commands_under_a_root() {
    let tree = ChoiceSetting::get_battle_setting().get_battle_choice_tree();
    assert!(tree.get_now().same_as(&ChoiceKind::Root));
    assert_eq!(
        tree.now_choice.get_branch_labels(),
        vec!["たたかう".to_string(), "にげる".to_string()]
    );
    assert!(tree.choice_indexes.is_empty());
    assert!(tree.chose_kinds.is_empty());
}

#[test]
fn get_instance_puts_the_choices_under_a_root() {
    let tree = ChoiceSetting::get_battle_setting().get_instance();
    assert!(tree.get_now().same_as(&ChoiceKind::Root));
    assert_eq!(tree.root_choice.branch.as_ref().unwrap().len(), 2);
}

#[test]
fn menu_tree_lists_its_entries() {
    let tree = menu_tree();
    assert!(tree.get_now().same_as(&ChoiceKind::Menu));
    let labels: Vec<String> = [
        "どうぐ", "そうび", "エモート", "チャット", "セーブ", "タイトル", "とじる",
    ]
    .iter()
    .map(|s| s.to_string())
    .collect();
    assert_eq!(tree.now_choice.get_branch_labels(), labels);
    let save = &tree.root_choice.branch.as_ref().unwrap()[4];
    assert_eq!(
        save.branch_description,
        Some("セーブを上書きします。よろしいですか？".to_string())
    );
    let title = &tree.root_choice.branch.as_ref().unwrap()[5];
    assert_eq!(
        title.branch_description,
        Some("タイトルに戻ります。よろしいですか？".to_string())
    );
}

#[test]
fn add_choices_moves_the_choices() {
    let mut setting = ChoiceSetting::new();
    let mut more = vec![Choice::no_choice_from(ChoiceKind::Yes)];
    setting
        .add_choices(&mut more)
        .add_choices(&mut vec![Choice::no_choice_from(ChoiceKind::No)]);
    assert!(more.is_empty());
    assert_eq!(setting.choices.len(), 2);
    assert!(setting.choices[0].own_token.same_as(&ChoiceKind::Yes));
    assert!(setting.choices[1].own_token.same_as(&ChoiceKind::No));
}

#[test]
fn choosing_descends_and_records_the_path() {
    let mut tree = menu_tree();
    tree.choose_index(4);
    assert!(tree.get_now().same_as(&ChoiceKind::Save));
    assert_eq!(tree.choice_indexes, vec![4]);
    assert_eq!(tree.chose_kinds.len(), 1);
    assert!(tree.chose_kinds[0].same_as(&ChoiceKind::Menu));
    tree.choose_index(0);
    assert!(tree.get_now().same_as(&ChoiceKind::Confirm));
    tree.choose_index(1);
    assert!(tree.get_now().same_as(&ChoiceKind::Undo));
    assert_eq!(tree.choice_indexes, vec![4, 0, 1]);
}

#[test]
fn an_index_chosen_in_the_inventory_is_data() {
    let mut tree = menu_tree();
    tree.choose_index(0);
    assert!(tree.get_now().same_as(&ChoiceKind::ItemInventory));
    // The inventory has a single child; the index picked is recorded in it.
    tree.choose_index(5);
    assert!(tree.get_now().same_as(&ChoiceKind::ChoseNth("Item".to_string(), Some(5))));
    assert_eq!(tree.choice_indexes, vec![0, 5]);
    // A `ChoseNth` node passes every index on to its single child.
    tree.choose_index(9);
    assert!(tree.get_now().same_as(&ChoiceKind::ItemOperation));
    tree.choose_index(1);
    assert!(tree.get_now().same_as(&ChoiceKind::DropItem));
    assert_eq!(tree.get_chose_nth(), Some(5));
    // The root is not touched by the record.
    let inventory = &tree.root_choice.branch.as_ref().unwrap()[0];
    assert!(inventory.branch.as_ref().unwrap()[0]
        .own_token
        .same_as(&ChoiceKind::ChoseNth("Item".to_string(), None)));
}

#[test]
fn an_index_chosen_among_the_emotes_is_data() {
    let mut tree = menu_tree();
    tree.choose_index(2);
    tree.choose_index(7);
    assert!(tree.get_now().same_as(&ChoiceKind::ChoseNth("Emote".to_string(), Some(7))));
    tree.choose_index(0);
    assert!(tree.get_now().same_as(&ChoiceKind::SendEmote));
    assert_eq!(tree.get_chose_nth(), Some(7));
}

#[test]
fn no_index_was_picked_at_the_root() {
    let tree = menu_tree();
    assert_eq!(tree.get_chose_nth(), None);
}

#[test]
fn can_choose_tells_what_choose_accepts() {
    let mut tree = menu_tree();
    assert!(tree.can_choose(6));
    assert!(!tree.can_choose(7));
    tree.choose_index(1);
    assert!(!tree.can_choose(0));
    tree.undo();
    tree.choose_index(0);
    assert!(tree.can_choose(1000));
}

#[test]
fn undo_at_the_root_does_nothing() {
    let mut tree = menu_tree();
    tree.undo();
    assert!(same_tree(&tree, &menu_tree()));
}

#[test]
fn undo_steps_back_by_one_choice() {
    let mut tree = menu_tree();
    tree.choose_index(0);
    tree.choose_index(3);
    tree.choose_index(0);
    tree.undo();
    assert_eq!(tree.choice_indexes, vec![0, 3]);
    assert!(tree.get_now().same_as(&ChoiceKind::ChoseNth("Item".to_string(), Some(3))));
    assert_eq!(tree.chose_kinds.len(), 2);
    tree.undo();
    assert!(tree.get_now().same_as(&ChoiceKind::ItemInventory));
    assert_eq!(tree.choice_indexes, vec![0]);
}

#[test]
fn undoing_every_choice_restores_a_fresh_tree() {
    let paths: Vec<Vec<usize>> = vec![
        vec![6],
        vec![4, 0, 0],
        vec![0, 2, 0, 1, 0, 1],
        vec![2, 9, 0],
        vec![5, 0],
    ];
    for path in paths {
        let mut tree = menu_tree();
        for index in path.iter() {
            tree.choose_index(*index);
        }
        assert_eq!(tree.choice_indexes, path);
        for _ in 0..path.len() {
            tree.undo();
        }
        assert!(same_tree(&tree, &menu_tree()));
    }
}

#[test]
fn path_length_counts_choices_less_undos() {
    let mut tree = menu_tree();
    tree.choose_index(0);
    tree.choose_index(1);
    tree.choose_index(0);
    tree.undo();
    tree.choose_index(0);
    tree.choose_index(0);
    tree.undo();
    tree.undo();
    assert_eq!(tree.choice_indexes.len(), 5 - 3);
}

#[test]
fn reset_returns_to_the_root() {
    let mut tree = menu_tree();
    tree.choose_index(2);
    tree.choose_index(1);
    tree.choice_list.push(vec!["x".to_string()]);
    tree.reset();
    assert!(same_tree(&tree, &menu_tree()));
}

#[test]
fn clone_copies_the_whole_node() {
    let tree = menu_tree();
    let copy = tree.root_choice.clone();
    assert!(same_choice(&copy, &tree.root_choice));
}
