//! The choice trees that the scenes use: the two commands of a battle and
//! the nested dialogs of the menu.

use crate::choice::{choices_view, clone_choices, Choice, ChoiceView};
use crate::choice_kind::{ChoiceKind, ChoiceKindView};
use crate::choice_tree::{ChoiceTree, ChoiceTreeView};
use vstd::prelude::*;

verus! {

/// The children of the root of a choice tree.
#[derive(Debug)]
pub struct ChoiceSetting {
    pub choices: Vec<Choice>,
}

/// A node with children, without label and description.
pub open spec fn plain_node(own_token: ChoiceKindView, branch: Seq<ChoiceView>) -> ChoiceView {
    ChoiceView { own_token, label: ""@, branch_description: None, branch: Some(branch) }
}

/// A node that asks for confirmation with the given question.
pub open spec fn guarded_node(
    own_token: ChoiceKindView,
    label: Seq<char>,
    question: Seq<char>,
) -> ChoiceView {
    ChoiceView {
        own_token,
        label,
        branch_description: Some(question),
        branch: Some(seq![ChoiceView::confirm()]),
    }
}

/// The two commands of a battle.
pub open spec fn battle_choices() -> Seq<ChoiceView> {
    seq![ChoiceView::leaf(ChoiceKindView::Battle), ChoiceView::leaf(ChoiceKindView::Escape)]
}

/// What can be done with an item once it was picked: use it, or drop it
/// after a confirmation.
pub open spec fn item_operation_choices() -> Seq<ChoiceView> {
    seq![
        ChoiceView::leaf(ChoiceKindView::UseItem),
        guarded_node(ChoiceKindView::DropItem, "すてる"@, "本当に捨てますか？"@),
    ]
}

/// The entries of the menu, in the order in which they are listed.
pub open spec fn menu_choices() -> Seq<ChoiceView> {
    seq![
        plain_node(
            ChoiceKindView::ItemInventory,
            seq![
                plain_node(
                    ChoiceKindView::ChoseNth("Item"@, None),
                    seq![plain_node(ChoiceKindView::ItemOperation, item_operation_choices())],
                ),
            ],
        ),
        ChoiceView::leaf(ChoiceKindView::Equip),
        plain_node(
            ChoiceKindView::Emote,
            seq![
                plain_node(
                    ChoiceKindView::ChoseNth("Emote"@, None),
                    seq![ChoiceView::leaf(ChoiceKindView::SendEmote)],
                ),
            ],
        ),
        ChoiceView::leaf(ChoiceKindView::Chat),
        guarded_node(ChoiceKindView::Save, ""@, "セーブを上書きします。よろしいですか？"@),
        guarded_node(ChoiceKindView::Title, ""@, "タイトルに戻ります。よろしいですか？"@),
        ChoiceView::leaf(ChoiceKindView::CloseMenu),
    ]
}

/// A root with the given token over the given children.
pub open spec fn root_over(own_token: ChoiceKindView, choices: Seq<ChoiceView>) -> ChoiceView {
    ChoiceView {
        own_token,
        label: own_token.choice_string(),
        branch_description: None,
        branch: Some(choices),
    }
}

/// A node with children, without label and description.
fn plain(own_token: ChoiceKind, branch: Vec<Choice>) -> (choice: Choice)
    ensures
        choice@ == plain_node(own_token@, choices_view(branch@)),
{
    Choice::with_branch(own_token, "".to_owned(), None, branch)
}

/// A node that asks for confirmation with the given question.
fn guarded(own_token: ChoiceKind, label: String, question: &str) -> (choice: Choice)
    ensures
        choice@ == guarded_node(own_token@, label@, question@),
{
    let mut branch: Vec<Choice> = Vec::new();
    branch.push(Choice::confirm_choice());
    assert(choices_view(branch@) =~= seq![ChoiceView::confirm()]);
    Choice::with_branch(own_token, label, Some(question.to_owned()), branch)
}

impl ChoiceSetting {
    /// A setting without choices.
    pub fn new() -> (setting: ChoiceSetting)
        ensures
            setting.choices@.len() == 0,
    {
        ChoiceSetting { choices: Vec::new() }
    }

    /// Moves the given choices to the end of the setting, and hands the
    /// setting back for the next call.
    pub fn add_choices(&mut self, choice: &mut Vec<Choice>) -> (setting: &mut ChoiceSetting)
        ensures
            setting.choices@ == old(self).choices@ + old(choice)@,
            *final(self) == *final(setting),
            final(choice)@.len() == 0,
    {
        self.choices.append(choice);
        self
    }

    /// The tree over these choices with a root of the given token.
    fn tree_under(&self, own_token: ChoiceKind) -> (tree: ChoiceTree)
        ensures
            tree@ == ChoiceTreeView::fresh(root_over(own_token@, choices_view(self.choices@))),
            tree@.wf(),
    {
        let label = own_token.get_choice_string();
        let root_choice = Choice::with_branch(own_token, label, None, clone_choices(&self.choices));
        ChoiceTree::new(root_choice)
    }

    /// The tree over these choices with a `Root` root.
    pub fn get_instance(&self) -> (tree: ChoiceTree)
        ensures
            tree@ == ChoiceTreeView::fresh(
                root_over(ChoiceKindView::Root, choices_view(self.choices@)),
            ),
            tree@.wf(),
    {
        self.tree_under(ChoiceKind::Root)
    }

    /// The tree of a battle: these choices under a `Root` root.
    pub fn get_battle_choice_tree(&self) -> (tree: ChoiceTree)
        ensures
            tree@ == ChoiceTreeView::fresh(
                root_over(ChoiceKindView::Root, choices_view(self.choices@)),
            ),
            tree@.wf(),
    {
        self.tree_under(ChoiceKind::Root)
    }

    /// The tree of the menu: these choices under a `Menu` root.
    pub fn get_menu_choice_tree(&self) -> (tree: ChoiceTree)
        ensures
            tree@ == ChoiceTreeView::fresh(
                root_over(ChoiceKindView::Menu, choices_view(self.choices@)),
            ),
            tree@.wf(),
    {
        self.tree_under(ChoiceKind::Menu)
    }

    /// The two commands of a battle: fight, escape.
    pub fn get_battle_setting() -> (setting: ChoiceSetting)
        ensures
            choices_view(setting.choices@) == battle_choices(),
    {
        let mut setting = ChoiceSetting::new();
        let mut choices: Vec<Choice> = Vec::new();
        choices.push(Choice::no_choice_from(ChoiceKind::Battle));
        choices.push(Choice::no_choice_from(ChoiceKind::Escape));
        setting.add_choices(&mut choices);
        assert(choices_view(setting.choices@) =~= battle_choices());
        setting
    }

    /// The entries of the menu with their nested dialogs.
    pub fn get_menu_setting() -> (setting: ChoiceSetting)
        ensures
            choices_view(setting.choices@) == menu_choices(),
    {
        let mut operations: Vec<Choice> = Vec::new();
        operations.push(Choice::no_choice_from(ChoiceKind::UseItem));
        operations.push(
            guarded(
                ChoiceKind::DropItem,
                ChoiceKind::DropItem.get_choice_string(),
                "本当に捨てますか？",
            ),
        );
        assert(choices_view(operations@) =~= item_operation_choices());
        let mut picked_item: Vec<Choice> = Vec::new();
        picked_item.push(plain(ChoiceKind::ItemOperation, operations));
        let mut inventory: Vec<Choice> = Vec::new();
        inventory.push(plain(ChoiceKind::ChoseNth("Item".to_owned(), None), picked_item));
        let mut picked_emote: Vec<Choice> = Vec::new();
        picked_emote.push(Choice::no_choice_from(ChoiceKind::SendEmote));
        let mut emotes: Vec<Choice> = Vec::new();
        emotes.push(plain(ChoiceKind::ChoseNth("Emote".to_owned(), None), picked_emote));
        proof {
            assert(choices_view(picked_item@) =~= seq![
                plain_node(ChoiceKindView::ItemOperation, item_operation_choices()),
            ]);
            assert(choices_view(picked_emote@) =~= seq![
                ChoiceView::leaf(ChoiceKindView::SendEmote),
            ]);
            assert(choices_view(inventory@) =~= menu_choices()[0].branch->0);
            assert(choices_view(emotes@) =~= menu_choices()[2].branch->0);
        }
        let mut choices: Vec<Choice> = Vec::new();
        choices.push(plain(ChoiceKind::ItemInventory, inventory));
        choices.push(Choice::no_choice_from(ChoiceKind::Equip));
        choices.push(plain(ChoiceKind::Emote, emotes));
        choices.push(Choice::no_choice_from(ChoiceKind::Chat));
        choices.push(
            guarded(ChoiceKind::Save, "".to_owned(), "セーブを上書きします。よろしいですか？"),
        );
        choices.push(
            guarded(ChoiceKind::Title, "".to_owned(), "タイトルに戻ります。よろしいですか？"),
        );
        choices.push(Choice::no_choice_from(ChoiceKind::CloseMenu));
        let mut setting = ChoiceSetting::new();
        setting.add_choices(&mut choices);
        proof {
            reveal_strlit("すてる");
            assert(ChoiceKindView::DropItem.choice_string() == "すてる"@);
            assert(choices_view(setting.choices@) =~= menu_choices());
        }
        setting
    }
}

} // verus!
