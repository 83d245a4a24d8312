//! Choice trees: labelled nodes that a player descends into and backs out
//! of, with the whole path kept so that every state can be replayed from
//! the root.

use crate::choice_kind::{ChoiceKind, ChoiceKindView};
use crate::text::{clone_optional_text, optional_text_view, texts_view};
use vstd::prelude::*;

verus! {

/// One node of a choice tree.
#[derive(Debug)]
pub struct Choice {
    pub own_token: ChoiceKind,
    pub label: String,
    pub branch_description: Option<String>,
    pub branch: Option<Vec<Choice>>,
}

/// Mathematical value of a `Choice`.
pub struct ChoiceView {
    pub own_token: ChoiceKindView,
    pub label: Seq<char>,
    pub branch_description: Option<Seq<char>>,
    pub branch: Option<Seq<ChoiceView>>,
}

/// Views of a sequence of choices, element by element.
pub open spec fn choices_view(choices: Seq<Choice>) -> Seq<ChoiceView> {
    choices.map_values(|c: Choice| c@)
}

/// The value of a node: its own texts and the values of its children.
pub open spec fn choice_view(choice: Choice) -> ChoiceView
    decreases choice,
{
    ChoiceView {
        own_token: choice.own_token@,
        label: choice.label@,
        branch_description: optional_text_view(choice.branch_description),
        branch: match choice.branch {
            Some(children) => Some(
                Seq::new(
                    children.len() as nat,
                    |i: int|
                        if 0 <= i < children.len() {
                            choice_view(children[i])
                        } else {
                            arbitrary()
                        },
                ),
            ),
            None => None,
        },
    }
}

impl View for Choice {
    type V = ChoiceView;

    open spec fn view(&self) -> ChoiceView {
        choice_view(*self)
    }
}

impl Choice {
    /// The view of a node with children is the views of its children.
    pub proof fn lemma_view_branch(&self)
        ensures
            self.branch matches Some(children) ==> self@.branch == Some(choices_view(children@)),
            self.branch is None ==> self@.branch is None,
    {
        if let Some(children) = self.branch {
            let viewed = self@.branch->0;
            assert(viewed.len() == children@.len());
            assert forall|i: int| 0 <= i < viewed.len() implies viewed[i] == choices_view(
                children@,
            )[i] by {
                assert(children[i] == children@[i]);
            }
            assert(viewed =~= choices_view(children@));
        }
    }
}

impl ChoiceView {
    /// The text listed for a node: its label, or the label of its token
    /// where it has none of its own.
    pub open spec fn label_or_token(self) -> Seq<char> {
        if self.label.len() == 0 {
            self.own_token.choice_string()
        } else {
            self.label
        }
    }

    /// The texts listed for the children of a node, in order.
    pub open spec fn branch_labels(self) -> Seq<Seq<char>> {
        match self.branch {
            Some(children) => children.map_values(|c: ChoiceView| c.label_or_token()),
            None => Seq::empty(),
        }
    }

    /// A node without children, labelled by its token.
    pub open spec fn leaf(own_token: ChoiceKindView) -> ChoiceView {
        ChoiceView {
            own_token,
            label: own_token.choice_string(),
            branch_description: None,
            branch: None,
        }
    }

    /// A node without children and with a label of its own.
    pub open spec fn labelled_leaf(own_token: ChoiceKindView, label: Seq<char>) -> ChoiceView {
        ChoiceView { own_token, label, branch_description: None, branch: None }
    }

    /// The yes/no question that guards a destructive action.
    pub open spec fn confirm() -> ChoiceView {
        ChoiceView {
            own_token: ChoiceKindView::Confirm,
            label: ""@,
            branch_description: None,
            branch: Some(
                seq![
                    ChoiceView::labelled_leaf(ChoiceKindView::Decide, "はい"@),
                    ChoiceView::labelled_leaf(ChoiceKindView::Undo, "いいえ"@),
                ],
            ),
        }
    }

    /// The child position that a choice of `index` leads to: position 0
    /// where the index is data, the index itself otherwise.
    pub open spec fn effective_index(self, index: usize) -> int {
        if self.own_token.index_is_data() {
            0
        } else {
            index as int
        }
    }

    /// Whether `index` can be chosen at this node.
    pub open spec fn can_choose(self, index: usize) -> bool {
        self.branch matches Some(children) && self.effective_index(index) < children.len()
    }

    /// The node reached by choosing `index`: the child at the effective
    /// position, with the index recorded in its token where that token is
    /// `ChoseNth`.
    pub open spec fn child(self, index: usize) -> ChoiceView {
        let reached = self.branch->0[self.effective_index(index)];
        match reached.own_token {
            ChoiceKindView::ChoseNth(tag, _) => ChoiceView {
                own_token: ChoiceKindView::ChoseNth(tag, Some(index)),
                ..reached
            },
            _ => reached,
        }
    }
}

/// An owned copy of a list of choices.
pub fn clone_choices(choices: &Vec<Choice>) -> (copy: Vec<Choice>)
    ensures
        choices_view(copy@) == choices_view(choices@),
    decreases choices,
{
    let mut copy: Vec<Choice> = Vec::new();
    let mut i: usize = 0;
    while i < choices.len()
        invariant
            i <= choices.len(),
            copy@.len() == i,
            forall|j: int| 0 <= j < i ==> copy@[j]@ == choices@[j]@,
        decreases choices.len() - i,
    {
        copy.push(choices[i].clone());
        i += 1;
    }
    assert(choices_view(copy@) =~= choices_view(choices@));
    copy
}

impl Clone for Choice {
    fn clone(&self) -> (copy: Self)
        ensures
            copy@ == self@,
        decreases self,
    {
        let branch = match &self.branch {
            Some(children) => Some(clone_choices(children)),
            None => None,
        };
        let copy = Choice {
            own_token: self.own_token.clone(),
            label: self.label.clone(),
            branch_description: clone_optional_text(&self.branch_description),
            branch,
        };
        proof {
            self.lemma_view_branch();
            copy.lemma_view_branch();
        }
        copy
    }
}

impl Choice {
    /// The yes/no question that guards a destructive action.
    pub fn confirm_choice() -> (choice: Choice)
        ensures
            choice@ == ChoiceView::confirm(),
    {
        let mut answers: Vec<Choice> = Vec::new();
        answers.push(Choice::no_choice_from_with_label(ChoiceKind::Decide, "はい".to_owned()));
        answers.push(Choice::no_choice_from_with_label(ChoiceKind::Undo, "いいえ".to_owned()));
        let choice = Choice {
            label: ChoiceKind::Confirm.get_choice_string(),
            own_token: ChoiceKind::Confirm,
            branch_description: None,
            branch: Some(answers),
        };
        proof {
            choice.lemma_view_branch();
            assert(choices_view(answers@) =~= ChoiceView::confirm().branch->0);
        }
        choice
    }

    /// A node with the given children.
    pub fn with_branch(
        own_token: ChoiceKind,
        label: String,
        branch_description: Option<String>,
        branch: Vec<Choice>,
    ) -> (choice: Choice)
        ensures
            choice@ == (ChoiceView {
                own_token: own_token@,
                label: label@,
                branch_description: optional_text_view(branch_description),
                branch: Some(choices_view(branch@)),
            }),
    {
        let choice = Choice { own_token, label, branch_description, branch: Some(branch) };
        proof {
            choice.lemma_view_branch();
        }
        choice
    }

    /// A node without children, labelled by its token.
    pub fn no_choice_from(own_token: ChoiceKind) -> (choice: Choice)
        ensures
            choice@ == ChoiceView::leaf(own_token@),
    {
        Choice {
            label: own_token.get_choice_string(),
            own_token,
            branch_description: None,
            branch: None,
        }
    }

    /// A node without children and with a label of its own.
    pub fn no_choice_from_with_label(own_token: ChoiceKind, label: String) -> (choice: Choice)
        ensures
            choice@ == ChoiceView::labelled_leaf(own_token@, label@),
    {
        Choice { label, own_token, branch_description: None, branch: None }
    }

    /// The text listed for this node.
    pub fn label_or_token_string(&self) -> (text: String)
        ensures
            text@ == self@.label_or_token(),
    {
        if self.label.as_str().unicode_len() == 0 {
            self.own_token.get_choice_string()
        } else {
            self.label.clone()
        }
    }

    /// The texts listed for the children of this node, in order; none for a
    /// node without children.
    pub fn get_branch_labels(&self) -> (labels: Vec<String>)
        ensures
            texts_view(labels@) == self@.branch_labels(),
    {
        let mut labels: Vec<String> = Vec::new();
        proof {
            self.lemma_view_branch();
        }
        if let Some(children) = &self.branch {
            let mut i: usize = 0;
            while i < children.len()
                invariant
                    i <= children.len(),
                    labels@.len() == i,
                    forall|j: int| 0 <= j < i ==> labels@[j]@ == children@[j]@.label_or_token(),
                decreases children.len() - i,
            {
                labels.push(children[i].label_or_token_string());
                i += 1;
            }
            assert(texts_view(labels@) =~= self@.branch_labels());
        } else {
            assert(texts_view(labels@) =~= self@.branch_labels());
        }
        labels
    }
}

} // verus!
