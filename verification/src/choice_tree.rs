//! The traversal state of a choice tree: where the player stands, and the
//! path of indices that led there.

use crate::choice::{Choice, ChoiceView};
use crate::choice_kind::{ChoiceKind, ChoiceKindView};
use crate::text::texts_view;
use vstd::prelude::*;

verus! {

/// A choice tree under traversal.
///
/// `choice_indexes` is the path from the root, `chose_kinds` the token of
/// each node passed on the way, `now_choice` the node reached. The root is
/// never changed.
#[derive(Debug)]
pub struct ChoiceTree {
    pub chose_kinds: Vec<ChoiceKind>,
    pub choice_list: Vec<Vec<String>>,
    pub now_choice: Choice,
    pub choice_indexes: Vec<usize>,
    pub root_choice: Choice,
}

/// Mathematical value of a `ChoiceTree`.
pub struct ChoiceTreeView {
    pub chose_kinds: Seq<ChoiceKindView>,
    pub choice_list: Seq<Seq<Seq<char>>>,
    pub now_choice: ChoiceView,
    pub choice_indexes: Seq<usize>,
    pub root_choice: ChoiceView,
}

/// Views of a sequence of tokens, element by element.
pub open spec fn kinds_view(kinds: Seq<ChoiceKind>) -> Seq<ChoiceKindView> {
    kinds.map_values(|k: ChoiceKind| k@)
}

impl View for ChoiceTree {
    type V = ChoiceTreeView;

    open spec fn view(&self) -> ChoiceTreeView {
        ChoiceTreeView {
            chose_kinds: kinds_view(self.chose_kinds@),
            choice_list: self.choice_list@.map_values(|l: Vec<String>| texts_view(l@)),
            now_choice: self.now_choice@,
            choice_indexes: self.choice_indexes@,
            root_choice: self.root_choice@,
        }
    }
}

impl ChoiceTreeView {
    /// The tree as it is before any choice: at the root, with an empty path.
    pub open spec fn fresh(root: ChoiceView) -> ChoiceTreeView {
        ChoiceTreeView {
            chose_kinds: Seq::empty(),
            choice_list: Seq::empty(),
            now_choice: root,
            choice_indexes: Seq::empty(),
            root_choice: root,
        }
    }

    /// Whether `index` can be chosen where the tree stands.
    pub open spec fn can_choose(self, index: usize) -> bool {
        self.now_choice.can_choose(index)
    }

    /// The tree after `index` was chosen: the index joins the path, the token
    /// of the node left joins the breadcrumb, and the tree stands at the child.
    pub open spec fn choose_index(self, index: usize) -> ChoiceTreeView {
        ChoiceTreeView {
            chose_kinds: self.chose_kinds.push(self.now_choice.own_token),
            now_choice: self.now_choice.child(index),
            choice_indexes: self.choice_indexes.push(index),
            ..self
        }
    }

    /// Whether every index of `indexes` can be chosen in turn, starting here.
    pub open spec fn can_replay(self, indexes: Seq<usize>) -> bool
        decreases indexes.len(),
    {
        indexes.len() == 0 || (self.can_replay(indexes.drop_last()) && self.replay(
            indexes.drop_last(),
        ).can_choose(indexes.last()))
    }

    /// The tree after the indexes of `indexes` were chosen in turn.
    pub open spec fn replay(self, indexes: Seq<usize>) -> ChoiceTreeView
        decreases indexes.len(),
    {
        if indexes.len() == 0 {
            self
        } else {
            self.replay(indexes.drop_last()).choose_index(indexes.last())
        }
    }

    /// The tree back at its root.
    pub open spec fn reset(self) -> ChoiceTreeView {
        ChoiceTreeView::fresh(self.root_choice)
    }

    /// The tree one step back: unchanged at the root, else the root's tree
    /// replayed along the path without its last index.
    pub open spec fn undo(self) -> ChoiceTreeView {
        if self.choice_indexes.len() == 0 {
            self
        } else {
            self.reset().replay(self.choice_indexes.drop_last())
        }
    }

    /// The tree after `count` steps back.
    pub open spec fn undo_times(self, count: nat) -> ChoiceTreeView
        decreases count,
    {
        if count == 0 {
            self
        } else {
            self.undo().undo_times((count - 1) as nat)
        }
    }

    /// The invariant of a tree under traversal: the path can be replayed from
    /// the root, and the node reached and the breadcrumb are what that replay
    /// gives.
    pub open spec fn wf(self) -> bool {
        let replayed = self.reset().replay(self.choice_indexes);
        &&& self.reset().can_replay(self.choice_indexes)
        &&& self.now_choice == replayed.now_choice
        &&& self.chose_kinds == replayed.chose_kinds
    }

    /// The first index carried by a `ChoseNth` token of the breadcrumb from
    /// position `from` on, if there is one.
    pub open spec fn chose_nth_from(self, from: int) -> Option<usize>
        decreases self.chose_kinds.len() - from,
    {
        if from < 0 || from >= self.chose_kinds.len() {
            None
        } else {
            match self.chose_kinds[from] {
                ChoiceKindView::ChoseNth(_, Some(index)) => Some(index),
                _ => self.chose_nth_from(from + 1),
            }
        }
    }

    /// The first index carried by a `ChoseNth` token of the breadcrumb.
    pub open spec fn chose_nth(self) -> Option<usize> {
        self.chose_nth_from(0)
    }
}

/// Replaying a path keeps the root and the list of labels, and appends the
/// path to the one already walked.
pub proof fn lemma_replay_keeps_root(tree: ChoiceTreeView, indexes: Seq<usize>)
    ensures
        tree.replay(indexes).root_choice == tree.root_choice,
        tree.replay(indexes).choice_list == tree.choice_list,
        tree.replay(indexes).choice_indexes == tree.choice_indexes + indexes,
    decreases indexes.len(),
{
    if indexes.len() > 0 {
        lemma_replay_keeps_root(tree, indexes.drop_last());
        assert(tree.choice_indexes + indexes =~= (tree.choice_indexes
            + indexes.drop_last()).push(indexes.last()));
    } else {
        assert(tree.choice_indexes + indexes =~= tree.choice_indexes);
    }
}

/// A fresh tree meets the invariant.
pub proof fn lemma_fresh_wf(root: ChoiceView)
    ensures
        ChoiceTreeView::fresh(root).wf(),
{
}

/// Choosing an index that can be chosen keeps the invariant.
pub proof fn lemma_choose_keeps_wf(tree: ChoiceTreeView, index: usize)
    requires
        tree.wf(),
        tree.can_choose(index),
    ensures
        tree.choose_index(index).wf(),
{
    let next = tree.choose_index(index);
    let path = next.choice_indexes;
    assert(path.drop_last() =~= tree.choice_indexes);
    assert(path.last() == index);
    let start = tree.reset();
    assert(next.reset() == start);
    let before = start.replay(tree.choice_indexes);
    lemma_replay_keeps_root(start, tree.choice_indexes);
    assert(start.choice_indexes + tree.choice_indexes =~= tree.choice_indexes);
    assert(before.choice_indexes == tree.choice_indexes);
    assert(before.can_choose(index));
    assert(start.replay(path) == before.choose_index(index));
}

/// A tree that was replayed from a fresh one meets the invariant, and its
/// path is the one replayed.
pub proof fn lemma_replay_from_fresh(root: ChoiceView, indexes: Seq<usize>)
    requires
        ChoiceTreeView::fresh(root).can_replay(indexes),
    ensures
        ChoiceTreeView::fresh(root).replay(indexes).wf(),
        ChoiceTreeView::fresh(root).replay(indexes).choice_indexes == indexes,
        ChoiceTreeView::fresh(root).replay(indexes).reset() == ChoiceTreeView::fresh(root),
{
    let start = ChoiceTreeView::fresh(root);
    lemma_replay_keeps_root(start, indexes);
    assert(start.choice_indexes + indexes =~= indexes);
}

/// One step back keeps the invariant and, away from the root, shortens the
/// path by its last index.
pub proof fn lemma_undo_keeps_wf(tree: ChoiceTreeView)
    requires
        tree.wf(),
    ensures
        tree.undo().wf(),
        tree.undo().root_choice == tree.root_choice,
        tree.choice_indexes.len() > 0 ==> tree.undo().choice_indexes
            == tree.choice_indexes.drop_last(),
        tree.choice_indexes.len() == 0 ==> tree.undo() == tree,
{
    if tree.choice_indexes.len() > 0 {
        lemma_replay_from_fresh(tree.root_choice, tree.choice_indexes.drop_last());
    }
}

/// Choices undone one by one lead back to the root: after as many steps
/// back as indexes were chosen on a fresh tree, the tree equals the fresh
/// tree in every field.
pub proof fn lemma_undo_all_restores_fresh(root: ChoiceView, indexes: Seq<usize>)
    requires
        ChoiceTreeView::fresh(root).can_replay(indexes),
    ensures
        ChoiceTreeView::fresh(root).replay(indexes).undo_times(indexes.len())
            == ChoiceTreeView::fresh(root),
    decreases indexes.len(),
{
    let start = ChoiceTreeView::fresh(root);
    if indexes.len() > 0 {
        lemma_replay_from_fresh(root, indexes);
        lemma_undo_all_restores_fresh(root, indexes.drop_last());
        assert(start.replay(indexes).undo() == start.replay(indexes.drop_last()));
    }
}

/// The length of the path counts the choices made less the steps taken
/// back: each choice adds one index, each step back away from the root
/// removes one.
pub proof fn lemma_path_length(tree: ChoiceTreeView, index: usize)
    requires
        tree.wf(),
    ensures
        tree.choose_index(index).choice_indexes.len() == tree.choice_indexes.len() + 1,
        tree.choice_indexes.len() > 0 ==> tree.undo().choice_indexes.len()
            == tree.choice_indexes.len() - 1,
        tree.choice_indexes.len() == 0 ==> tree.undo().choice_indexes.len() == 0,
{
    lemma_undo_keeps_wf(tree);
}

impl ChoiceTree {
    /// A tree at its root.
    pub fn new(root_choice: Choice) -> (tree: ChoiceTree)
        ensures
            tree@ == ChoiceTreeView::fresh(root_choice@),
            tree@.wf(),
    {
        let tree = ChoiceTree {
            chose_kinds: Vec::new(),
            choice_list: Vec::new(),
            choice_indexes: Vec::new(),
            now_choice: root_choice.clone(),
            root_choice,
        };
        assert(tree@.chose_kinds =~= Seq::empty());
        assert(tree@.choice_list =~= Seq::empty());
        assert(tree@.choice_indexes =~= Seq::empty());
        tree
    }

    /// The token of the node where the tree stands.
    pub fn get_now(&self) -> (kind: ChoiceKind)
        ensures
            kind@ == self@.now_choice.own_token,
    {
        self.now_choice.own_token.clone()
    }

    /// Whether `index` can be chosen where the tree stands.
    pub fn can_choose(&self, index: usize) -> (possible: bool)
        ensures
            possible == self@.can_choose(index),
    {
        proof {
            self.now_choice.lemma_view_branch();
        }
        let effective = if self.now_choice.own_token.index_is_data() {
            0
        } else {
            index
        };
        match &self.now_choice.branch {
            Some(children) => effective < children.len(),
            None => false,
        }
    }

    /// Descends into the child that `index` selects.
    ///
    /// Where the node left is `ItemInventory`, `Emote` or `ChoseNth`, the
    /// child is the single one at position 0, and the index is recorded in
    /// its token if that token is `ChoseNth`. An index that cannot be chosen
    /// is a defect of the caller and is left out by the precondition.
    pub fn choose_index(&mut self, index: usize)
        requires
            old(self)@.can_choose(index),
        ensures
            final(self)@ == old(self)@.choose_index(index),
            old(self)@.wf() ==> final(self)@.wf(),
    {
        proof {
            self.now_choice.lemma_view_branch();
            if self@.wf() {
                lemma_choose_keeps_wf(self@, index);
            }
        }
        let effective = if self.now_choice.own_token.index_is_data() {
            0
        } else {
            index
        };
        let mut next = match &self.now_choice.branch {
            Some(children) => children[effective].clone(),
            None => vstd::pervasive::unreached(),
        };
        let rewritten = match &next.own_token {
            ChoiceKind::ChoseNth(tag, _) => Some(ChoiceKind::ChoseNth(tag.clone(), Some(index))),
            _ => None,
        };
        if let Some(token) = rewritten {
            next.own_token = token;
        }
        let left = self.now_choice.own_token.clone();
        self.chose_kinds.push(left);
        self.choice_indexes.push(index);
        self.now_choice = next;
        proof {
            assert(final(self)@.chose_kinds =~= old(self)@.chose_kinds.push(
                old(self)@.now_choice.own_token,
            ));
            assert(final(self)@.choice_list =~= old(self)@.choice_list);
        }
    }

    /// Returns the tree to its root.
    pub fn reset(&mut self)
        ensures
            final(self)@ == old(self)@.reset(),
            final(self)@.wf(),
    {
        self.now_choice = self.root_choice.clone();
        self.choice_indexes = Vec::new();
        self.chose_kinds = Vec::new();
        self.choice_list = Vec::new();
        proof {
            assert(final(self)@.chose_kinds =~= Seq::empty());
            assert(final(self)@.choice_list =~= Seq::empty());
            assert(final(self)@.choice_indexes =~= Seq::empty());
        }
    }

    /// Steps back by one choice: nothing at the root; else the last index
    /// leaves the path and the rest of the path is replayed from the root.
    pub fn undo(&mut self)
        requires
            old(self)@.wf(),
        ensures
            final(self)@ == old(self)@.undo(),
            final(self)@.wf(),
    {
        proof {
            lemma_undo_keeps_wf(self@);
        }
        let path_len = self.choice_indexes.len();
        if path_len == 0 {
            return ;
        }
        let mut path: Vec<usize> = Vec::new();
        let mut k: usize = 0;
        while k < path_len - 1
            invariant
                path_len == self.choice_indexes.len(),
                path_len > 0,
                k <= path_len - 1,
                path@ == self.choice_indexes@.take(k as int),
            decreases path_len - k,
        {
            path.push(self.choice_indexes[k]);
            k += 1;
            assert(path@ =~= self.choice_indexes@.take(k as int));
        }
        assert(path@ =~= old(self)@.choice_indexes.drop_last());
        let ghost start = self@.reset();
        self.reset();
        let mut i: usize = 0;
        while i < path.len()
            invariant
                i <= path.len(),
                start.can_replay(path@),
                start == ChoiceTreeView::fresh(start.root_choice),
                self@ == start.replay(path@.take(i as int)),
            decreases path.len() - i,
        {
            proof {
                lemma_can_replay_prefix(start, path@, i as int + 1);
                assert(path@.take(i as int + 1).drop_last() =~= path@.take(i as int));
            }
            self.choose_index(path[i]);
            i += 1;
        }
        assert(path@.take(path.len() as int) =~= path@);
    }

    /// The first index carried by a `ChoseNth` token of the breadcrumb:
    /// which slot was picked some levels above.
    pub fn get_chose_nth(&self) -> (picked: Option<usize>)
        ensures
            picked == self@.chose_nth(),
    {
        let mut i: usize = 0;
        while i < self.chose_kinds.len()
            invariant
                i <= self.chose_kinds.len(),
                self@.chose_nth() == self@.chose_nth_from(i as int),
            decreases self.chose_kinds.len() - i,
        {
            if let ChoiceKind::ChoseNth(_, Some(index)) = &self.chose_kinds[i] {
                return Some(*index);
            }
            i += 1;
        }
        None
    }
}

/// Every prefix of a path that can be replayed can be replayed.
pub proof fn lemma_can_replay_prefix(tree: ChoiceTreeView, indexes: Seq<usize>, len: int)
    requires
        tree.can_replay(indexes),
        0 <= len <= indexes.len(),
    ensures
        tree.can_replay(indexes.take(len)),
    decreases indexes.len(),
{
    if len == indexes.len() {
        assert(indexes.take(len) =~= indexes);
    } else {
        lemma_can_replay_prefix(tree, indexes.drop_last(), len);
        assert(indexes.drop_last().take(len) =~= indexes.take(len));
    }
}

} // verus!
