//! Renderers: what is on display for each node of a choice tree, and the
//! controller that keeps a tree and its renderers in step.
//!
//! A renderer is plain data: whether its list is visible, what the list
//! holds and where its cursor stands. The caller draws it.

use crate::choice_kind::{ChoiceKind, ChoiceKindView};
use crate::choice_tree::{lemma_choose_keeps_wf, lemma_fresh_wf, ChoiceTree, ChoiceTreeView};
use crate::cursor::Cursor;
use crate::input::Input;
use crate::text::texts_view;
use vstd::prelude::*;

verus! {

/// The display of the children of the nodes of one kind.
#[derive(Debug)]
pub struct SvgRenderer {
    pub kind: ChoiceKind,
    pub target_id: String,
    pub cursor: Cursor,
    pub visible: bool,
    pub labels: Vec<String>,
    pub description: String,
}

/// Mathematical value of an `SvgRenderer`.
pub struct SvgRendererView {
    pub kind: ChoiceKindView,
    pub target_id: Seq<char>,
    pub cursor: Cursor,
    pub visible: bool,
    pub labels: Seq<Seq<char>>,
    pub description: Seq<char>,
}

impl View for SvgRenderer {
    type V = SvgRendererView;

    open spec fn view(&self) -> SvgRendererView {
        SvgRendererView {
            kind: self.kind@,
            target_id: self.target_id@,
            cursor: self.cursor,
            visible: self.visible,
            labels: texts_view(self.labels@),
            description: self.description@,
        }
    }
}

impl SvgRendererView {
    /// A hidden renderer without entries.
    pub open spec fn fresh(kind: ChoiceKindView, target_id: Seq<char>, step_length: u32) -> Self {
        SvgRendererView {
            kind,
            target_id,
            cursor: Cursor::spec_new(0, step_length),
            visible: false,
            labels: Seq::empty(),
            description: Seq::empty(),
        }
    }

    /// The renderer showing the given entries under the given description.
    pub open spec fn rendered(self, labels: Seq<Seq<char>>, description: Seq<char>) -> Self {
        SvgRendererView {
            visible: true,
            labels,
            description,
            cursor: self.cursor.with_length(labels.len() as usize),
            ..self
        }
    }

    /// The renderer hidden, with its cursor back at the first entry.
    pub open spec fn hidden(self) -> Self {
        SvgRendererView { visible: false, cursor: self.cursor.at_start(), ..self }
    }

    /// The renderer after an input moved its cursor.
    pub open spec fn moved(self, input: Input) -> Self {
        SvgRendererView { cursor: self.cursor.moved(input), ..self }
    }
}

/// Views of a sequence of renderers, element by element.
pub open spec fn renderers_view(renderers: Seq<SvgRenderer>) -> Seq<SvgRendererView> {
    renderers.map_values(|r: SvgRenderer| r@)
}

/// The position of the first renderer of the given kind from `from` on.
pub open spec fn renderer_of_kind(
    renderers: Seq<SvgRendererView>,
    kind: ChoiceKindView,
    from: int,
) -> Option<int>
    decreases renderers.len() - from,
{
    if from < 0 || from >= renderers.len() {
        None
    } else if renderers[from].kind == kind {
        Some(from)
    } else {
        renderer_of_kind(renderers, kind, from + 1)
    }
}

/// Every renderer hidden.
pub open spec fn all_hidden(renderers: Seq<SvgRendererView>) -> Seq<SvgRendererView> {
    renderers.map_values(|r: SvgRendererView| r.hidden())
}

impl SvgRenderer {
    /// A hidden renderer for the nodes of the given kind.
    pub fn new(kind: ChoiceKind, target_id: String, step_length: u32) -> (renderer: SvgRenderer)
        ensures
            renderer@ == SvgRendererView::fresh(kind@, target_id@, step_length),
            renderer@.cursor.wf(),
    {
        let renderer = SvgRenderer {
            kind,
            target_id,
            cursor: Cursor::new(0, step_length),
            visible: false,
            labels: Vec::new(),
            description: String::new(),
        };
        assert(renderer@.labels =~= Seq::empty());
        renderer
    }

    /// Shows the given entries under the given description.
    pub fn render(&mut self, labels: Vec<String>, description: String)
        ensures
            final(self)@ == old(self)@.rendered(texts_view(labels@), description@),
            final(self)@.cursor.wf(),
    {
        self.cursor.update_choice_length(labels.len());
        self.visible = true;
        self.labels = labels;
        self.description = description;
    }

    /// Hides the renderer and returns its cursor to the first entry.
    pub fn close(&mut self)
        ensures
            final(self)@ == old(self)@.hidden(),
            final(self)@.cursor.wf(),
    {
        self.visible = false;
        self.cursor.reset();
    }
}

/// A choice tree with the renderers of its nodes. `confirm_index` is the
/// position of the renderer that shows confirmations.
#[derive(Debug)]
pub struct RendererController {
    pub renderers: Vec<SvgRenderer>,
    pub choice_tree: ChoiceTree,
    pub confirm_index: Option<usize>,
}

/// Mathematical value of a `RendererController`.
pub struct RendererControllerView {
    pub renderers: Seq<SvgRendererView>,
    pub choice_tree: ChoiceTreeView,
    pub confirm_index: Option<usize>,
}

impl View for RendererController {
    type V = RendererControllerView;

    open spec fn view(&self) -> RendererControllerView {
        RendererControllerView {
            renderers: renderers_view(self.renderers@),
            choice_tree: self.choice_tree@,
            confirm_index: self.confirm_index,
        }
    }
}

impl RendererControllerView {
    /// The invariant of a controller: its tree meets the tree's invariant,
    /// and every cursor marks an entry.
    pub open spec fn wf(self) -> bool {
        &&& self.choice_tree.wf()
        &&& forall|i: int| 0 <= i < self.renderers.len() ==> (#[trigger] self.renderers[i]).cursor.wf()
    }

    /// The token of the node where the tree stands.
    pub open spec fn now_kind(self) -> ChoiceKindView {
        self.choice_tree.now_choice.own_token
    }

    /// The position of the renderer of the node where the tree stands.
    pub open spec fn active(self) -> Option<int> {
        renderer_of_kind(self.renderers, self.now_kind(), 0)
    }

    /// The controller with the renderer at `position` replaced.
    pub open spec fn with_renderer(self, position: int, renderer: SvgRendererView) -> Self {
        RendererControllerView { renderers: self.renderers.update(position, renderer), ..self }
    }

    /// The controller with another tree.
    pub open spec fn with_tree(self, choice_tree: ChoiceTreeView) -> Self {
        RendererControllerView { choice_tree, ..self }
    }

    /// The children of the node where the tree stands, on display in that
    /// node's renderer.
    pub open spec fn initially_rendered(self) -> Self {
        self.rendered_with(self.choice_tree.now_choice.branch_labels(), Seq::empty())
    }

    /// The given entries on display in the renderer of the node where the
    /// tree stands; nothing where that node has no renderer.
    pub open spec fn rendered_with(self, labels: Seq<Seq<char>>, description: Seq<char>) -> Self {
        match self.active() {
            Some(position) => self.with_renderer(
                position,
                self.renderers[position].rendered(labels, description),
            ),
            None => self,
        }
    }

    /// An arrow handed to the cursor of the renderer of the node where the
    /// tree stands.
    pub open spec fn input_delegated(self, input: Input) -> Self {
        match self.active() {
            Some(position) => self.with_renderer(position, self.renderers[position].moved(input)),
            None => self,
        }
    }

    /// The tree after the entry under the cursor was entered. A node that
    /// only records the pick is passed through at once.
    pub open spec fn entered_tree(self) -> ChoiceTreeView {
        match self.active() {
            Some(position) => {
                let index = self.renderers[position].cursor.chose_index;
                if self.choice_tree.can_choose(index) {
                    let entered = self.choice_tree.choose_index(index);
                    if entered.now_choice.own_token is ChoseNth && entered.can_choose(0) {
                        entered.choose_index(0)
                    } else {
                        entered
                    }
                } else {
                    self.choice_tree
                }
            },
            None => self.choice_tree,
        }
    }

    /// The controller after the entry under the cursor was entered.
    pub open spec fn enter_delegated(self) -> Self {
        self.with_tree(self.entered_tree())
    }

    /// The tree one step back.
    pub open spec fn undone(self) -> Self {
        self.with_tree(self.choice_tree.undo())
    }

    /// The renderer of the node where the tree stands hidden, and the tree
    /// one step back.
    pub open spec fn close_delegated(self) -> Self {
        match self.active() {
            Some(position) => self.with_renderer(
                position,
                self.renderers[position].hidden(),
            ).undone(),
            None => self.undone(),
        }
    }

    /// Whether a confirmation can be asked for where the tree stands.
    pub open spec fn can_confirm(self) -> bool {
        &&& self.confirm_index matches Some(position)
        &&& position < self.renderers.len()
        &&& self.choice_tree.can_choose(0)
    }

    /// The confirmation of the node where the tree stands on display, and
    /// the tree inside it; nothing where no confirmation can be asked for.
    pub open spec fn confirm_delegated(self) -> Self {
        if self.can_confirm() {
            let position = self.confirm_index->0 as int;
            let question = match self.choice_tree.now_choice.branch_description {
                Some(text) => text,
                None => Seq::empty(),
            };
            let inside = self.choice_tree.choose_index(0);
            self.with_tree(inside).with_renderer(
                position,
                self.renderers[position].rendered(inside.now_choice.branch_labels(), question),
            )
        } else {
            self
        }
    }

    /// Every renderer hidden and the tree back at its root.
    pub open spec fn all_closed(self) -> Self {
        RendererControllerView {
            renderers: all_hidden(self.renderers),
            choice_tree: self.choice_tree.reset(),
            ..self
        }
    }
}

impl RendererController {
    /// The token of the node where the tree stands.
    pub fn now_choice_kind(&self) -> (kind: ChoiceKind)
        ensures
            kind@ == self@.now_kind(),
    {
        self.choice_tree.get_now()
    }

    /// The position of the renderer of the node where the tree stands.
    pub fn active_renderer(&self) -> (position: Option<usize>)
        ensures
            match position {
                Some(p) => self@.active() == Some(p as int) && p < self.renderers.len(),
                None => self@.active() is None,
            },
    {
        let kind = self.choice_tree.get_now();
        let mut i: usize = 0;
        while i < self.renderers.len()
            invariant
                i <= self.renderers.len(),
                kind@ == self@.now_kind(),
                self@.active() == renderer_of_kind(self@.renderers, kind@, i as int),
            decreases self.renderers.len() - i,
        {
            if self.renderers[i].kind.same_as(&kind) {
                return Some(i);
            }
            i += 1;
        }
        None
    }

    /// Shows the children of the node where the tree stands.
    pub fn initial_render(&mut self)
        requires
            old(self)@.wf(),
        ensures
            final(self)@ == old(self)@.initially_rendered(),
            final(self)@.wf(),
    {
        let labels = self.choice_tree.now_choice.get_branch_labels();
        self.render_with(labels, String::new());
    }

    /// Shows the given entries in the renderer of the node where the tree
    /// stands.
    pub fn render_with(&mut self, labels: Vec<String>, description: String)
        requires
            old(self)@.wf(),
        ensures
            final(self)@ == old(self)@.rendered_with(texts_view(labels@), description@),
            final(self)@.wf(),
    {
        if let Some(position) = self.active_renderer() {
            self.renderers[position].render(labels, description);
            proof {
                assert(final(self)@.renderers =~= old(self)@.renderers.update(
                    position as int,
                    old(self)@.renderers[position as int].rendered(
                        texts_view(labels@),
                        description@,
                    ),
                ));
            }
        }
    }

    /// Hands an arrow to the cursor of the renderer of the node where the
    /// tree stands.
    pub fn delegate_input(&mut self, input: Input)
        requires
            old(self)@.wf(),
        ensures
            final(self)@ == old(self)@.input_delegated(input),
            final(self)@.wf(),
    {
        if let Some(position) = self.active_renderer() {
            assert(self@.renderers[position as int].cursor.wf());
            self.renderers[position].cursor.consume(input);
            proof {
                assert(final(self)@.renderers =~= old(self)@.renderers.update(
                    position as int,
                    old(self)@.renderers[position as int].moved(input),
                ));
            }
        }
    }

    /// Enters the entry under the cursor, where there is one.
    pub fn delegate_enter(&mut self)
        requires
            old(self)@.wf(),
        ensures
            final(self)@ == old(self)@.enter_delegated(),
            final(self)@.wf(),
    {
        if let Some(position) = self.active_renderer() {
            let index = self.renderers[position].cursor.chose_index;
            assert(index == self@.renderers[position as int].cursor.chose_index);
            if self.choice_tree.can_choose(index) {
                proof {
                    lemma_choose_keeps_wf(self.choice_tree@, index);
                }
                self.choice_tree.choose_index(index);
                let passes = match &self.choice_tree.now_choice.own_token {
                    ChoiceKind::ChoseNth(..) => true,
                    _ => false,
                };
                if passes && self.choice_tree.can_choose(0) {
                    proof {
                        lemma_choose_keeps_wf(self.choice_tree@, 0);
                    }
                    self.choice_tree.choose_index(0);
                }
            }
        }
    }

    /// Steps the tree back by one choice.
    pub fn undo_choice_tree(&mut self)
        requires
            old(self)@.wf(),
        ensures
            final(self)@ == old(self)@.undone(),
            final(self)@.wf(),
    {
        self.choice_tree.undo();
    }

    /// Hides the renderer of the node where the tree stands and steps the
    /// tree back by one choice.
    pub fn delegate_close(&mut self)
        requires
            old(self)@.wf(),
        ensures
            final(self)@ == old(self)@.close_delegated(),
            final(self)@.wf(),
    {
        if let Some(position) = self.active_renderer() {
            self.renderers[position].close();
            proof {
                assert(self@.renderers =~= old(self)@.renderers.update(
                    position as int,
                    old(self)@.renderers[position as int].hidden(),
                ));
            }
        }
        self.choice_tree.undo();
    }

    /// Asks for the confirmation of the node where the tree stands.
    pub fn delegate_confirm(&mut self)
        requires
            old(self)@.wf(),
        ensures
            final(self)@ == old(self)@.confirm_delegated(),
            final(self)@.wf(),
    {
        let position = match self.confirm_index {
            Some(position) => position,
            None => {
                return ;
            },
        };
        if position >= self.renderers.len() || !self.choice_tree.can_choose(0) {
            return ;
        }
        let question = match &self.choice_tree.now_choice.branch_description {
            Some(text) => text.clone(),
            None => String::new(),
        };
        proof {
            lemma_choose_keeps_wf(self.choice_tree@, 0);
        }
        self.choice_tree.choose_index(0);
        let labels = self.choice_tree.now_choice.get_branch_labels();
        self.renderers[position].render(labels, question);
        proof {
            let inside = old(self)@.choice_tree.choose_index(0);
            assert(final(self)@.renderers =~= old(self)@.renderers.update(
                position as int,
                old(self)@.renderers[position as int].rendered(
                    inside.now_choice.branch_labels(),
                    question@,
                ),
            ));
        }
    }

    /// Hides every renderer and returns the tree to its root.
    pub fn close_all(&mut self)
        requires
            old(self)@.wf(),
        ensures
            final(self)@ == old(self)@.all_closed(),
            final(self)@.wf(),
    {
        let mut i: usize = 0;
        while i < self.renderers.len()
            invariant
                i <= self.renderers.len(),
                self.renderers.len() == old(self).renderers.len(),
                self.choice_tree == old(self).choice_tree,
                self.confirm_index == old(self).confirm_index,
                forall|j: int| 0 <= j < i ==> self@.renderers[j] == old(self)@.renderers[j].hidden(),
                forall|j: int|
                    i <= j < self.renderers.len() ==> self@.renderers[j] == old(self)@.renderers[j],
            decreases self.renderers.len() - i,
        {
            let ghost before = self.renderers@;
            let ghost before_view = self@.renderers;
            self.renderers[i].close();
            proof {
                assert forall|j: int| 0 <= j < self.renderers.len() implies #[trigger] self@.renderers[j]
                    == (if j == i {
                    before_view[j].hidden()
                } else {
                    before_view[j]
                }) by {
                    assert(before_view[j] == before[j]@);
                    assert(self@.renderers[j] == self.renderers@[j]@);
                    if j != i {
                        assert(self.renderers@[j] == before[j]);
                    }
                }
            }
            i += 1;
        }
        proof {
            assert(self@.renderers =~= all_hidden(old(self)@.renderers));
            lemma_fresh_wf(self.choice_tree@.root_choice);
        }
        self.choice_tree.reset();
    }

    /// The first index recorded on the way to the node where the tree
    /// stands: which slot was picked some levels above.
    pub fn get_chose_nth(&self) -> (picked: Option<usize>)
        ensures
            picked == self@.choice_tree.chose_nth(),
    {
        self.choice_tree.get_chose_nth()
    }
}

} // verus!
