//! The battle scene: fight and lose, or try to escape.

use crate::animation::{chain_view, Animation, AnimationSpan, AnimationView};
use crate::choice_kind::{ChoiceKind, ChoiceKindView};
use crate::choice_setting::{battle_choices, root_over, ChoiceSetting};
use crate::choice_tree::ChoiceTreeView;
use crate::field::default_fade;
use crate::input::Input;
use crate::renderer::{RendererController, RendererControllerView, SvgRenderer, SvgRendererView};
use crate::state::{State, StateView, BATTLE_SCENE, TITLE_SCENE};
use crate::text::texts_view;
use vstd::prelude::*;

verus! {

/// Of `ESCAPE_OUT_OF` attempts to escape, this many succeed on average.
pub const ESCAPE_CHANCES: u32 = 7;

/// See `ESCAPE_CHANCES`.
pub const ESCAPE_OUT_OF: u32 = 10;

/// The state of the battle scene: the command list and its tree.
#[derive(Debug)]
pub struct BattleState {
    pub renderer_controller: RendererController,
}

/// Mathematical value of a `BattleState`.
pub struct BattleStateView {
    pub renderer_controller: RendererControllerView,
}

impl View for BattleState {
    type V = BattleStateView;

    open spec fn view(&self) -> BattleStateView {
        BattleStateView { renderer_controller: self.renderer_controller@ }
    }
}

/// What an input leaves of the battle scene and the shared state.
pub struct BattleStepped {
    pub battle: BattleStateView,
    pub state: StateView,
}

/// The lines shown after a lost fight.
pub open spec fn defeat_lines() -> Seq<Seq<char>> {
    seq!["もう戦えない！"@, ""@, "目の前が真っ暗になった…"@]
}

impl BattleStateView {
    /// The invariant of the battle scene: that of its controller.
    pub open spec fn wf(self) -> bool {
        self.renderer_controller.wf()
    }

    /// The battle scene as it is created: the command list over the two
    /// commands, not yet shown.
    pub open spec fn fresh() -> BattleStateView {
        BattleStateView {
            renderer_controller: RendererControllerView {
                renderers: seq![SvgRendererView::fresh(ChoiceKindView::Root, "battle"@, 40)],
                choice_tree: ChoiceTreeView::fresh(
                    root_over(ChoiceKindView::Root, battle_choices()),
                ),
                confirm_index: None,
            },
        }
    }

    /// The scene and the state once the battle is entered: the commands
    /// are shown and the enemy is announced.
    pub open spec fn entered(self, state: StateView) -> BattleStepped {
        BattleStepped {
            battle: BattleStateView {
                renderer_controller: self.renderer_controller.initially_rendered(),
            },
            state: state.with_chain(seq![AnimationView::message("ピエンが現れた！"@)]),
        }
    }

    /// The scene and the state after the command that the tree stands at
    /// was carried out. `escaped` is the outcome of the attempt to escape.
    ///
    /// A fight is lost: the title is asked for, the defeat is told and a
    /// long fade follows. An escape that succeeds asks for the scene
    /// before the battle, tells of it and fades; one that fails tells of it
    /// and returns to the commands.
    pub open spec fn resolved(self, state: StateView, escaped: bool) -> BattleStepped {
        let controller = self.renderer_controller;
        match controller.now_kind() {
            ChoiceKindView::Battle => BattleStepped {
                battle: BattleStateView { renderer_controller: controller.all_closed() },
                state: state.requesting_scene(TITLE_SCENE).with_chain(
                    seq![
                        AnimationView::multi_line_messages(defeat_lines()),
                        AnimationView::fade_out_in(AnimationSpan::FadeOutInLong),
                    ],
                ),
            },
            ChoiceKindView::Escape => if escaped {
                BattleStepped {
                    battle: BattleStateView { renderer_controller: controller.all_closed() },
                    state: state.requesting_scene(
                        (state.primitives.requested_scene_index - 1) as usize,
                    ).with_chain(seq![AnimationView::message("逃げ出した"@), default_fade()]),
                }
            } else {
                BattleStepped {
                    battle: BattleStateView { renderer_controller: controller.undone() },
                    state: state.with_chain(seq![AnimationView::message("逃げられなかった！"@)]),
                }
            },
            _ => BattleStepped { battle: self, state },
        }
    }

    /// The scene and the state after an input: an arrow moves the cursor,
    /// enter enters the command under the cursor and carries it out, every
    /// other input does nothing.
    pub open spec fn consumed(self, state: StateView, input: Input, escaped: bool) -> BattleStepped {
        if input.spec_is_arrow() {
            BattleStepped {
                battle: BattleStateView {
                    renderer_controller: self.renderer_controller.input_delegated(input),
                },
                state,
            }
        } else if input == Input::Enter {
            (BattleStateView {
                renderer_controller: self.renderer_controller.enter_delegated(),
            }).resolved(state, escaped)
        } else {
            BattleStepped { battle: self, state }
        }
    }
}

/// Draws a chance: true with a probability of `numerator` in
/// `denominator`.
///
/// Calls `Rng::random_ratio` of the `rand` crate on the generator of the
/// thread. Nothing is claimed of the outcome: two calls may differ. The
/// precondition leaves out the arguments on which the call panics: a zero
/// denominator, and a numerator above the denominator. The call fails
/// otherwise only where the system cannot seed the generator.
#[verifier::external_body]
fn random_chance(numerator: u32, denominator: u32) -> (outcome: bool)
    requires
        denominator > 0,
        numerator <= denominator,
{
    rand::Rng::random_ratio(&mut rand::rng(), numerator, denominator)
}

impl BattleState {
    /// The battle scene over its two commands.
    pub fn new() -> (battle: BattleState)
        ensures
            battle@ == BattleStateView::fresh(),
            battle@.wf(),
    {
        let mut renderers: Vec<SvgRenderer> = Vec::new();
        renderers.push(SvgRenderer::new(ChoiceKind::Root, "battle".to_owned(), 40));
        let battle = BattleState {
            renderer_controller: RendererController {
                renderers,
                choice_tree: ChoiceSetting::get_battle_setting().get_battle_choice_tree(),
                confirm_index: None,
            },
        };
        proof {
            assert(battle@.renderer_controller.renderers =~= BattleStateView::fresh().renderer_controller.renderers);
        }
        battle
    }

    /// Enters the battle.
    pub fn init(&mut self, shared_state: &mut State)
        requires
            old(self)@.wf(),
            old(shared_state)@.wf(),
        ensures
            (BattleStepped { battle: final(self)@, state: final(shared_state)@ })
                == old(self)@.entered(old(shared_state)@),
            final(self)@.wf(),
            final(shared_state)@.wf(),
    {
        self.renderer_controller.initial_render();
        shared_state.push_animation(Animation::create_message("ピエンが現れた！".to_owned()));
    }

    /// Carries out the command that the tree stands at.
    fn resolve(&mut self, shared_state: &mut State, escaped: bool)
        requires
            old(self)@.wf(),
            old(shared_state)@.wf(),
            old(shared_state)@.primitives.requested_scene_index == BATTLE_SCENE,
        ensures
            (BattleStepped { battle: final(self)@, state: final(shared_state)@ })
                == old(self)@.resolved(old(shared_state)@, escaped),
            final(self)@.wf(),
            final(shared_state)@.wf(),
    {
        match self.renderer_controller.now_choice_kind() {
            ChoiceKind::Battle => {
                shared_state.primitives.requested_scene_index = TITLE_SCENE;
                let mut lines: Vec<String> = Vec::new();
                lines.push("もう戦えない！".to_owned());
                lines.push("".to_owned());
                lines.push("目の前が真っ暗になった…".to_owned());
                assert(texts_view(lines@) =~= defeat_lines());
                let mut chain: Vec<Animation> = Vec::new();
                chain.push(Animation::create_multi_line_messages(lines));
                chain.push(Animation::create_fade_out_in_with_span(AnimationSpan::FadeOutInLong));
                assert(chain_view(chain@) =~= seq![
                    AnimationView::multi_line_messages(defeat_lines()),
                    AnimationView::fade_out_in(AnimationSpan::FadeOutInLong),
                ]);
                shared_state.push_chain(chain);
                self.renderer_controller.close_all();
            },
            ChoiceKind::Escape => {
                if escaped {
                    shared_state.primitives.requested_scene_index -= 1;
                    let mut chain: Vec<Animation> = Vec::new();
                    chain.push(Animation::create_message("逃げ出した".to_owned()));
                    chain.push(Animation::create_fade_out_in());
                    assert(chain_view(chain@) =~= seq![
                        AnimationView::message("逃げ出した"@),
                        default_fade(),
                    ]);
                    shared_state.push_chain(chain);
                    self.renderer_controller.close_all();
                } else {
                    shared_state.push_animation(
                        Animation::create_message("逃げられなかった！".to_owned()),
                    );
                    self.renderer_controller.undo_choice_tree();
                }
            },
            _ => {},
        }
    }

    /// Takes an input while the battle is on display, with `escaped` as
    /// the outcome of an attempt to escape.
    pub fn consume_rolled(&mut self, shared_state: &mut State, input: Input, escaped: bool)
        requires
            old(self)@.wf(),
            old(shared_state)@.wf(),
            old(shared_state)@.primitives.requested_scene_index == BATTLE_SCENE,
        ensures
            (BattleStepped { battle: final(self)@, state: final(shared_state)@ })
                == old(self)@.consumed(old(shared_state)@, input, escaped),
            final(self)@.wf(),
            final(shared_state)@.wf(),
    {
        if input.is_arrow() {
            self.renderer_controller.delegate_input(input);
        } else if input == Input::Enter {
            self.renderer_controller.delegate_enter();
            self.resolve(shared_state, escaped);
        }
    }

    /// Takes an input while the battle is on display. An attempt to escape
    /// succeeds with a chance of `ESCAPE_CHANCES` in `ESCAPE_OUT_OF`, each
    /// attempt drawn anew: the scene and the state are left as one of the
    /// two outcomes leaves them.
    pub fn consume(&mut self, shared_state: &mut State, input: Input)
        requires
            old(self)@.wf(),
            old(shared_state)@.wf(),
            old(shared_state)@.primitives.requested_scene_index == BATTLE_SCENE,
        ensures
            (BattleStepped { battle: final(self)@, state: final(shared_state)@ })
                == old(self)@.consumed(old(shared_state)@, input, true) || (BattleStepped {
                battle: final(self)@,
                state: final(shared_state)@,
            }) == old(self)@.consumed(old(shared_state)@, input, false),
            final(self)@.wf(),
            final(shared_state)@.wf(),
    {
        if input.is_arrow() {
            self.renderer_controller.delegate_input(input);
        } else if input == Input::Enter {
            self.renderer_controller.delegate_enter();
            let escaped = match self.renderer_controller.now_choice_kind() {
                ChoiceKind::Escape => random_chance(ESCAPE_CHANCES, ESCAPE_OUT_OF),
                _ => false,
            };
            self.resolve(shared_state, escaped);
        }
    }
}

} // verus!
