//! Animation steps and the rule by which a message claims the message box.
//!
//! An animation is polled once per frame with the frame's step count. It
//! may change itself, the shared flags and the message box, and answers
//! whether it is done. While its `block_scene_update` flag is set it holds
//! up the commit of scene and map transitions.

use crate::message::EmoteMessage;
use crate::text::texts_view;
use vstd::prelude::*;

verus! {

/// Flags that animations and scenes share: whether a message is on
/// display, and whether more of it follows.
#[derive(Clone, Copy, Debug, PartialEq, Eq, Structural)]
pub struct References {
    pub has_message: bool,
    pub has_continuous_message: bool,
}

/// The box in which messages are displayed.
#[derive(Debug)]
pub struct MessageBox {
    pub visible: bool,
    pub line_1: String,
    pub line_2: String,
    pub continuous_mark: bool,
}

/// Mathematical value of a `MessageBox`.
pub struct MessageBoxView {
    pub visible: bool,
    pub line_1: Seq<char>,
    pub line_2: Seq<char>,
    pub continuous_mark: bool,
}

impl View for MessageBox {
    type V = MessageBoxView;

    open spec fn view(&self) -> MessageBoxView {
        MessageBoxView {
            visible: self.visible,
            line_1: self.line_1@,
            line_2: self.line_2@,
            continuous_mark: self.continuous_mark,
        }
    }
}

impl MessageBox {
    /// A hidden, empty box.
    pub fn new() -> (message_box: MessageBox)
        ensures
            message_box@ == (MessageBoxView {
                visible: false,
                line_1: Seq::empty(),
                line_2: Seq::empty(),
                continuous_mark: false,
            }),
    {
        MessageBox {
            visible: false,
            line_1: String::new(),
            line_2: String::new(),
            continuous_mark: false,
        }
    }
}

/// How long an animation lasts.
#[derive(Clone, Copy, Debug, PartialEq, Eq, Structural)]
pub enum AnimationSpan {
    FadeOutInDefault,
    FadeOutInLong,
    FadeOutInMedium,
    EmoteDefault,
    Unset,
}

impl AnimationSpan {
    /// The span in steps.
    pub open spec fn spec_steps(self) -> int {
        match self {
            AnimationSpan::FadeOutInDefault => 500,
            AnimationSpan::FadeOutInLong => 2000,
            AnimationSpan::FadeOutInMedium => 1000,
            AnimationSpan::EmoteDefault => 5000,
            AnimationSpan::Unset => 0,
        }
    }

    /// The span in steps.
    pub fn steps(self) -> (steps: i64)
        ensures
            steps == self.spec_steps(),
    {
        match self {
            AnimationSpan::FadeOutInDefault => 500,
            AnimationSpan::FadeOutInLong => 2000,
            AnimationSpan::FadeOutInMedium => 1000,
            AnimationSpan::EmoteDefault => 5000,
            AnimationSpan::Unset => 0,
        }
    }
}

/// What an animation does when it is polled.
#[derive(Clone, Copy, Debug, PartialEq, Eq, Structural)]
pub enum AnimationKind {
    AlwaysBlink,
    FadeOutIn,
    Message,
    MultiLineMessages,
    Move,
    Emote,
}

/// Steps that a move between two tiles takes.
pub const MOVE_STEPS: i64 = 150;

/// The value of `start_step` before the first poll.
pub const NOT_STARTED: i64 = -1;

/// One queued animation step.
#[derive(Debug)]
pub struct Animation {
    pub kind: AnimationKind,
    pub args_i32: Vec<i32>,
    pub block_scene_update: bool,
    pub start_step: i64,
    pub span: AnimationSpan,
    pub messages: Vec<String>,
}

/// Mathematical value of an `Animation`.
pub struct AnimationView {
    pub kind: AnimationKind,
    pub args_i32: Seq<i32>,
    pub block_scene_update: bool,
    pub start_step: i64,
    pub span: AnimationSpan,
    pub messages: Seq<Seq<char>>,
}

impl View for Animation {
    type V = AnimationView;

    open spec fn view(&self) -> AnimationView {
        AnimationView {
            kind: self.kind,
            args_i32: self.args_i32@,
            block_scene_update: self.block_scene_update,
            start_step: self.start_step,
            span: self.span,
            messages: texts_view(self.messages@),
        }
    }
}

/// What a poll leaves behind: the animation, the shared flags, the
/// message box, and whether the animation is done.
pub struct Polled {
    pub animation: AnimationView,
    pub references: References,
    pub message_box: MessageBoxView,
    pub done: bool,
}

impl AnimationView {
    /// An animation of the given kind and span that was not polled yet.
    pub open spec fn fresh(
        kind: AnimationKind,
        span: AnimationSpan,
        block_scene_update: bool,
        args_i32: Seq<i32>,
        messages: Seq<Seq<char>>,
    ) -> AnimationView {
        AnimationView {
            kind,
            args_i32,
            block_scene_update,
            start_step: NOT_STARTED,
            span,
            messages,
        }
    }

    /// The blinking of the marked elements: never done, never blocking.
    pub open spec fn always_blink() -> AnimationView {
        AnimationView::fresh(
            AnimationKind::AlwaysBlink,
            AnimationSpan::Unset,
            false,
            Seq::empty(),
            Seq::empty(),
        )
    }

    /// A fade to black and back that lasts `span`.
    pub open spec fn fade_out_in(span: AnimationSpan) -> AnimationView {
        AnimationView::fresh(AnimationKind::FadeOutIn, span, true, Seq::empty(), Seq::empty())
    }

    /// The display of one message.
    pub open spec fn message(text: Seq<char>) -> AnimationView {
        AnimationView::fresh(
            AnimationKind::Message,
            AnimationSpan::Unset,
            true,
            Seq::empty(),
            seq![text],
        )
    }

    /// The display of several lines, two at a time.
    pub open spec fn multi_line_messages(lines: Seq<Seq<char>>) -> AnimationView {
        AnimationView::fresh(
            AnimationKind::MultiLineMessages,
            AnimationSpan::Unset,
            true,
            Seq::empty(),
            lines,
        )
    }

    /// A move from one tile to another.
    pub open spec fn movement(start_x: i32, start_y: i32, end_x: i32, end_y: i32) -> AnimationView {
        AnimationView::fresh(
            AnimationKind::Move,
            AnimationSpan::Unset,
            true,
            seq![start_x, start_y, end_x, end_y],
            Seq::empty(),
        )
    }

    /// An emote above a player: the player's own where `own_emote` holds.
    pub open spec fn emote(user_name: Seq<char>, emote: Seq<char>, own_emote: bool) -> AnimationView {
        AnimationView::fresh(
            AnimationKind::Emote,
            AnimationSpan::EmoteDefault,
            false,
            seq![
                if own_emote {
                    1i32
                } else {
                    -1i32
                },
            ],
            seq![user_name, emote],
        )
    }

    /// The invariant of an animation: the start step is a step or the
    /// sentinel, and an emote carries its owner mark and its two texts.
    pub open spec fn wf(self) -> bool {
        &&& self.start_step >= NOT_STARTED
        &&& self.kind == AnimationKind::Emote ==> self.args_i32.len() >= 1 && self.messages.len()
            >= 2
    }

    /// The animation with its start step fixed at `step`, unless it was
    /// fixed before.
    pub open spec fn started(self, step: i64) -> AnimationView {
        if self.start_step == NOT_STARTED {
            AnimationView { start_step: step, ..self }
        } else {
            self
        }
    }

    /// Steps between the start of the animation and `step`.
    pub open spec fn step_gap(self, step: i64) -> int {
        step - self.start_step
    }

    /// Whether the emote is the player's own.
    pub open spec fn is_own_emote(self) -> bool {
        self.args_i32.len() >= 1 && self.args_i32[0] == 1
    }

    /// A poll of a fade: it stops blocking once more than half its span
    /// has passed, and is done once more than its span has passed.
    pub open spec fn fade_polled(self, step: i64) -> (AnimationView, bool) {
        let started = self.started(step);
        let half_span = self.span.spec_steps() / 2;
        let gap = started.step_gap(step);
        (
            AnimationView {
                block_scene_update: started.block_scene_update && !(gap > half_span),
                ..started
            },
            gap > half_span * 2,
        )
    }

    /// A poll of a message animation.
    ///
    /// While another message is on display the animation waits: nothing
    /// changes, and no text is consumed. Else, with no text left, it is done
    /// and stops blocking. Else it claims the display: it shows its next
    /// text (two lines at a time where it is multi-line), and marks whether
    /// more follows.
    pub open spec fn message_polled(
        self,
        references: References,
        message_box: MessageBoxView,
    ) -> Polled {
        if references.has_message {
            Polled { animation: self, references, message_box, done: false }
        } else if self.messages.len() == 0 {
            Polled {
                animation: AnimationView { block_scene_update: false, ..self },
                references,
                message_box,
                done: true,
            }
        } else if self.kind == AnimationKind::MultiLineMessages {
            let second = if self.messages.len() > 1 {
                self.messages[1]
            } else {
                Seq::empty()
            };
            let rest = if self.messages.len() > 1 {
                self.messages.skip(2)
            } else {
                self.messages.skip(1)
            };
            let more = rest.len() > 0;
            Polled {
                animation: AnimationView { block_scene_update: true, messages: rest, ..self },
                references: References { has_message: true, has_continuous_message: more },
                message_box: MessageBoxView {
                    visible: true,
                    line_1: self.messages[0],
                    line_2: second,
                    continuous_mark: more,
                },
                done: false,
            }
        } else {
            Polled {
                animation: AnimationView {
                    block_scene_update: true,
                    messages: self.messages.skip(1),
                    ..self
                },
                references: References { has_message: true, ..references },
                message_box: MessageBoxView {
                    visible: true,
                    line_1: self.messages[0],
                    line_2: Seq::empty(),
                    ..message_box
                },
                done: false,
            }
        }
    }

    /// A poll of the animation at `step`. `target_present` says whether the
    /// player is on display above whom an emote is shown.
    pub open spec fn polled(
        self,
        references: References,
        message_box: MessageBoxView,
        target_present: bool,
        step: i64,
    ) -> Polled {
        match self.kind {
            AnimationKind::AlwaysBlink => Polled {
                animation: self.started(step),
                references,
                message_box,
                done: false,
            },
            AnimationKind::FadeOutIn => Polled {
                animation: self.fade_polled(step).0,
                references,
                message_box,
                done: self.fade_polled(step).1,
            },
            AnimationKind::Message | AnimationKind::MultiLineMessages => self.message_polled(
                references,
                message_box,
            ),
            AnimationKind::Move => Polled {
                animation: self.started(step),
                references,
                message_box,
                done: self.started(step).step_gap(step) >= MOVE_STEPS,
            },
            AnimationKind::Emote => Polled {
                animation: self.started(step),
                references,
                message_box,
                done: self.started(step).step_gap(step) > self.span.spec_steps()
                    || !target_present,
            },
        }
    }
}

/// Views of a chain of animations, element by element.
pub open spec fn chain_view(chain: Seq<Animation>) -> Seq<AnimationView> {
    chain.map_values(|a: Animation| a@)
}

/// Views of a queue of chains, chain by chain.
pub open spec fn queue_view(queue: Seq<Vec<Animation>>) -> Seq<Seq<AnimationView>> {
    queue.map_values(|c: Vec<Animation>| chain_view(c@))
}

impl Animation {
    fn fresh(
        kind: AnimationKind,
        span: AnimationSpan,
        block_scene_update: bool,
        args_i32: Vec<i32>,
        messages: Vec<String>,
    ) -> (animation: Animation)
        ensures
            animation@ == AnimationView::fresh(
                kind,
                span,
                block_scene_update,
                args_i32@,
                texts_view(messages@),
            ),
    {
        Animation { kind, args_i32, block_scene_update, start_step: NOT_STARTED, span, messages }
    }

    /// Fixes the start step at `step`, unless it was fixed before.
    pub fn init_step(&mut self, step: i64)
        ensures
            final(self)@ == old(self)@.started(step),
    {
        if self.start_step == NOT_STARTED {
            self.start_step = step;
        }
    }

    /// Steps between the start of the animation and `step`.
    pub fn get_step_gap(&self, step: i64) -> (gap: i64)
        requires
            i64::MIN <= step - self.start_step <= i64::MAX,
        ensures
            gap == self@.step_gap(step),
    {
        step - self.start_step
    }

    /// The blinking of the marked elements.
    pub fn always_blink() -> (animation: Animation)
        ensures
            animation@ == AnimationView::always_blink(),
            animation@.wf(),
    {
        let animation = Animation::fresh(
            AnimationKind::AlwaysBlink,
            AnimationSpan::Unset,
            false,
            Vec::new(),
            Vec::new(),
        );
        assert(animation@.messages =~= Seq::empty());
        assert(animation@.args_i32 =~= Seq::empty());
        animation
    }

    /// A fade to black and back of the default span.
    pub fn create_fade_out_in() -> (animation: Animation)
        ensures
            animation@ == AnimationView::fade_out_in(AnimationSpan::FadeOutInDefault),
            animation@.wf(),
    {
        Animation::create_fade_out_in_with_span(AnimationSpan::FadeOutInDefault)
    }

    /// A fade to black and back that lasts `span`.
    pub fn create_fade_out_in_with_span(span: AnimationSpan) -> (animation: Animation)
        ensures
            animation@ == AnimationView::fade_out_in(span),
            animation@.wf(),
    {
        let animation = Animation::fresh(
            AnimationKind::FadeOutIn,
            span,
            true,
            Vec::new(),
            Vec::new(),
        );
        assert(animation@.messages =~= Seq::empty());
        assert(animation@.args_i32 =~= Seq::empty());
        animation
    }

    /// The display of one message.
    pub fn create_message(message: String) -> (animation: Animation)
        ensures
            animation@ == AnimationView::message(message@),
            animation@.wf(),
    {
        let mut messages: Vec<String> = Vec::new();
        messages.push(message);
        assert(texts_view(messages@) =~= seq![message@]);
        let animation = Animation::fresh(
            AnimationKind::Message,
            AnimationSpan::Unset,
            true,
            Vec::new(),
            messages,
        );
        assert(animation@.args_i32 =~= Seq::empty());
        animation
    }

    /// The display of several lines, two at a time.
    pub fn create_multi_line_messages(messages: Vec<String>) -> (animation: Animation)
        ensures
            animation@ == AnimationView::multi_line_messages(texts_view(messages@)),
            animation@.wf(),
    {
        let animation = Animation::fresh(
            AnimationKind::MultiLineMessages,
            AnimationSpan::Unset,
            true,
            Vec::new(),
            messages,
        );
        assert(animation@.args_i32 =~= Seq::empty());
        animation
    }

    /// A move from one tile to another.
    pub fn create_move(start_x: i32, start_y: i32, end_x: i32, end_y: i32) -> (animation: Animation)
        ensures
            animation@ == AnimationView::movement(start_x, start_y, end_x, end_y),
            animation@.wf(),
    {
        let mut args: Vec<i32> = Vec::new();
        args.push(start_x);
        args.push(start_y);
        args.push(end_x);
        args.push(end_y);
        assert(args@ =~= seq![start_x, start_y, end_x, end_y]);
        let animation = Animation::fresh(
            AnimationKind::Move,
            AnimationSpan::Unset,
            true,
            args,
            Vec::new(),
        );
        assert(animation@.messages =~= Seq::empty());
        animation
    }

    /// An emote above a player: the player's own where `own_emote` holds.
    pub fn show_emote(message: EmoteMessage, own_emote: bool) -> (animation: Animation)
        ensures
            animation@ == AnimationView::emote(message@.user_name, message@.emote, own_emote),
            animation@.wf(),
    {
        let mut args: Vec<i32> = Vec::new();
        args.push(
            if own_emote {
                1
            } else {
                -1
            },
        );
        let mut messages: Vec<String> = Vec::new();
        messages.push(message.user_name);
        messages.push(message.emote);
        assert(texts_view(messages@) =~= seq![message@.user_name, message@.emote]);
        assert(args@ =~= seq![
            if own_emote {
                1i32
            } else {
                -1i32
            },
        ]);
        Animation::fresh(AnimationKind::Emote, AnimationSpan::EmoteDefault, false, args, messages)
    }

    /// Whether the emote is the player's own.
    pub fn is_own_emote(&self) -> (own: bool)
        ensures
            own == self@.is_own_emote(),
    {
        self.args_i32.len() >= 1 && self.args_i32[0] == 1
    }

    /// Polls a message animation.
    fn poll_message(&mut self, references: &mut References, message_box: &mut MessageBox) -> (done:
        bool)
        requires
            old(self).kind == AnimationKind::Message || old(self).kind
                == AnimationKind::MultiLineMessages,
        ensures
            (Polled {
                animation: final(self)@,
                references: *final(references),
                message_box: final(message_box)@,
                done,
            }) == old(self)@.message_polled(*old(references), old(message_box)@),
    {
        if references.has_message {
            return false;
        }
        if self.messages.len() == 0 {
            self.block_scene_update = false;
            return true;
        }
        self.block_scene_update = true;
        references.has_message = true;
        message_box.visible = true;
        message_box.line_1 = self.messages.remove(0);
        match self.kind {
            AnimationKind::MultiLineMessages => {
                if self.messages.len() > 0 {
                    message_box.line_2 = self.messages.remove(0);
                    assert(texts_view(self.messages@) =~= old(self)@.messages.skip(2));
                } else {
                    message_box.line_2 = String::new();
                    assert(texts_view(self.messages@) =~= old(self)@.messages.skip(1));
                }
                let more = self.messages.len() > 0;
                message_box.continuous_mark = more;
                references.has_continuous_message = more;
            },
            _ => {
                message_box.line_2 = String::new();
                assert(texts_view(self.messages@) =~= old(self)@.messages.skip(1));
            },
        }
        false
    }

    /// Polls the animation at `step` and answers whether it is done.
    /// `target_present` says whether the player is on display above whom an
    /// emote is shown.
    pub fn poll(
        &mut self,
        references: &mut References,
        message_box: &mut MessageBox,
        target_present: bool,
        step: i64,
    ) -> (done: bool)
        requires
            old(self)@.wf(),
            0 <= step,
        ensures
            (Polled {
                animation: final(self)@,
                references: *final(references),
                message_box: final(message_box)@,
                done,
            }) == old(self)@.polled(*old(references), old(message_box)@, target_present, step),
            final(self)@.wf(),
    {
        match self.kind {
            AnimationKind::AlwaysBlink => {
                self.init_step(step);
                false
            },
            AnimationKind::FadeOutIn => {
                self.init_step(step);
                let half_span = self.span.steps() / 2;
                let gap = self.get_step_gap(step);
                if self.block_scene_update && gap > half_span {
                    self.block_scene_update = false;
                }
                gap > half_span * 2
            },
            AnimationKind::Message | AnimationKind::MultiLineMessages => self.poll_message(
                references,
                message_box,
            ),
            AnimationKind::Move => {
                self.init_step(step);
                self.get_step_gap(step) >= MOVE_STEPS
            },
            AnimationKind::Emote => {
                self.init_step(step);
                let gap = self.get_step_gap(step);
                gap > self.span.steps() || !target_present
            },
        }
    }
}

/// While a message is on display, a message animation that is polled
/// waits: it is not done, and neither it nor the flags nor the box change,
/// so none of its text is lost.
pub proof fn lemma_message_waits_while_claimed(
    animation: AnimationView,
    references: References,
    message_box: MessageBoxView,
)
    requires
        references.has_message,
    ensures
        animation.message_polled(references, message_box) == (Polled {
            animation,
            references,
            message_box,
            done: false,
        }),
{
}

/// Of two message animations polled in the same frame while no message is
/// on display, the first claims the display and shows its first text; the
/// second waits with all of its text.
pub proof fn lemma_first_claim_wins(
    first: AnimationView,
    second: AnimationView,
    references: References,
    message_box: MessageBoxView,
)
    requires
        !references.has_message,
        first.messages.len() > 0,
    ensures
        ({
            let after_first = first.message_polled(references, message_box);
            let after_second = second.message_polled(
                after_first.references,
                after_first.message_box,
            );
            &&& after_first.references.has_message
            &&& after_first.message_box.visible
            &&& after_first.message_box.line_1 == first.messages[0]
            &&& !after_first.done
            &&& after_second.animation == second
            &&& !after_second.done
            &&& after_second.references == after_first.references
            &&& after_second.message_box == after_first.message_box
        }),
{
}

/// Once the display was released and the first animation has no text left,
/// the first is done without a claim, and the second, polled after it,
/// shows its first text.
pub proof fn lemma_deferred_message_appears(
    first: AnimationView,
    second: AnimationView,
    references: References,
    message_box: MessageBoxView,
)
    requires
        !references.has_message,
        first.messages.len() == 0,
        second.messages.len() > 0,
    ensures
        ({
            let after_first = first.message_polled(references, message_box);
            let after_second = second.message_polled(
                after_first.references,
                after_first.message_box,
            );
            &&& after_first.done
            &&& !after_first.references.has_message
            &&& after_second.references.has_message
            &&& after_second.message_box.visible
            &&& after_second.message_box.line_1 == second.messages[0]
        }),
{
}

} // verus!
