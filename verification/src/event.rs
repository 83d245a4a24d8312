//! The event scene: the opening, shown once.

use crate::animation::{chain_view, Animation, AnimationView};
use crate::character::characters_view;
use crate::field::default_fade;
use crate::input::Input;
use crate::state::{State, StateType, StateView, FIELD_SCENE};
use crate::text::texts_view;
use vstd::prelude::*;

verus! {

/// The state of the event scene: it has none of its own.
#[derive(Clone, Copy, Debug, PartialEq, Eq, Structural)]
pub struct EventState {}

/// The lines of the opening.
pub open spec fn opening_lines() -> Seq<Seq<char>> {
    seq![
        "SVG QUEST へようこそ！"@,
        ""@,
        "ここは本来オープニングの画面ですが、"@,
        "まだ用意がありません。"@,
        "それではごゆっくりお楽しみください。"@,
    ]
}

impl StateView {
    /// The state once the event scene is entered: the field is asked for,
    /// the opening is queued with a fade after it, and the opening counts
    /// as seen.
    pub open spec fn opening_shown(self) -> StateView {
        self.requesting_scene(FIELD_SCENE).with_chain(
            seq![AnimationView::multi_line_messages(opening_lines()), default_fade()],
        ).with_rpg(self.rpg.with_character(self.rpg.hero().with_opening_seen()))
    }
}

impl EventState {
    /// The event scene.
    pub fn new() -> (event: EventState)
        ensures
            event == (EventState {  }),
    {
        EventState {  }
    }

    /// Enters the event scene.
    pub fn init(&mut self, shared_state: &mut State)
        requires
            old(shared_state)@.wf(),
        ensures
            final(shared_state)@ == old(shared_state)@.opening_shown(),
            final(shared_state)@.wf(),
    {
        shared_state.primitives.requested_scene_index = FIELD_SCENE;
        let mut lines: Vec<String> = Vec::new();
        lines.push("SVG QUEST へようこそ！".to_owned());
        lines.push("".to_owned());
        lines.push("ここは本来オープニングの画面ですが、".to_owned());
        lines.push("まだ用意がありません。".to_owned());
        lines.push("それではごゆっくりお楽しみください。".to_owned());
        assert(texts_view(lines@) =~= opening_lines());
        let mut chain: Vec<Animation> = Vec::new();
        chain.push(Animation::create_multi_line_messages(lines));
        chain.push(Animation::create_fade_out_in());
        assert(chain_view(chain@) =~= seq![
            AnimationView::multi_line_messages(opening_lines()),
            default_fade(),
        ]);
        shared_state.push_chain(chain);
        match &mut shared_state.state_type {
            StateType::RPGShared(rpg) => {
                let ghost party_before = characters_view(rpg.characters@);
                let ghost hero_before = rpg.characters@[0]@;
                if rpg.characters[0].event_flags.len() > 0 {
                    rpg.characters[0].event_flags[0] = true;
                } else {
                    rpg.characters[0].event_flags.push(true);
                }
                proof {
                    assert(rpg.characters@[0]@.event_flags
                        =~= hero_before.with_opening_seen().event_flags);
                    assert(characters_view(rpg.characters@) =~= party_before.update(
                        0,
                        hero_before.with_opening_seen(),
                    ));
                }
            },
            StateType::TBDStateType => {},
        }
    }

    /// Takes an input while the event scene is on display: nothing happens.
    pub fn consume(&mut self, shared_state: &mut State, input: Input)
        ensures
            final(shared_state)@ == old(shared_state)@,
    {
    }
}

} // verus!
