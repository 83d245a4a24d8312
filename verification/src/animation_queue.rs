//! The queue of animation chains.
//!
//! Each chain is polled through its head once per frame, in queue order.
//! A head that is done leaves its chain; a chain that is used up leaves
//! the queue. A chain holds up transitions through its head alone.

use crate::animation::{
    chain_view, queue_view, Animation, AnimationKind, AnimationView, MessageBox, MessageBoxView,
    References,
};
use crate::message::{positions_view, PositionMessage, PositionMessageView};
use vstd::prelude::*;

verus! {

/// The invariant of the queue: no chain is empty, and every animation
/// meets its own invariant.
pub open spec fn queue_wf(queue: Seq<Seq<AnimationView>>) -> bool {
    forall|i: int|
        0 <= i < queue.len() ==> (#[trigger] queue[i]).len() > 0 && forall|j: int|
            0 <= j < queue[i].len() ==> (#[trigger] queue[i][j]).wf()
}

/// Whether the head of some chain holds up scene and map transitions.
pub open spec fn any_blocking(queue: Seq<Seq<AnimationView>>) -> bool {
    exists|i: int| 0 <= i < queue.len() && (#[trigger] queue[i])[0].block_scene_update
}

/// Whether the player named `user_name` is reported on the map `map_index`.
pub open spec fn user_on_map(
    online_users: Seq<PositionMessageView>,
    user_name: Seq<char>,
    map_index: usize,
) -> bool {
    exists|i: int|
        0 <= i < online_users.len() && (#[trigger] online_users[i]).user_name == user_name
            && online_users[i].map_index == map_index
}

/// Whether the player above whom an emote is shown is on display: the
/// player's own character always is, another player where that player is
/// reported on the map shown.
pub open spec fn emote_target_present(
    animation: AnimationView,
    online_users: Seq<PositionMessageView>,
    map_index: usize,
) -> bool {
    animation.kind == AnimationKind::Emote ==> animation.is_own_emote() || user_on_map(
        online_users,
        animation.messages[0],
        map_index,
    )
}

/// What a frame leaves of the queue, the shared flags and the message box.
pub struct Advanced {
    pub queue: Seq<Seq<AnimationView>>,
    pub references: References,
    pub message_box: MessageBoxView,
}

/// A chain after its head was polled: without the head where the head is
/// done, with the polled head otherwise.
pub open spec fn chain_after_poll(
    chain: Seq<AnimationView>,
    head: AnimationView,
    done: bool,
) -> Seq<AnimationView> {
    if done {
        chain.drop_first()
    } else {
        chain.update(0, head)
    }
}

/// The frame: every chain is polled through its head, in queue order, each
/// poll seeing the flags and the box as the polls before it left them; the
/// chains that are used up leave the queue.
pub open spec fn advanced(
    queue: Seq<Seq<AnimationView>>,
    references: References,
    message_box: MessageBoxView,
    online_users: Seq<PositionMessageView>,
    map_index: usize,
    step: i64,
) -> Advanced
    decreases queue.len(),
{
    if queue.len() == 0 {
        Advanced { queue, references, message_box }
    } else {
        let before = advanced(
            queue.drop_last(),
            references,
            message_box,
            online_users,
            map_index,
            step,
        );
        let chain = queue.last();
        let polled = chain[0].polled(
            before.references,
            before.message_box,
            emote_target_present(chain[0], online_users, map_index),
            step,
        );
        let rest = chain_after_poll(chain, polled.animation, polled.done);
        Advanced {
            queue: if rest.len() == 0 {
                before.queue
            } else {
                before.queue.push(rest)
            },
            references: polled.references,
            message_box: polled.message_box,
        }
    }
}

/// Whether the head of some chain holds up scene and map transitions.
pub fn has_animation_blocking_scene_update(queue: &Vec<Vec<Animation>>) -> (blocking: bool)
    requires
        queue_wf(queue_view(queue@)),
    ensures
        blocking == any_blocking(queue_view(queue@)),
{
    let mut i: usize = 0;
    while i < queue.len()
        invariant
            i <= queue.len(),
            queue_wf(queue_view(queue@)),
            forall|j: int| 0 <= j < i ==> !(#[trigger] queue_view(queue@)[j])[0].block_scene_update,
        decreases queue.len() - i,
    {
        assert(queue_view(queue@)[i as int].len() > 0);
        if queue[i][0].block_scene_update {
            assert(queue_view(queue@)[i as int][0].block_scene_update);
            return true;
        }
        i += 1;
    }
    false
}

/// Whether the player named `user_name` is reported on the map `map_index`.
pub fn is_user_on_map(online_users: &Vec<PositionMessage>, user_name: &String, map_index: usize) -> (found:
    bool)
    ensures
        found == user_on_map(positions_view(online_users@), user_name@, map_index),
{
    let mut i: usize = 0;
    while i < online_users.len()
        invariant
            i <= online_users.len(),
            forall|j: int|
                0 <= j < i ==> !((#[trigger] positions_view(online_users@)[j]).user_name
                    == user_name@ && positions_view(online_users@)[j].map_index == map_index),
        decreases online_users.len() - i,
    {
        if online_users[i].user_name == *user_name && online_users[i].map_index == map_index {
            assert(positions_view(online_users@)[i as int].user_name == user_name@);
            return true;
        }
        i += 1;
    }
    false
}

/// Whether the player above whom an emote is shown is on display.
fn is_emote_target_present(
    animation: &Animation,
    online_users: &Vec<PositionMessage>,
    map_index: usize,
) -> (present: bool)
    requires
        animation@.wf(),
    ensures
        present == emote_target_present(animation@, positions_view(online_users@), map_index),
{
    match animation.kind {
        AnimationKind::Emote => {
            animation.is_own_emote() || is_user_on_map(
                online_users,
                &animation.messages[0],
                map_index,
            )
        },
        _ => true,
    }
}

/// Runs one frame of the queue at `step`.
pub fn advance_animations(
    queue: &mut Vec<Vec<Animation>>,
    references: &mut References,
    message_box: &mut MessageBox,
    online_users: &Vec<PositionMessage>,
    map_index: usize,
    step: i64,
)
    requires
        queue_wf(queue_view(old(queue)@)),
        0 <= step,
    ensures
        (Advanced {
            queue: queue_view(final(queue)@),
            references: *final(references),
            message_box: final(message_box)@,
        }) == advanced(
            queue_view(old(queue)@),
            *old(references),
            old(message_box)@,
            positions_view(online_users@),
            map_index,
            step,
        ),
        queue_wf(queue_view(final(queue)@)),
{
    let ghost original = queue_view(queue@);
    let ghost first_references = *references;
    let ghost first_box = message_box@;
    let ghost users = positions_view(online_users@);
    let mut kept: Vec<Vec<Animation>> = Vec::new();
    let ghost mut polled_chains: int = 0;
    assert(queue_view(kept@) =~= Seq::empty());
    assert(original.skip(0) =~= original);
    assert(original.take(0) =~= Seq::empty());
    while queue.len() > 0
        invariant
            0 <= polled_chains <= original.len(),
            0 <= step,
            users == positions_view(online_users@),
            queue_wf(original),
            queue_view(queue@) == original.skip(polled_chains),
            (Advanced {
                queue: queue_view(kept@),
                references: *references,
                message_box: message_box@,
            }) == advanced(
                original.take(polled_chains),
                first_references,
                first_box,
                users,
                map_index,
                step,
            ),
            queue_wf(queue_view(kept@)),
        decreases queue.len(),
    {
        let ghost waiting = queue_view(queue@);
        let ghost kept_before = queue_view(kept@);
        proof {
            assert(waiting.len() == queue@.len());
            assert(original.skip(polled_chains).len() == original.len() - polled_chains);
            assert(polled_chains < original.len());
        }
        let ghost queue_before = queue@;
        let mut chain = queue.remove(0);
        proof {
            assert(chain_view(chain@) == waiting[0]);
            assert(waiting[0] == original.skip(polled_chains)[0]);
            assert(waiting[0] == original[polled_chains]);
            assert(queue@ =~= queue_before.skip(1));
            assert forall|j: int| 0 <= j < queue@.len() implies queue_view(queue@)[j]
                == original.skip(polled_chains + 1)[j] by {
                assert(queue_view(queue@)[j] == chain_view(queue_before[j + 1]@));
                assert(waiting[j + 1] == original.skip(polled_chains)[j + 1]);
            }
            assert(queue_view(queue@) =~= original.skip(polled_chains + 1));
            assert(original.take(polled_chains + 1).drop_last() =~= original.take(polled_chains));
            assert(original.take(polled_chains + 1).last() == original[polled_chains]);
            assert(chain_view(chain@).len() > 0);
            assert(chain_view(chain@)[0].wf());
        }
        let ghost chain_before = chain_view(chain@);
        let present = is_emote_target_present(&chain[0], online_users, map_index);
        let done = chain[0].poll(references, message_box, present, step);
        let ghost head = chain@[0]@;
        if done {
            chain.remove(0);
        }
        proof {
            assert(chain_view(chain@) =~= chain_after_poll(chain_before, head, done));
            assert forall|j: int| 0 <= j < chain_view(chain@).len() implies (
            #[trigger] chain_view(chain@)[j]).wf() by {
                if done {
                    assert(chain_view(chain@)[j] == chain_before[j + 1]);
                } else if j > 0 {
                    assert(chain_view(chain@)[j] == chain_before[j]);
                }
            }
        }
        if chain.len() > 0 {
            kept.push(chain);
            proof {
                assert(queue_view(kept@) =~= kept_before.push(chain_view(chain@)));
            }
        }
        proof {
            polled_chains = polled_chains + 1;
        }
    }
    proof {
        assert(original.take(polled_chains) =~= original);
    }
    *queue = kept;
}

/// A poll leaves a well-formed animation well-formed.
pub proof fn lemma_polled_keeps_wf(
    animation: AnimationView,
    references: References,
    message_box: MessageBoxView,
    target_present: bool,
    step: i64,
)
    requires
        animation.wf(),
        0 <= step,
    ensures
        animation.polled(references, message_box, target_present, step).animation.wf(),
{
}

/// A frame leaves a well-formed queue well-formed: no chain is left empty,
/// and every animation stays well-formed.
pub proof fn lemma_advanced_keeps_wf(
    queue: Seq<Seq<AnimationView>>,
    references: References,
    message_box: MessageBoxView,
    online_users: Seq<PositionMessageView>,
    map_index: usize,
    step: i64,
)
    requires
        queue_wf(queue),
        0 <= step,
    ensures
        queue_wf(advanced(queue, references, message_box, online_users, map_index, step).queue),
    decreases queue.len(),
{
    if queue.len() > 0 {
        let shorter = queue.drop_last();
        assert forall|i: int| 0 <= i < shorter.len() implies (#[trigger] shorter[i]).len() > 0
            && forall|j: int| 0 <= j < shorter[i].len() ==> (#[trigger] shorter[i][j]).wf() by {
            assert(shorter[i] == queue[i]);
        }
        lemma_advanced_keeps_wf(shorter, references, message_box, online_users, map_index, step);
        let before = advanced(shorter, references, message_box, online_users, map_index, step);
        let chain = queue.last();
        assert(chain == queue[queue.len() - 1]);
        assert(chain[0].wf());
        let present = emote_target_present(chain[0], online_users, map_index);
        lemma_polled_keeps_wf(chain[0], before.references, before.message_box, present, step);
        let polled = chain[0].polled(before.references, before.message_box, present, step);
        let rest = chain_after_poll(chain, polled.animation, polled.done);
        assert forall|j: int| 0 <= j < rest.len() implies (#[trigger] rest[j]).wf() by {
            if polled.done {
                assert(rest[j] == chain[j + 1]);
            } else if j > 0 {
                assert(rest[j] == chain[j]);
            }
        }
        let after = advanced(queue, references, message_box, online_users, map_index, step).queue;
        assert forall|i: int| 0 <= i < after.len() implies (#[trigger] after[i]).len() > 0
            && forall|j: int| 0 <= j < after[i].len() ==> (#[trigger] after[i][j]).wf() by {
            if i < before.queue.len() {
                assert(after[i] == before.queue[i]);
            } else {
                assert(after[i] == rest);
            }
        }
    }
}

} // verus!
