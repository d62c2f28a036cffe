//! What holds of playing a demo over any number of rounds.

use vstd::prelude::*;
use crate::demo_executor::settle;
use crate::demo_script::DemoActionView;
use crate::editor::Editor;

verus! {

/// Passing over finished steps never goes back.
pub proof fn lemma_settle_moves_forward(
    a: Seq<DemoActionView>,
    i: nat,
    typed: nat,
    last: u64,
    now: u64,
)
    ensures
        settle(a, i, typed, last, now).0 >= i,
        i <= a.len() ==> settle(a, i, typed, last, now).0 <= a.len(),
    decreases a.len() - i,
{
    if i < a.len() && crate::demo_executor::step_done(a[i as int], typed, last, now) {
        lemma_settle_moves_forward(a, i + 1, 0, now, now);
    }
}

/// A round of play never moves the demo back: the step reached after it
/// is at or after the step before it.
pub proof fn lemma_demo_never_moves_back(pre: Editor, now: u64, r: Option<crate::keys::Key>, post: Editor)
    requires
        pre.demo_progressed(now, r, post),
    ensures
        post.demo.action_index >= pre.demo.action_index,
{
    let a = pre.demo_actions();
    if pre.tutorial.demo_mode && pre.demo.pending_keys@.len() == 0 && pre.demo.script is Some
        && pre.demo.action_index < a.len() && pre.demo.last_action_time is Some {
        lemma_settle_moves_forward(
            a,
            pre.demo.action_index as nat,
            pre.demo.typing_char_index as nat,
            pre.demo.last_action_time.unwrap(),
            now,
        );
        let v = pre.demo.script.unwrap().actions;
        assert(a.len() == v@.len());
        assert(v.len() == v@.len());
    }
}

/// A demo that ended after taking a step is one the reader exits after
/// (see `should_exit_after_demo`).
pub proof fn lemma_completed_demo_exits(pre: Editor, index: usize, post: Editor)
    requires
        pre.demo_completed(index, post),
        index > 0,
    ensures
        !post.tutorial.demo_mode && post.demo.script is None && post.demo.action_index > 0,
{
}

/// Once a demo is over, further rounds of play change nothing and hand out
/// no key.
pub proof fn lemma_finished_demo_is_still(pre: Editor, now: u64, r: Option<crate::keys::Key>, post: Editor)
    requires
        pre.demo_progressed(now, r, post),
        !pre.tutorial.demo_mode,
    ensures
        r is None,
        post == pre,
{
}

} // verus!
