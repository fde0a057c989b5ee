//! Properties of the controller over sequences of frames, stated over the
//! transition functions that `BattlePanel::input` and `BattlePanel::draw`
//! are specified by.
use vstd::prelude::*;
use crate::domain::{FrameInput, ItemRef, MoveTarget};
use crate::panel::{drawn, next_active, routed_to, signal, BattlePanels};

verus! {

/// The active state after `frames`, starting in `s`. Input never changes
/// whether the controller is live, so `live` holds throughout.
pub open spec fn run_active(live: bool, s: BattlePanels, frames: Seq<FrameInput>) -> BattlePanels
    decreases frames.len(),
{
    if frames.len() == 0 {
        s
    } else {
        run_active(live, next_active(live, s, frames[0]), frames.drop_first())
    }
}

/// The completed selections reported for `frames`, one per frame, starting
/// in `s`.
pub open spec fn run_signals(live: bool, s: BattlePanels, frames: Seq<FrameInput>) -> Seq<Option<BattlePanels>>
    decreases frames.len(),
{
    if frames.len() == 0 {
        Seq::empty()
    } else {
        seq![signal(live, s, frames[0])] + run_signals(live, next_active(live, s, frames[0]), frames.drop_first())
    }
}

/// While dormant, no sequence of frames changes the state, reports a
/// selection, reaches a sub-panel, or gets anything drawn.
pub proof fn lemma_dormant_frames(s: BattlePanels, frames: Seq<FrameInput>)
    ensures
        run_active(false, s, frames) == s,
        run_signals(false, s, frames).len() == frames.len(),
        forall|k: int| 0 <= k < frames.len() ==> #[trigger] run_signals(false, s, frames)[k] is None,
        routed_to(false, s) is None,
        drawn(false, run_active(false, s, frames)) is None,
    decreases frames.len(),
{
    if frames.len() > 0 {
        lemma_dormant_frames(s, frames.drop_first());
        let rest = run_signals(false, s, frames.drop_first());
        assert forall|k: int| 0 <= k < frames.len() implies #[trigger] run_signals(false, s, frames)[k] is None by {
            if k > 0 {
                assert(run_signals(false, s, frames)[k] == rest[k - 1]);
            }
        }
    }
}

/// From Main, a Confirm press reports Main and stays in Main.
pub proof fn lemma_confirm_from_main(f: FrameInput)
    requires
        f.confirm,
    ensures
        signal(true, BattlePanels::Main, f) == Some(BattlePanels::Main),
        next_active(true, BattlePanels::Main, f) == BattlePanels::Main,
{
}

/// From Fight, a Cancel press goes back to Main and reports nothing, also
/// when Confirm is pressed in the same frame.
pub proof fn lemma_cancel_from_fight(f: FrameInput)
    requires
        f.cancel,
    ensures
        next_active(true, BattlePanels::Fight, f) == BattlePanels::Main,
        signal(true, BattlePanels::Fight, f) is None,
{
}

/// From Target, a Cancel press goes back to Fight and reports nothing, also
/// when Confirm is pressed in the same frame; a Confirm (without Cancel) in
/// the next frame then reports Fight and does not enter Target: only the
/// caller moves from Fight to Target.
pub proof fn lemma_cancel_from_target(t: MoveTarget, i: Option<ItemRef>, f1: FrameInput, f2: FrameInput)
    requires
        f1.cancel,
        f2.confirm,
        !f2.cancel,
    ensures
        next_active(true, BattlePanels::Target(t, i), f1) == BattlePanels::Fight,
        signal(true, BattlePanels::Target(t, i), f1) is None,
        signal(true, BattlePanels::Fight, f2) == Some(BattlePanels::Fight),
        next_active(true, BattlePanels::Fight, f2) !is Target,
{
}

/// From Target(t, i), a Confirm press (without Cancel) reports Target(t, i)
/// and leaves Main behind; a Confirm in the next frame reports Main, so the
/// target selection is delivered once.
pub proof fn lemma_confirm_from_target(t: MoveTarget, i: Option<ItemRef>, f1: FrameInput, f2: FrameInput)
    requires
        f1.confirm,
        !f1.cancel,
        f2.confirm,
    ensures
        signal(true, BattlePanels::Target(t, i), f1) == Some(BattlePanels::Target(t, i)),
        next_active(true, BattlePanels::Target(t, i), f1) == BattlePanels::Main,
        signal(true, next_active(true, BattlePanels::Target(t, i), f1), f2) == Some(BattlePanels::Main),
{
}

} // verus!
