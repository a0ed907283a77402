//! Hysteresis deciding whether the keyboard overlay is rendered this frame.

use vstd::prelude::*;

verus! {

/// Number of frames the overlay stays up after the last frame in which the
/// host wanted keyboard input.  The grace period avoids flicker when focus
/// is lost transiently, e.g. while a click on the keyboard itself briefly
/// steals focus from the text field.
pub const VISIBILITY_HOLD_FRAMES: u32 = 20;

/// What the countdown becomes after one frame: a frame in which the host
/// wants keyboard input resets it to the hold value, any other frame lets
/// it tick down, stopping at zero.
pub open spec fn next_counter(counter: nat, host_wants_focus: bool) -> nat {
    if host_wants_focus {
        VISIBILITY_HOLD_FRAMES as nat
    } else if counter > 0 {
        (counter - 1) as nat
    } else {
        0
    }
}

/// The countdown after a whole sequence of frames, oldest frame first.
pub open spec fn counter_after(counter: nat, frames: Seq<bool>) -> nat
    decreases frames.len(),
{
    if frames.len() == 0 {
        counter
    } else {
        next_counter(counter_after(counter, frames.drop_last()), frames.last())
    }
}

/// Hysteresis countdown deciding whether the keyboard is rendered this
/// frame.  The keyboard is visible exactly while the countdown is strictly
/// positive.
pub struct VisibilityTracker {
    pub counter: u32,
}

impl VisibilityTracker {
    pub fn new() -> (tracker: Self)
        ensures
            tracker.counter == 0,
    {
        VisibilityTracker { counter: 0 }
    }

    /// Advances the tracker by one frame and reports whether the keyboard
    /// should be rendered: true on every frame in which the host wants
    /// keyboard input, and on exactly the `VISIBILITY_HOLD_FRAMES` frames
    /// that follow the last such frame.  While the result is true the
    /// caller must request a repaint for the next frame, so that the
    /// countdown keeps ticking even when no other input arrives.
    pub fn update(&mut self, host_wants_focus: bool) -> (visible: bool)
        ensures
            final(self).counter == next_counter(old(self).counter as nat, host_wants_focus),
            visible == (host_wants_focus || old(self).counter > 0),
    {
        if host_wants_focus {
            self.counter = VISIBILITY_HOLD_FRAMES;
            true
        } else {
            let visible = self.counter > 0;
            if visible {
                self.counter = self.counter - 1;
            }
            visible
        }
    }
}

/// A sequence of frames in which the host never wants keyboard input
/// drains the countdown by exactly its length.
proof fn lemma_countdown_drain(counter: nat, frames: Seq<bool>)
    requires
        forall|i: int| 0 <= i < frames.len() ==> !frames[i],
    ensures
        counter_after(counter, frames) == if frames.len() <= counter {
            (counter - frames.len()) as nat
        } else {
            0nat
        },
    decreases frames.len(),
{
    if frames.len() > 0 {
        lemma_countdown_drain(counter, frames.drop_last());
    }
}

/// Hysteresis law: a frame in which the host wants keyboard input makes
/// the keyboard visible at once, whatever came before, and it then stays
/// visible for exactly `VISIBILITY_HOLD_FRAMES` further frames without
/// such input, after which it is hidden.  The keyboard is rendered on a
/// frame without input wanted exactly when the countdown going into that
/// frame is positive, so the `k`-th such frame after the input-wanting
/// one (counting from zero) is visible if and only if `k` is below the
/// hold value.
pub proof fn lemma_hysteresis(counter: nat, frames: Seq<bool>)
    requires
        forall|i: int| 0 <= i < frames.len() ==> !frames[i],
    ensures
        next_counter(counter, true) == VISIBILITY_HOLD_FRAMES,
        forall|k: int|
            0 <= k < frames.len() ==> ((counter_after(
                next_counter(counter, true),
                #[trigger] frames.take(k),
            ) > 0) <==> k < VISIBILITY_HOLD_FRAMES),
{
    assert forall|k: int|
        0 <= k < frames.len() implies ((counter_after(
        next_counter(counter, true),
        #[trigger] frames.take(k),
    ) > 0) <==> k < VISIBILITY_HOLD_FRAMES) by {
        lemma_countdown_drain(next_counter(counter, true), frames.take(k));
    }
}

} // verus!
