//! The cursor blink timer: a signed frame counter advanced once per frame.
use vstd::prelude::*;

verus! {

/// Frames in each half of the blink cycle.
pub const BLINK_FRAMES: i32 = 60;

/// The state that follows `s` after one frame.
pub open spec fn blink_next(s: int) -> int {
    if s == 0 {
        -60
    } else if s == -1 {
        60
    } else if s < 0 {
        s + 1
    } else {
        s - 1
    }
}

/// Whether the cursor is drawn in a frame that starts in state `s`.
pub open spec fn blink_visible(s: int) -> bool {
    s > 0
}

/// The state after `n` frames, starting from `s`.
pub open spec fn blink_after(s: int, n: nat) -> int
    decreases n,
{
    if n == 0 {
        s
    } else {
        blink_after(blink_next(s), (n - 1) as nat)
    }
}

/// The blink counter. Positive values count down frames with the cursor
/// drawn, negative ones count up frames without it.
pub struct CursorBlink {
    state: i32,
}

impl View for CursorBlink {
    type V = int;

    closed spec fn view(&self) -> int {
        self.state as int
    }
}

impl CursorBlink {
    /// Every state that the timer can reach.
    pub open spec fn wf(&self) -> bool {
        -60 <= self@ <= 60
    }

    /// A timer in its initial state, 0: the first frame hides the cursor.
    pub fn new() -> (r: CursorBlink)
        ensures
            r@ == 0,
            r.wf(),
    {
        CursorBlink { state: 0 }
    }

    /// Whether the cursor is drawn in the current frame.
    pub fn is_visible(&self) -> (r: bool)
        ensures
            r == blink_visible(self@),
    {
        self.state > 0
    }

    /// Ends a frame: reports whether the cursor was drawn in it and moves
    /// to the next state.
    pub fn advance(&mut self) -> (shown: bool)
        requires
            old(self).wf(),
        ensures
            shown == blink_visible(old(self)@),
            final(self)@ == blink_next(old(self)@),
            final(self).wf(),
    {
        let shown = self.state > 0;
        self.state = if self.state == 0 {
            -BLINK_FRAMES
        } else if self.state == -1 {
            BLINK_FRAMES
        } else if self.state < 0 {
            self.state + 1
        } else {
            self.state - 1
        };
        shown
    }
}

proof fn lemma_after_hidden(s: int, k: nat)
    requires
        s < 0,
        s + k <= -1,
    ensures
        blink_after(s, k) == s + k,
    decreases k,
{
    if k > 0 {
        lemma_after_hidden(s + 1, (k - 1) as nat);
    }
}

proof fn lemma_after_shown(t: int, k: nat)
    requires
        k <= t,
    ensures
        blink_after(t, k) == t - k,
    decreases k,
{
    if k > 0 {
        lemma_after_shown(t - 1, (k - 1) as nat);
    }
}

proof fn lemma_after_split(s: int, a: nat, b: nat)
    ensures
        blink_after(s, a + b) == blink_after(blink_after(s, a), b),
    decreases a,
{
    if a > 0 {
        lemma_after_split(blink_next(s), (a - 1) as nat, b);
        assert((a + b - 1) as nat == (a - 1) as nat + b);
    }
}

/// A window of 120 frames that starts in a hidden state, or in the first
/// shown one, holds exactly 60 frames with the cursor drawn, one contiguous
/// run starting at frame `lo`; the other 60 are hidden.
pub proof fn lemma_blink_window(s: int)
    requires
        -60 <= s <= -1 || s == 60,
    ensures
        ({
            let lo = if s == 60 { 0 } else { -s };
            &&& 0 <= lo <= 60
            &&& forall|i: nat|
                i < 120 ==> (blink_visible(#[trigger] blink_after(s, i)) <==> lo <= i < lo + 60)
        }),
{
    let lo: int = if s == 60 { 0 } else { -s };
    assert forall|i: nat| i < 120 implies (blink_visible(#[trigger] blink_after(s, i)) <==> lo <= i
        < lo + 60) by {
        if i < lo {
            lemma_after_hidden(s, i);
        } else {
            lemma_after_split(s, lo as nat, (i - lo) as nat);
            if s != 60 {
                lemma_after_hidden(s, (lo - 1) as nat);
                lemma_after_split(s, (lo - 1) as nat, 1);
            }
            assert(blink_after(s, lo as nat) == 60) by {
                reveal_with_fuel(blink_after, 2);
            }
            if i - lo <= 60 {
                lemma_after_shown(60, (i - lo) as nat);
            } else {
                lemma_after_shown(60, 60);
                lemma_after_split(60, 60, (i - lo - 60) as nat);
                assert(blink_after(0, (i - lo - 60) as nat) == blink_after(-60, (i - lo - 61) as nat));
                lemma_after_hidden(-60, (i - lo - 61) as nat);
            }
        }
    }
}

} // verus!
